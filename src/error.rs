use vstd::prelude::*;

verus! {

/// Why a measurement run stopped before its end.
#[derive(Debug, Clone, PartialEq)]
pub enum SpeedTestError {
    /// The discovery request failed or its answer could not be read; the
    /// reason as the driver reported it.
    Metadata(String),
    /// The size of the named target could not be learnt.
    Probe(String),
    /// The body of the named target could not be read to its announced size.
    Transfer(String),
    /// The sum of the announced sizes does not fit in 64 bits.
    InternalOverflow,
}

/// The text that describes an error; it names the target where there is one.
pub open spec fn message_of(e: SpeedTestError) -> Seq<char> {
    match e {
        SpeedTestError::Metadata(reason) => "Could not fetch the list of targets: "@ + reason@,
        SpeedTestError::Probe(name) => "Could not read content-length from "@ + name@,
        SpeedTestError::Transfer(name) => "Could not download "@ + name@,
        SpeedTestError::InternalOverflow => "Byte count overflow"@,
    }
}

impl SpeedTestError {
    pub fn message(&self) -> (r: String)
        ensures
            r@ == message_of(*self),
    {
        match self {
            SpeedTestError::Metadata(reason) => {
                let mut m = "Could not fetch the list of targets: ".to_owned();
                m.append(reason.as_str());
                m
            },
            SpeedTestError::Probe(name) => {
                let mut m = "Could not read content-length from ".to_owned();
                m.append(name.as_str());
                m
            },
            SpeedTestError::Transfer(name) => {
                let mut m = "Could not download ".to_owned();
                m.append(name.as_str());
                m
            },
            SpeedTestError::InternalOverflow => "Byte count overflow".to_owned(),
        }
    }
}

} // verus!
