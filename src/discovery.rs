use vstd::prelude::*;

verus! {

#[derive(Debug, Clone, PartialEq)]
pub struct Location {
    pub country: String,
    pub city: String,
}

/// What the discovery service says of the machine that asked.
#[derive(Debug, Clone, PartialEq)]
pub struct Client {
    pub asn: String,
    pub isp: String,
    pub location: Location,
    pub ip: String,
}

/// One URL to download as part of a measurement.
#[derive(Debug, Clone, PartialEq)]
pub struct Target {
    pub url: String,
    pub location: Location,
    pub name: String,
}

/// Address of the discovery service, up to the token.
pub const DISCOVERY_PREFIX: &'static str = "https://api.fast.com/netflix/speedtest/v2?https=true&token=";

/// Number of targets asked for when none was chosen.
pub const DEFAULT_URL_COUNT: u64 = 5;

/// The decimal digit for `d` below ten.
pub open spec fn digit(d: nat) -> char {
    if d == 0 {
        '0'
    } else if d == 1 {
        '1'
    } else if d == 2 {
        '2'
    } else if d == 3 {
        '3'
    } else if d == 4 {
        '4'
    } else if d == 5 {
        '5'
    } else if d == 6 {
        '6'
    } else if d == 7 {
        '7'
    } else if d == 8 {
        '8'
    } else {
        '9'
    }
}

/// `n` written in decimal, without leading zeros.
pub open spec fn decimal(n: nat) -> Seq<char>
    decreases n,
{
    if n < 10 {
        seq![digit(n)]
    } else {
        decimal(n / 10) + seq![digit(n % 10)]
    }
}

/// The discovery request for `token`, asking for `count` targets.
pub open spec fn discovery_url_of(token: Seq<char>, count: nat) -> Seq<char> {
    DISCOVERY_PREFIX@ + token + "&urlCount="@ + decimal(count)
}

fn digit_str(d: u64) -> (r: &'static str)
    requires
        d < 10,
    ensures
        r@ == seq![digit(d as nat)],
{
    if d == 0 {
        proof { reveal_strlit("0"); }
        "0"
    } else if d == 1 {
        proof { reveal_strlit("1"); }
        "1"
    } else if d == 2 {
        proof { reveal_strlit("2"); }
        "2"
    } else if d == 3 {
        proof { reveal_strlit("3"); }
        "3"
    } else if d == 4 {
        proof { reveal_strlit("4"); }
        "4"
    } else if d == 5 {
        proof { reveal_strlit("5"); }
        "5"
    } else if d == 6 {
        proof { reveal_strlit("6"); }
        "6"
    } else if d == 7 {
        proof { reveal_strlit("7"); }
        "7"
    } else if d == 8 {
        proof { reveal_strlit("8"); }
        "8"
    } else {
        proof { reveal_strlit("9"); }
        "9"
    }
}

/// Appends `n` in decimal to `s`.
fn append_decimal(s: &mut String, n: u64)
    ensures
        final(s)@ == old(s)@ + decimal(n as nat),
    decreases n,
{
    if n >= 10 {
        append_decimal(s, n / 10);
    }
    s.append(digit_str(n % 10));
    assert(s@ =~= old(s)@ + decimal(n as nat));
}

/// A speed test for one token: the settings of its discovery request and
/// what the last answer said.
#[derive(Debug)]
pub struct SpeedTest {
    pub token: String,
    /// Number of targets to ask for; `DEFAULT_URL_COUNT` when unset.
    pub url_count: Option<u64>,
    pub client: Option<Client>,
    pub targets: Option<Vec<Target>>,
}

impl SpeedTest {
    pub open spec fn url_count_spec(&self) -> u64 {
        match self.url_count {
            Some(n) => n,
            None => DEFAULT_URL_COUNT,
        }
    }

    pub fn new(token: &str) -> (r: SpeedTest)
        ensures
            r.token@ == token@,
            r.url_count is None,
            r.client is None,
            r.targets is None,
    {
        SpeedTest { token: token.to_owned(), url_count: None, client: None, targets: None }
    }

    /// The number of targets that the discovery request asks for.
    pub fn requested_url_count(&self) -> (r: u64)
        ensures
            r == self.url_count_spec(),
    {
        match self.url_count {
            Some(n) => n,
            None => DEFAULT_URL_COUNT,
        }
    }

    /// The address of the discovery request.
    pub fn discovery_url(&self) -> (r: String)
        ensures
            r@ == discovery_url_of(self.token@, self.url_count_spec() as nat),
    {
        let mut url = DISCOVERY_PREFIX.to_owned();
        url.append(self.token.as_str());
        url.append("&urlCount=");
        append_decimal(&mut url, self.requested_url_count());
        url
    }

    /// Keeps what the discovery service answered.
    pub fn set_discovery(&mut self, client: Client, targets: Vec<Target>)
        ensures
            final(self).token == old(self).token,
            final(self).url_count == old(self).url_count,
            final(self).client == Some(client),
            final(self).targets == Some(targets),
    {
        self.client = Some(client);
        self.targets = Some(targets);
    }
}

} // verus!
