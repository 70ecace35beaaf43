use speed_test::{
    Client, Command, Event, Location, Measurement, Notice, Phase, SpeedTest, SpeedTestError,
    SpeedTestEvents, Step, Target, TargetDownloadInformation,
};

const TOKEN: &str = "YXNkZmFzZGxmbnNkYWZoYXNkZmhrYWxm";

fn target(name: &str) -> Target {
    Target {
        url: format!("https://example.test/{}", name),
        location: Location { country: "NL".to_string(), city: "Amsterdam".to_string() },
        name: name.to_string(),
    }
}

fn info(bytes: u64, total: u64, elapsed: u128) -> TargetDownloadInformation {
    TargetDownloadInformation { bytes_downloaded: bytes, total_bytes: total, time_elapsed: elapsed }
}

fn feed(m: &mut Measurement, event: Event) -> Step {
    assert!(m.accepts_event(&event));
    m.on_event(event)
}

/// Resolves two targets of 1000 and 2000 bytes and probes both.
fn probed_pair() -> Measurement {
    let mut m = Measurement::new();
    let s = feed(&mut m, Event::Resolved(vec![target("A"), target("B")]));
    assert!(s.notices.is_empty());
    assert_eq!(s.command, Command::Probe { index: 0, url: "https://example.test/A".to_string() });
    let s = feed(&mut m, Event::Probed(Some(1000)));
    assert!(s.notices.is_empty());
    assert_eq!(s.command, Command::Probe { index: 1, url: "https://example.test/B".to_string() });
    let s = feed(&mut m, Event::Probed(Some(2000)));
    assert_eq!(s.notices, vec![Notice::Download(info(0, 3000, 0))]);
    assert_eq!(s.command, Command::Download { index: 0, url: "https://example.test/A".to_string() });
    m
}

#[test]
fn speed_test_new_works() {
    let speed_test = SpeedTest::new(TOKEN);

    assert_eq!(speed_test.token, TOKEN);
    assert_eq!(speed_test.client, None);
    assert_eq!(speed_test.targets, None);
    assert_eq!(speed_test.url_count, None);
}

#[test]
fn two_targets_download_in_full() {
    let mut m = probed_pair();
    assert_eq!(m.phase(), Phase::Downloading);
    let s = feed(&mut m, Event::Chunk { len: 600, elapsed: 10 });
    assert_eq!(s.notices, vec![Notice::Downloading(info(600, 3000, 10))]);
    assert_eq!(s.command, Command::ReadChunk);
    let s = feed(&mut m, Event::Chunk { len: 400, elapsed: 20 });
    assert_eq!(s.notices, vec![Notice::Downloading(info(1000, 3000, 20))]);
    let s = feed(&mut m, Event::StreamEnded { elapsed: 25 });
    assert!(s.notices.is_empty());
    assert_eq!(s.command, Command::Download { index: 1, url: "https://example.test/B".to_string() });
    let s = feed(&mut m, Event::Chunk { len: 2000, elapsed: 40 });
    assert_eq!(s.notices, vec![Notice::Downloading(info(3000, 3000, 40))]);
    let s = feed(&mut m, Event::StreamEnded { elapsed: 50 });
    assert_eq!(s.notices, vec![Notice::Downloaded(info(3000, 3000, 50))]);
    assert_eq!(s.command, Command::Done(Ok(info(3000, 3000, 50))));
    assert_eq!(m.phase(), Phase::Finished);
    assert!(!m.accepts_event(&Event::Chunk { len: 1, elapsed: 60 }));
}

#[test]
fn no_targets_finish_at_once() {
    let mut m = Measurement::new();
    let s = feed(&mut m, Event::Resolved(vec![]));
    assert_eq!(s.notices, vec![Notice::Download(info(0, 0, 0)), Notice::Downloaded(info(0, 0, 0))]);
    assert_eq!(s.command, Command::Done(Ok(info(0, 0, 0))));
    assert_eq!(m.phase(), Phase::Finished);
}

#[test]
fn missing_size_names_the_target() {
    let mut m = Measurement::new();
    feed(&mut m, Event::Resolved(vec![target("A"), target("B")]));
    feed(&mut m, Event::Probed(Some(1000)));
    let s = feed(&mut m, Event::Probed(None));
    assert!(s.notices.is_empty());
    assert_eq!(s.command, Command::Done(Err(SpeedTestError::Probe("B".to_string()))));
    assert_eq!(m.phase(), Phase::Failed);
    assert_eq!(m.snapshot().bytes_downloaded, 0);
}

#[test]
fn failed_probe_stops_before_the_start() {
    let mut m = Measurement::new();
    feed(&mut m, Event::Resolved(vec![target("A"), target("B"), target("C")]));
    let s = feed(&mut m, Event::ProbeFailed);
    assert!(s.notices.is_empty());
    assert_eq!(s.command, Command::Done(Err(SpeedTestError::Probe("A".to_string()))));
    assert!(!m.accepts_event(&Event::Probed(Some(5))));
}

#[test]
fn failed_second_body_names_it() {
    let mut m = probed_pair();
    feed(&mut m, Event::Chunk { len: 1000, elapsed: 5 });
    feed(&mut m, Event::StreamEnded { elapsed: 6 });
    let s = feed(&mut m, Event::Chunk { len: 300, elapsed: 7 });
    assert_eq!(s.notices, vec![Notice::Downloading(info(1300, 3000, 7))]);
    let s = feed(&mut m, Event::TransferFailed);
    assert!(s.notices.is_empty());
    assert_eq!(s.command, Command::Done(Err(SpeedTestError::Transfer("B".to_string()))));
    assert_eq!(m.snapshot(), info(1300, 3000, 7));
    assert!(!m.accepts_event(&Event::StreamEnded { elapsed: 8 }));
}

#[test]
fn short_body_is_a_transfer_error() {
    let mut m = probed_pair();
    feed(&mut m, Event::Chunk { len: 999, elapsed: 5 });
    let s = feed(&mut m, Event::StreamEnded { elapsed: 6 });
    assert_eq!(s.command, Command::Done(Err(SpeedTestError::Transfer("A".to_string()))));
}

#[test]
fn oversized_chunk_is_a_transfer_error() {
    let mut m = probed_pair();
    feed(&mut m, Event::Chunk { len: 900, elapsed: 5 });
    let s = feed(&mut m, Event::Chunk { len: 101, elapsed: 6 });
    assert!(s.notices.is_empty());
    assert_eq!(s.command, Command::Done(Err(SpeedTestError::Transfer("A".to_string()))));
    assert_eq!(m.snapshot().bytes_downloaded, 900);
}

#[test]
fn elapsed_time_never_goes_back() {
    let mut m = probed_pair();
    let s = feed(&mut m, Event::Chunk { len: 10, elapsed: 100 });
    assert_eq!(s.notices, vec![Notice::Downloading(info(10, 3000, 100))]);
    let s = feed(&mut m, Event::Chunk { len: 10, elapsed: 50 });
    assert_eq!(s.notices, vec![Notice::Downloading(info(20, 3000, 100))]);
}

#[test]
fn empty_chunk_repeats_the_totals() {
    let mut m = probed_pair();
    feed(&mut m, Event::Chunk { len: 10, elapsed: 1 });
    let s = feed(&mut m, Event::Chunk { len: 0, elapsed: 2 });
    assert_eq!(s.notices, vec![Notice::Downloading(info(10, 3000, 2))]);
    assert_eq!(s.command, Command::ReadChunk);
}

#[test]
fn size_sum_overflow_is_reported() {
    let mut m = Measurement::new();
    feed(&mut m, Event::Resolved(vec![target("A"), target("B")]));
    feed(&mut m, Event::Probed(Some(u64::MAX)));
    let s = feed(&mut m, Event::Probed(Some(1)));
    assert_eq!(s.command, Command::Done(Err(SpeedTestError::InternalOverflow)));
}

#[test]
fn largest_total_is_accepted() {
    let mut m = Measurement::new();
    feed(&mut m, Event::Resolved(vec![target("A"), target("B")]));
    feed(&mut m, Event::Probed(Some(u64::MAX - 1)));
    let s = feed(&mut m, Event::Probed(Some(1)));
    assert_eq!(s.notices, vec![Notice::Download(info(0, u64::MAX, 0))]);
}

#[test]
fn failed_discovery_is_a_metadata_error() {
    let mut m = Measurement::new();
    assert!(!m.accepts_event(&Event::Chunk { len: 1, elapsed: 1 }));
    let s = feed(&mut m, Event::ResolveFailed("status 403".to_string()));
    assert_eq!(s.command, Command::Done(Err(SpeedTestError::Metadata("status 403".to_string()))));
    assert_eq!(m.phase(), Phase::Failed);
}

#[test]
fn discovery_url_carries_token_and_count() {
    let mut speed_test = SpeedTest::new("abc");
    assert_eq!(speed_test.requested_url_count(), 5);
    assert_eq!(
        speed_test.discovery_url(),
        "https://api.fast.com/netflix/speedtest/v2?https=true&token=abc&urlCount=5"
    );
    speed_test.url_count = Some(120);
    assert_eq!(
        speed_test.discovery_url(),
        "https://api.fast.com/netflix/speedtest/v2?https=true&token=abc&urlCount=120"
    );
    speed_test.url_count = Some(0);
    assert!(speed_test.discovery_url().ends_with("&urlCount=0"));
}

#[test]
fn set_discovery_keeps_the_answer() {
    let mut speed_test = SpeedTest::new(TOKEN);
    let client = Client {
        asn: "1136".to_string(),
        isp: "KPN".to_string(),
        location: Location { country: "NL".to_string(), city: "Delft".to_string() },
        ip: "192.0.2.1".to_string(),
    };
    speed_test.set_discovery(client.clone(), vec![target("A")]);
    assert_eq!(speed_test.client, Some(client));
    assert_eq!(speed_test.targets, Some(vec![target("A")]));
    assert_eq!(speed_test.token, TOKEN);
}

#[test]
fn error_messages_name_the_target() {
    assert_eq!(
        SpeedTestError::Probe("B".to_string()).message(),
        "Could not read content-length from B"
    );
    assert_eq!(SpeedTestError::Transfer("C".to_string()).message(), "Could not download C");
    assert_eq!(
        SpeedTestError::Metadata("timeout".to_string()).message(),
        "Could not fetch the list of targets: timeout"
    );
    assert_eq!(SpeedTestError::InternalOverflow.message(), "Byte count overflow");
}

#[derive(Default)]
struct Recorder {
    seen: Vec<(char, u64)>,
}

impl SpeedTestEvents for Recorder {
    fn on_download(&mut self, i: &TargetDownloadInformation) {
        self.seen.push(('s', i.total_bytes));
    }

    fn on_downloading(&mut self, i: &TargetDownloadInformation) {
        self.seen.push(('p', i.bytes_downloaded));
    }

    fn on_downloaded(&mut self, i: &TargetDownloadInformation) {
        self.seen.push(('f', i.bytes_downloaded));
    }
}

#[test]
fn notices_reach_the_matching_method() {
    let mut r = Recorder::default();
    Notice::Download(info(0, 30, 0)).deliver(&mut r);
    Notice::Downloading(info(10, 30, 1)).deliver(&mut r);
    Notice::Downloaded(info(30, 30, 2)).deliver(&mut r);
    assert_eq!(r.seen, vec![('s', 30), ('p', 10), ('f', 30)]);
}

#[test]
fn default_counters_are_zero() {
    assert_eq!(TargetDownloadInformation::default(), info(0, 0, 0));
}
