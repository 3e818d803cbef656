use speedtest_rs::error::{FetchResource, SpeedTestError};
use speedtest_rs::model::Server;
use speedtest_rs::speed_tester::SpeedTester;

fn sample_server(id: &str) -> Server {
    Server {
        url: format!("http://{id}.example.net:8080/speedtest/upload.php"),
        lat: String::from("22.25"),
        lon: String::from("114.17"),
        name: String::from("Hong Kong"),
        country: String::from("Hong Kong"),
        cc: String::from("HK"),
        sponsor: String::from("Example"),
        id: String::from(id),
        host: format!("{id}.example.net:8080"),
    }
}

#[test]
fn fast_first_report_wins_immediately() {
    let tester = SpeedTester::new();
    let mut race = tester.start_server_race(1).unwrap();
    // Three successful rounds of under 10 ms each: far below 2 x timeout.
    let winner = race.on_report(sample_server("a"), 27);
    let winner = winner.expect("a fast first report must win at once");
    assert_eq!(winner.id, "a");
}

#[test]
fn fast_first_report_wins_among_many() {
    let tester = SpeedTester::new();
    let mut race = tester.start_server_race(3).unwrap();
    let winner = race.on_report(sample_server("quick"), 19_999);
    assert_eq!(winner.expect("just under 2 x timeout still wins").id, "quick");
}

#[test]
fn zero_servers_fail_with_no_servers() {
    let tester = SpeedTester::new();
    let race = tester.start_server_race(0);
    match race {
        Err(SpeedTestError::NoServers) => {}
        _ => panic!("an empty candidate list must fail with NoServers"),
    }
    assert_eq!(SpeedTestError::NoServers.message(), "no servers");
}

#[test]
fn all_timing_out_fails_only_after_all_reported() {
    let tester = SpeedTester::new();
    // A server whose every round fails aggregates 2 x 10000 ms x 3 rounds.
    let mut probe = tester.probe();
    probe.record_round(None);
    assert!(probe.needs_interval_sleep());
    probe.record_round(None);
    assert!(probe.needs_interval_sleep());
    probe.record_round(None);
    assert!(!probe.needs_interval_sleep());
    assert!(probe.done());
    let aggregate = probe.aggregate();
    assert_eq!(aggregate, 60_000);

    let mut race = tester.start_server_race(3).unwrap();
    assert!(race.on_report(sample_server("a"), aggregate).is_none());
    assert!(!race.all_reported());
    assert!(race.on_report(sample_server("b"), aggregate).is_none());
    assert!(!race.all_reported());
    assert!(race.on_report(sample_server("c"), aggregate).is_none());
    assert!(race.all_reported());
    match race.conclude() {
        Err(SpeedTestError::AllServersFailed) => {}
        _ => panic!("uniformly unreachable servers must fail with AllServersFailed"),
    }
    assert_eq!(SpeedTestError::AllServersFailed.message(), "all servers failed");
}

#[test]
fn slow_first_report_falls_back_to_minimum() {
    let tester = SpeedTester::new();
    let mut race = tester.start_server_race(3).unwrap();
    // First report at the threshold: not an immediate winner.
    assert!(race.on_report(sample_server("slow"), 20_000).is_none());
    assert!(race.on_report(sample_server("best"), 123).is_none());
    assert!(race.on_report(sample_server("mid"), 4_567).is_none());
    let winner = race.conclude().expect("one server is below the ceiling");
    assert_eq!(winner.id, "best");
}

#[test]
fn fallback_picks_first_of_equal_minima() {
    let tester = SpeedTester::new();
    let mut race = tester.start_server_race(3).unwrap();
    assert!(race.on_report(sample_server("x"), 50_000).is_none());
    assert!(race.on_report(sample_server("y"), 30_000).is_none());
    assert!(race.on_report(sample_server("z"), 30_000).is_none());
    let winner = race.conclude().expect("below the 60 s ceiling");
    assert_eq!(winner.id, "y");
}

#[test]
fn successful_rounds_accumulate_measured_delays() {
    let tester = SpeedTester::new();
    let mut probe = tester.probe();
    probe.record_round(Some(5));
    probe.record_round(None);
    probe.record_round(Some(12));
    assert_eq!(probe.aggregate(), 5 + 20_000 + 12);
}

#[test]
fn error_messages() {
    assert_eq!(
        SpeedTestError::FetchFailed { resource: FetchResource::Config }.message(),
        "all fetch config failed"
    );
    assert_eq!(
        SpeedTestError::FetchFailed { resource: FetchResource::Servers }.message(),
        "all fetch servers failed"
    );
    assert_eq!(
        SpeedTestError::ConfigMissing.message(),
        "config is empty. maybe call initialize first"
    );
    assert_eq!(
        SpeedTestError::ServerMissing.message(),
        "server is empty. maybe call initialize first"
    );
}
