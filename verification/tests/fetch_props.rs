use speedtest_rs::error::{FetchResource, SpeedTestError};
use speedtest_rs::fetch::Fetcher;
use speedtest_rs::model::{Client, Config, Download, ServerConfig, Upload};
use speedtest_rs::speed_tester::SpeedTester;

fn sample_config() -> Config {
    Config {
        client: Client {
            ip: String::from("2.2.2.2"),
            lat: String::from("1"),
            lon: String::from("2"),
            isp: String::from("Example"),
            isprating: String::from("3"),
            rating: String::from("0"),
            ispdlavg: String::from("0"),
            ispulavg: String::from("0"),
            loggedin: 0,
            country: String::from("HK"),
        },
        server_config: ServerConfig {
            threadcount: 4,
            ignoreids: String::new(),
            notonmap: String::new(),
            forcepingid: String::new(),
            preferredserverid: String::new(),
        },
        download: Download {
            testlength: 10,
            initialtest: String::new(),
            mintestsize: String::new(),
            threadsperurl: 4,
        },
        upload: Upload {
            testlength: 10,
            ratio: 5,
            initialtest: String::new(),
            mintestsize: String::new(),
            threads: 2,
            maxchunksize: String::new(),
            maxchunkcount: 50,
            threadsperurl: 4,
        },
    }
}

// One simulated failover attempt: what the HTTP layer would hand back for
// the given URL.
fn attempt(url: &str, responses: &[(&str, Option<Config>)]) -> Option<Config> {
    responses
        .iter()
        .find(|(u, _)| *u == url)
        .and_then(|(_, outcome)| outcome.clone())
}

// Drives a fetch the way the application layer does: try each URL in
// order, stop at the first success.
fn drive(mut fetcher: Fetcher, responses: &[(&str, Option<Config>)]) -> Result<Config, SpeedTestError> {
    while let Some(url) = fetcher.next_url() {
        if let Some(config) = attempt(&url, responses) {
            return Ok(config);
        }
    }
    Err(fetcher.fail())
}

#[test]
fn second_host_succeeds_after_first_returns_server_error() {
    let tester = SpeedTester::new();
    let good = sample_config();
    // The first host answers HTTP 500 (no parsed configuration), the
    // second answers with a valid document.
    let responses = [
        ("http://www.speedtest.net/speedtest-config.php", None),
        ("http://c.speedtest.net/speedtest-config.php", Some(good.clone())),
    ];
    let fetched = drive(tester.config_fetcher(), &responses).expect("second host succeeds");
    assert_eq!(fetched.client.ip, good.client.ip);
    assert_eq!(fetched.server_config.threadcount, good.server_config.threadcount);
}

#[test]
fn first_host_short_circuits_the_failover() {
    let tester = SpeedTester::new();
    let good = sample_config();
    let responses = [
        ("http://www.speedtest.net/speedtest-config.php", Some(good)),
        ("http://c.speedtest.net/speedtest-config.php", None),
    ];
    let mut fetcher = tester.config_fetcher();
    let first = fetcher.next_url().unwrap();
    assert_eq!(first, "http://www.speedtest.net/speedtest-config.php");
    assert!(attempt(&first, &responses).is_some());
    // The winning attempt leaves the second URL untried.
    assert!(!fetcher.exhausted());
}

#[test]
fn all_hosts_failing_gives_fetch_failed_config() {
    let tester = SpeedTester::new();
    let result = drive(tester.config_fetcher(), &[]);
    match result {
        Err(SpeedTestError::FetchFailed { resource: FetchResource::Config }) => {}
        _ => panic!("exhausting every URL must fail with FetchFailed for the config"),
    }
}

#[test]
fn all_hosts_failing_gives_fetch_failed_servers() {
    let tester = SpeedTester::new();
    let mut fetcher = tester.servers_fetcher(8);
    let mut tried = Vec::new();
    while let Some(url) = fetcher.next_url() {
        tried.push(url);
    }
    assert_eq!(
        tried,
        vec![
            "http://www.speedtest.net/speedtest-servers.php?threads=8",
            "http://www.speedtest.net/speedtest-servers-static.php?threads=8",
            "http://c.speedtest.net/speedtest-servers.php?threads=8",
            "http://c.speedtest.net/speedtest-servers-static.php?threads=8",
        ]
    );
    match fetcher.fail() {
        SpeedTestError::FetchFailed { resource: FetchResource::Servers } => {}
        _ => panic!("exhausting every URL must fail with FetchFailed for the servers"),
    }
}

#[test]
fn tester_keeps_fetched_state() {
    let mut tester = SpeedTester::new();
    assert!(!tester.is_initialized());
    match tester.get_config() {
        Err(SpeedTestError::ConfigMissing) => {}
        _ => panic!("the configuration is not there before a fetch"),
    }
    match tester.get_server() {
        Err(SpeedTestError::ServerMissing) => {}
        _ => panic!("no server is selected before the race"),
    }
    tester.set_config(sample_config());
    let threads = tester.get_config().unwrap().threads();
    assert_eq!(threads, 8);
    assert_eq!(tester.request_timeout_ms(), 10_000);
    assert_eq!(tester.compare_times(), 3);
    assert_eq!(tester.compare_interval_ms(), 200);
}
