use speedtest_rs::model::{
    Client, Config, DefaultSequence, Download, Server, ServerConfig, Upload,
};
use speedtest_rs::speed_tester::{retain_not_ignored, SpeedTester};

fn sample_client() -> Client {
    Client {
        ip: String::from("1.1.1.1"),
        lat: String::from("65.2842"),
        lon: String::from("11.1759"),
        isp: String::from("Value"),
        isprating: String::from("3.7"),
        rating: String::from("0"),
        ispdlavg: String::from("0"),
        ispulavg: String::from("0"),
        loggedin: 0,
        country: String::from("HK"),
    }
}

fn sample_config(ratio: u32) -> Config {
    Config {
        client: sample_client(),
        server_config: ServerConfig {
            threadcount: 4,
            ignoreids: String::from("683,1525,1716"),
            notonmap: String::new(),
            forcepingid: String::new(),
            preferredserverid: String::new(),
        },
        download: Download {
            testlength: 10,
            initialtest: String::from("250K"),
            mintestsize: String::from("250K"),
            threadsperurl: 4,
        },
        upload: Upload {
            testlength: 10,
            ratio,
            initialtest: String::from("0"),
            mintestsize: String::from("32K"),
            threads: 2,
            maxchunksize: String::from("512K"),
            maxchunkcount: 50,
            threadsperurl: 4,
        },
    }
}

fn sample_server(id: &str) -> Server {
    Server {
        url: format!("http://{id}.example.net:8080/speedtest/upload.php"),
        lat: String::from("22.25"),
        lon: String::from("114.17"),
        name: String::from("Hong Kong"),
        country: String::from("Hong Kong"),
        cc: String::from("HK"),
        sponsor: String::from("Example"),
        id: String::from(id),
        host: format!("{id}.example.net:8080"),
    }
}

#[test]
fn download_sequence_is_fixed_and_ascending() {
    let seq = sample_config(5).download_size_sequence();
    assert_eq!(seq, vec![350, 500, 750, 1000, 1500, 2000, 2500, 3000, 3500, 4000]);
    for w in seq.windows(2) {
        assert!(w[0] < w[1]);
    }
    assert_eq!(DefaultSequence::Download.sequence(), seq);
}

#[test]
fn upload_sequence_full_when_ratio_out_of_range() {
    let full = vec![32768, 65536, 131072, 262144, 524288, 1048576, 7340032];
    assert_eq!(sample_config(0).upload_size_sequence(), full);
    assert_eq!(sample_config(7).upload_size_sequence(), full);
    assert_eq!(sample_config(100).upload_size_sequence(), full);
    assert_eq!(DefaultSequence::Upload.sequence(), full);
}

#[test]
fn upload_sequence_truncated_by_ratio() {
    assert_eq!(
        sample_config(1).upload_size_sequence(),
        vec![32768, 65536, 131072, 262144, 524288, 1048576, 7340032]
    );
    assert_eq!(sample_config(5).upload_size_sequence(), vec![524288, 1048576, 7340032]);
    assert_eq!(sample_config(6).upload_size_sequence(), vec![1048576, 7340032]);
    for ratio in 1..7u32 {
        let seq = sample_config(ratio).upload_size_sequence();
        assert_eq!(seq.len(), 7 - (ratio as usize - 1));
    }
}

#[test]
fn threads_is_twice_thread_count() {
    let config = sample_config(5);
    assert_eq!(config.threads(), 8);
    assert_eq!(config.download_threads(), 8);
    let mut other = sample_config(5);
    other.server_config.threadcount = 7;
    assert_eq!(other.threads(), 14);
}

#[test]
fn derived_counts() {
    let config = sample_config(5);
    assert_eq!(config.download_count_per_url(), 4);
    assert_eq!(config.upload_threads(), 2);
    assert_eq!(config.upload_count_per_url(), 4);
    assert_eq!(config.max_upload_count(), 50);
    assert_eq!(config.max_download_duration(), 10_000);
    assert_eq!(config.max_upload_duration(), 10_000);
    assert_eq!(config.client_info().ip, "1.1.1.1");
}

#[test]
fn ignore_list_splits_on_commas() {
    let config = sample_config(5);
    assert_eq!(config.ignore_servers(), vec!["683", "1525", "1716"]);

    let mut single = sample_config(5);
    single.server_config.ignoreids = String::from("42");
    assert_eq!(single.ignore_servers(), vec!["42"]);

    let mut empty = sample_config(5);
    empty.server_config.ignoreids = String::new();
    assert_eq!(empty.ignore_servers(), vec![""]);
}

#[test]
fn filter_drops_ignored_servers_and_keeps_order() {
    let tester = SpeedTester::new();
    let config = sample_config(5);
    let mut servers = vec![
        sample_server("683"),
        sample_server("5"),
        sample_server("1716"),
        sample_server("9"),
    ];
    tester.filter_ignored_servers(&mut servers, &config);
    let ids: Vec<_> = servers.iter().map(|s| s.id.as_str()).collect();
    assert_eq!(ids, vec!["5", "9"]);
}

#[test]
fn retain_keeps_everything_when_no_id_matches() {
    let ids = vec![String::from("1"), String::from("2")];
    let mut servers = vec![sample_server("5"), sample_server("9")];
    retain_not_ignored(&mut servers, &ids);
    assert_eq!(servers.len(), 2);

    let mut all_ignored = vec![sample_server("1"), sample_server("2")];
    retain_not_ignored(&mut all_ignored, &ids);
    assert!(all_ignored.is_empty());
}

#[test]
fn ignore_list_keeps_empty_pieces() {
    let mut config = sample_config(5);
    config.server_config.ignoreids = String::from("1,,2,");
    assert_eq!(config.ignore_servers(), vec!["1", "", "2", ""]);
}
