use std::sync::atomic::Ordering;

use speedtest_rs::download::Download;
use speedtest_rs::events::{
    DownloadState, FetchConfigState, FetchServersState, SelectFastestServerState, State, Status,
    UploadState,
};
use speedtest_rs::fetch_config::{FetchConfig, FetchConfigResult, SimpleConfig};
use speedtest_rs::model::{Client, Config, Download as DownloadParams, ServerConfig, Upload as UploadParams};
use speedtest_rs::progress::Progress;
use speedtest_rs::upload::Upload;

fn sample_simple_config() -> SimpleConfig {
    SimpleConfig {
        client_ip: String::from("1.1.1.1"),
        latitude: String::from("65.2842"),
        longitude: String::from("11.1759"),
        isp: String::from("Value"),
    }
}

#[test]
fn progress_tracks_status_and_elapsed() {
    let mut progress: Progress<()> = Progress::new("Download");
    assert_eq!(progress.name(), "Download");
    assert!(matches!(progress.status(), Status::Pending));
    assert_eq!(progress.elapsed(500), 0);

    progress.apply_status(Status::Start, 1_000);
    assert!(matches!(progress.status(), Status::Start));
    assert_eq!(progress.elapsed(1_750), 750);

    progress.apply_status(Status::Success(()), 3_000);
    assert!(matches!(progress.status(), Status::Success(())));
    // Once ended, the span no longer follows the clock.
    assert_eq!(progress.elapsed(9_999), 2_000);
}

#[test]
fn progress_error_stamps_the_end() {
    let mut progress: Progress<u32> = Progress::new("Fetch Servers");
    progress.apply_status(Status::Start, 10);
    progress.apply_status(Status::Error(String::from("boom")), 25);
    assert_eq!(progress.elapsed(100), 15);
    match progress.status() {
        Status::Error(e) => assert_eq!(e, "boom"),
        _ => panic!("the error status must be kept"),
    }
}

#[test]
fn fetch_config_tracker_keeps_the_outcome() {
    let mut fetch = FetchConfig::new();
    assert!(!fetch.is_start());
    assert!(fetch.get_result().is_none());
    assert_eq!(fetch.elapsed(123), 0);

    fetch.apply_state(FetchConfigState::Start, 100);
    assert!(fetch.is_start());
    assert_eq!(fetch.elapsed(160), 60);

    fetch.apply_state(FetchConfigState::Success(sample_simple_config()), 400);
    assert_eq!(fetch.elapsed(10_000), 300);
    match fetch.get_result() {
        Some(FetchConfigResult::Success(c)) => assert_eq!(c.client_ip, "1.1.1.1"),
        _ => panic!("a successful fetch must keep its configuration"),
    }

    let mut failed = FetchConfig::new();
    failed.apply_state(FetchConfigState::Start, 0);
    failed.apply_state(FetchConfigState::Failed(String::from("no route")), 9);
    match failed.get_result() {
        Some(FetchConfigResult::Error(e)) => assert_eq!(e, "no route"),
        _ => panic!("a failed fetch must keep its error"),
    }
}

#[test]
fn download_tracker_shares_its_counter() {
    let mut download = Download::new();
    let cell = download.clone_downloaded();
    cell.fetch_add(42, Ordering::Relaxed);
    assert_eq!(download.clone_downloaded().load(Ordering::Relaxed), 42);
    download.apply_state(DownloadState::Start, 5);
    download.apply_state(DownloadState::Done, 11);
}

#[test]
fn upload_tracker_shares_its_counter() {
    let mut upload = Upload::new();
    let cell = upload.clone_uploaded();
    cell.fetch_add(7, Ordering::Relaxed);
    assert_eq!(upload.clone_uploaded().load(Ordering::Relaxed), 7);
    upload.apply_state(UploadState::Start, 5);
    upload.apply_state(UploadState::Done, 11);
}

#[test]
fn only_early_stage_failures_count_as_errors() {
    let err = State::FetchConfig(FetchConfigState::Failed(String::from("x")));
    assert!(err.is_error());
    let err = State::FetchServers(FetchServersState::Failed(String::from("x")));
    assert!(err.is_error());
    let err = State::SelectFastestServer(SelectFastestServerState::Failed(String::from("x")));
    assert!(err.is_error());

    let ok = State::FetchConfig(FetchConfigState::Start);
    assert!(!ok.is_error());
    let ok = State::Download(DownloadState::Start);
    assert!(!ok.is_error());
    let ok = State::Upload(UploadState::Done);
    assert!(!ok.is_error());
    assert!(!ok.is_done());
}

#[test]
fn simple_config_reads_the_client_record() {
    let config = Config {
        client: Client {
            ip: String::from("1.1.1.1"),
            lat: String::from("65.2842"),
            lon: String::from("11.1759"),
            isp: String::from("Value"),
            isprating: String::from("3.7"),
            rating: String::from("0"),
            ispdlavg: String::from("0"),
            ispulavg: String::from("0"),
            loggedin: 0,
            country: String::from("HK"),
        },
        server_config: ServerConfig {
            threadcount: 4,
            ignoreids: String::new(),
            notonmap: String::new(),
            forcepingid: String::new(),
            preferredserverid: String::new(),
        },
        download: DownloadParams {
            testlength: 10,
            initialtest: String::new(),
            mintestsize: String::new(),
            threadsperurl: 4,
        },
        upload: UploadParams {
            testlength: 10,
            ratio: 5,
            initialtest: String::new(),
            mintestsize: String::new(),
            threads: 2,
            maxchunksize: String::new(),
            maxchunkcount: 50,
            threadsperurl: 4,
        },
    };
    let simple = SimpleConfig::from(&config);
    assert_eq!(simple.client_ip, "1.1.1.1");
    assert_eq!(simple.latitude, "65.2842");
    assert_eq!(simple.longitude, "11.1759");
    assert_eq!(simple.isp, "Value");
}

#[test]
fn elapsed_reads_zero_when_the_clock_moved_backwards() {
    let mut progress: Progress<()> = Progress::new("Upload");
    progress.apply_status(Status::Start, 1_000);
    assert_eq!(progress.elapsed(400), 0);
}
