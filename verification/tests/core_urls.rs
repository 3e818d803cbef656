use speedtest_rs::engine::download_url;
use speedtest_rs::urls::{SpeedTestHost, SpeedTestPath, SpeedTestUrl};

#[test]
fn test_config_urls() {
    let urls: Vec<_> = SpeedTestUrl::new().use_tls(true).config_urls();

    assert_eq!(
        urls,
        vec![
            "https://www.speedtest.net/speedtest-config.php",
            "https://c.speedtest.net/speedtest-config.php",
        ]
    );
}

#[test]
fn test_servers_urls() {
    let urls: Vec<_> = SpeedTestUrl::new().use_tls(true).threads(5).server_urls();

    assert_eq!(
        urls,
        vec![
            "https://www.speedtest.net/speedtest-servers.php?threads=5",
            "https://www.speedtest.net/speedtest-servers-static.php?threads=5",
            "https://c.speedtest.net/speedtest-servers.php?threads=5",
            "https://c.speedtest.net/speedtest-servers-static.php?threads=5",
        ]
    );
}

#[test]
fn plain_http_urls_without_threads() {
    let urls = SpeedTestUrl::new().server_urls();
    assert_eq!(
        urls,
        vec![
            "http://www.speedtest.net/speedtest-servers.php",
            "http://www.speedtest.net/speedtest-servers-static.php",
            "http://c.speedtest.net/speedtest-servers.php",
            "http://c.speedtest.net/speedtest-servers-static.php",
        ]
    );
}

#[test]
fn hosts_and_paths() {
    let hosts = SpeedTestHost::all();
    assert_eq!(hosts[0].host(), "www.speedtest.net");
    assert_eq!(hosts[1].host(), "c.speedtest.net");

    let paths = SpeedTestPath::servers();
    assert_eq!(paths[0].path(), "/speedtest-servers.php");
    assert_eq!(paths[1].path(), "/speedtest-servers-static.php");
    assert_eq!(SpeedTestPath::Config.path(), "/speedtest-config.php");
}

#[test]
fn download_url_keeps_literal_concatenation() {
    let base = String::from("http://example.net:8080/speedtest/upload.php");
    let url = download_url(&base, 350);
    assert_eq!(
        url,
        "http://example.net:8080/speedtest/upload.php/random350x350.jpg"
    );
    let url = download_url(&base, 4000);
    assert_eq!(
        url,
        "http://example.net:8080/speedtest/upload.php/random4000x4000.jpg"
    );
}
