use jamrock_admin::config::{config_with_api_url, get_api_url, get_config, AppConfig};
use jamrock_admin::export::csv_file_bytes;
use jamrock_admin::system::AppVersionInfo;
use jamrock_admin::text::u64_dec_string;
use jamrock_admin::window::WindowState;

#[test]
fn default_config_values() {
    let c = AppConfig::default();
    assert_eq!(c.api_url, "https://jamrock-api.up.railway.app/api");
    assert_eq!(c.theme, "dark");
    assert!(!c.sidebar_collapsed);
    assert_eq!(c.auto_refresh_interval, 30);
    assert_eq!(c.last_username, "");
}

fn sample_config() -> AppConfig {
    AppConfig {
        api_url: String::from("https://example.test/api"),
        theme: String::from("light"),
        sidebar_collapsed: true,
        auto_refresh_interval: 5,
        last_username: String::from("admin"),
    }
}

#[test]
fn get_config_prefers_the_stored_one() {
    let c = get_config(Some(sample_config()));
    assert_eq!(c.theme, "light");
    let d = get_config(None);
    assert_eq!(d.theme, "dark");
    assert_eq!(d.api_url, "https://jamrock-api.up.railway.app/api");
}

#[test]
fn api_url_resolution_order() {
    let standalone = Some(String::from("https://standalone.test"));
    assert_eq!(
        get_api_url(standalone, Some(sample_config())),
        "https://standalone.test"
    );
    assert_eq!(
        get_api_url(None, Some(sample_config())),
        "https://example.test/api"
    );
    assert_eq!(
        get_api_url(None, None),
        "https://jamrock-api.up.railway.app/api"
    );
}

#[test]
fn api_url_update_touches_only_the_url() {
    let updated = config_with_api_url(Some(sample_config()), "https://new.test").unwrap();
    assert_eq!(updated.api_url, "https://new.test");
    assert_eq!(updated.theme, "light");
    assert!(updated.sidebar_collapsed);
    assert_eq!(updated.auto_refresh_interval, 5);
    assert_eq!(updated.last_username, "admin");
    assert!(config_with_api_url(None, "https://new.test").is_none());
}

#[test]
fn window_state_compares_by_fields() {
    let a = WindowState { x: -3, y: 8, width: 800, height: 600, maximized: false };
    let b = WindowState { x: -3, y: 8, width: 800, height: 600, maximized: false };
    let c = WindowState { maximized: true, ..b };
    assert_eq!(a, b);
    assert_ne!(a, c);
}

#[test]
fn version_info_holds_its_fields() {
    let v = AppVersionInfo {
        version: String::from("1.2.3"),
        name: String::from("jamrock-admin"),
        os: String::from("linux"),
        arch: String::from("x86_64"),
    };
    assert_eq!(v.version, "1.2.3");
    assert_eq!(v.arch, "x86_64");
}

#[test]
fn csv_bytes_start_with_the_utf8_bom() {
    let bytes = csv_file_bytes("a,b\n1,2\n");
    assert_eq!(&bytes[..3], &[0xef, 0xbb, 0xbf]);
    assert_eq!(&bytes[3..], b"a,b\n1,2\n");
    let empty = csv_file_bytes("");
    assert_eq!(empty, vec![0xef, 0xbb, 0xbf]);
}

#[test]
fn decimal_rendering_exact_values() {
    assert_eq!(u64_dec_string(0), "0");
    assert_eq!(u64_dec_string(7), "7");
    assert_eq!(u64_dec_string(10), "10");
    assert_eq!(u64_dec_string(95), "95");
    assert_eq!(u64_dec_string(10_485_760), "10485760");
    assert_eq!(u64_dec_string(u64::MAX), "18446744073709551615");
}
