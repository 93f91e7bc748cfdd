use phantomftp::config::{
    default_passive_mode, default_port, default_timeout, parse_color, AppSettings, Config,
    ServerConfig, ThemeColor, ThemeConfig,
};
use phantomftp::ftp::ProtocolType;

fn download_dir() -> String {
    "/home/user/Downloads".to_string()
}

#[test]
fn test_config_creation() {
    let config = Config::new(download_dir());
    assert!(config.servers.is_empty());
    assert!(config.default_local_path.is_some());
}

#[test]
fn test_server_config() {
    let server = ServerConfig::new(
        "Test".to_string(),
        "example.com".to_string(),
        "user".to_string(),
    );
    // Default port is 21, address() only appends if no colon present
    assert_eq!(server.address(), "example.com:21");

    let server_with_port = ServerConfig {
        port: 2121,
        ..server
    };
    assert_eq!(server_with_port.address(), "example.com:2121");
}

#[test]
fn test_theme_colors() {
    let theme = ThemeConfig::default();
    let colors = theme.apply_theme();
    assert_eq!(colors.len(), 8);
}

#[test]
fn theme_roles_and_default_colors() {
    let colors = ThemeConfig::default().apply_theme();
    let expected = [
        ("primary", ThemeColor::Blue),
        ("accent", ThemeColor::Yellow),
        ("background", ThemeColor::Black),
        ("text", ThemeColor::White),
        ("success", ThemeColor::Green),
        ("error", ThemeColor::Red),
        ("warning", ThemeColor::Yellow),
        ("info", ThemeColor::Cyan),
    ];
    for (i, (role, color)) in expected.iter().enumerate() {
        assert_eq!(colors[i].0, *role);
        assert_eq!(colors[i].1, *color);
    }
}

#[test]
fn color_names() {
    assert_eq!(parse_color(&Some("dark_gray".to_string())), ThemeColor::DarkGray);
    assert_eq!(parse_color(&Some("light_magenta".to_string())), ThemeColor::LightMagenta);
    assert_eq!(parse_color(&Some("Blue".to_string())), ThemeColor::White);
    assert_eq!(parse_color(&Some("purple".to_string())), ThemeColor::White);
    assert_eq!(parse_color(&None), ThemeColor::White);
}

#[test]
fn new_config_defaults() {
    let config = Config::new(download_dir());
    assert_eq!(config.default_local_path, Some(download_dir()));
    let theme = config.theme.unwrap();
    assert_eq!(theme.primary_color, Some("blue".to_string()));
    assert_eq!(theme.info_color, Some("cyan".to_string()));
    let settings = config.settings.unwrap();
    assert_eq!(settings.max_concurrent_transfers, Some(3));
    assert_eq!(settings.transfer_buffer_size, Some(8192));
    assert_eq!(settings.retry_attempts, Some(3));
    assert_eq!(settings.default_transfer_mode, Some("binary".to_string()));
    let defaults = AppSettings::default();
    assert_eq!(defaults.keep_alive_interval, Some(60));
    assert_eq!(defaults.retry_delay, Some(2));
    assert_eq!(defaults.show_hidden_files, Some(false));
}

#[test]
fn server_defaults() {
    assert_eq!(default_port(), 21);
    assert!(default_passive_mode());
    assert_eq!(default_timeout(), 30);
    let s = ServerConfig::default();
    assert_eq!(s.name, "New Server");
    assert_eq!(s.host, "localhost");
    assert_eq!(s.username, "anonymous");
    assert_eq!(s.protocol, ProtocolType::Ftp);
    assert!(!s.use_tls);
    assert!(!s.has_password());
}

#[test]
fn secure_server_and_display_name() {
    let s = ServerConfig::new_secure(
        "Work".to_string(),
        "ftp.work.org".to_string(),
        "me".to_string(),
        Some("ftp.work.org".to_string()),
    );
    assert_eq!(s.protocol, ProtocolType::Ftps);
    assert!(s.use_tls);
    assert_eq!(s.port, 21);
    assert_eq!(s.display_name(), "Work (Secure)");
    let plain = ServerConfig::new("Home".to_string(), "h".to_string(), "u".to_string());
    assert_eq!(plain.display_name(), "Home");
}

#[test]
fn address_keeps_a_given_port() {
    let s = ServerConfig::new("S".to_string(), "ftp.example.com:2121".to_string(), "u".to_string());
    assert_eq!(s.address(), "ftp.example.com:2121");
    let t = ServerConfig { port: 65535, ..ServerConfig::new("T".to_string(), "10.0.0.1".to_string(), "u".to_string()) };
    assert_eq!(t.address(), "10.0.0.1:65535");
}

#[test]
fn has_password_reports_a_set_password() {
    let mut s = ServerConfig::default();
    s.password = Some("secret".to_string());
    assert!(s.has_password());
}

#[test]
fn add_then_remove_gives_the_server_back() {
    let mut config = Config::new(download_dir());
    config.add_server(ServerConfig::new("A".to_string(), "a".to_string(), "u".to_string()));
    config.add_server(ServerConfig::new("B".to_string(), "b".to_string(), "u".to_string()));
    let removed = config.remove_server(1).unwrap();
    assert_eq!(removed.name, "B");
    assert_eq!(config.servers.len(), 1);
    assert!(config.remove_server(5).is_none());
    assert_eq!(config.servers.len(), 1);
}

#[test]
fn get_server_by_name_finds_the_first() {
    let mut config = Config::new(download_dir());
    config.add_server(ServerConfig::new("Dup".to_string(), "first".to_string(), "u".to_string()));
    config.add_server(ServerConfig::new("Dup".to_string(), "second".to_string(), "u".to_string()));
    assert_eq!(config.get_server_by_name("Dup").unwrap().host, "first");
    assert!(config.get_server_by_name("dup").is_none());
}

#[test]
fn default_local_path_falls_back() {
    let mut config = Config::new(download_dir());
    assert_eq!(config.get_default_local_path("./downloads"), "/home/user/Downloads");
    config.default_local_path = None;
    assert_eq!(config.get_default_local_path("./downloads"), "./downloads");
}
