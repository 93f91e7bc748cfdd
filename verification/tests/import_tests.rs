use phantomftp::config::{Config, ServerConfig};
use phantomftp::ftp::ProtocolType;
use phantomftp::import::{import_aeroftp_servers, protocol_from_name, AeroFtpServer};

/// The profiles of an AeroFTP export, read with the export format's
/// defaults (empty strings, port 21).
fn profiles(json: &str) -> Vec<AeroFtpServer> {
    let value: serde_json::Value = serde_json::from_str(json).unwrap();
    let text = |p: &serde_json::Value, key: &str| {
        p.get(key).and_then(|x| x.as_str()).unwrap_or("").to_string()
    };
    value
        .as_array()
        .unwrap()
        .iter()
        .map(|p| AeroFtpServer {
            name: text(p, "name"),
            host: text(p, "host"),
            port: p.get("port").and_then(|x| x.as_u64()).map(|x| x as u16).unwrap_or(21),
            username: text(p, "username"),
            protocol: text(p, "protocol"),
            initial_path: p.get("initialPath").and_then(|x| x.as_str()).map(|x| x.to_string()),
        })
        .collect()
}

fn new_config() -> Config {
    Config::new("/home/user/Downloads".to_string())
}

#[test]
fn test_import_ftp_servers() {
    let json = r#"[
        {"name": "My FTP", "host": "ftp.example.com", "port": 21, "username": "user", "protocol": "ftp"},
        {"name": "Secure", "host": "ftps.example.com", "port": 990, "username": "admin", "protocol": "ftps"}
    ]"#;

    let mut config = new_config();

    let count = import_aeroftp_servers(profiles(json), &mut config);
    assert_eq!(count, 2);
    assert_eq!(config.servers.len(), 2);

    assert_eq!(config.servers[0].name, "My FTP");
    assert_eq!(config.servers[0].protocol, ProtocolType::Ftp);
    assert!(!config.servers[0].use_tls);

    assert_eq!(config.servers[1].name, "Secure");
    assert_eq!(config.servers[1].protocol, ProtocolType::Ftps);
    assert!(config.servers[1].use_tls);
    assert_eq!(config.servers[1].port, 990);
}

#[test]
fn test_skips_unsupported_protocols() {
    let json = r#"[
        {"name": "FTP", "host": "ftp.test.com", "port": 21, "username": "u", "protocol": "ftp"},
        {"name": "SSH", "host": "ssh.test.com", "port": 22, "username": "u", "protocol": "sftp"},
        {"name": "S3", "host": "s3.test.com", "port": 443, "username": "key", "protocol": "s3"},
        {"name": "WebDAV", "host": "dav.test.com", "port": 443, "username": "u", "protocol": "webdav"}
    ]"#;

    let mut config = new_config();

    let count = import_aeroftp_servers(profiles(json), &mut config);
    assert_eq!(count, 1);
    assert_eq!(config.servers[0].name, "FTP");
}

#[test]
fn test_skips_duplicates() {
    let json = r#"[
        {"name": "Server", "host": "ftp.test.com", "port": 21, "username": "user", "protocol": "ftp"}
    ]"#;

    let mut config = new_config();
    config.add_server(ServerConfig::new(
        "Existing".to_string(),
        "ftp.test.com".to_string(),
        "user".to_string(),
    ));

    let count = import_aeroftp_servers(profiles(json), &mut config);
    assert_eq!(count, 0);
    assert_eq!(config.servers.len(), 1);
}

#[test]
fn test_empty_name_uses_host() {
    let json = r#"[
        {"name": "", "host": "ftp.noname.com", "port": 21, "username": "u", "protocol": "ftp"}
    ]"#;

    let mut config = new_config();

    import_aeroftp_servers(profiles(json), &mut config);
    assert_eq!(config.servers[0].name, "ftp.noname.com");
}

#[test]
fn test_empty_array() {
    let mut config = new_config();
    let count = import_aeroftp_servers(profiles("[]"), &mut config);
    assert_eq!(count, 0);
}

#[test]
fn imported_servers_get_fixed_settings() {
    let json = r#"[
        {"name": "S", "host": "secure.example", "port": 0, "username": "u", "protocol": "FTPS"}
    ]"#;
    let mut config = new_config();
    assert_eq!(import_aeroftp_servers(profiles(json), &mut config), 1);
    let s = &config.servers[0];
    assert_eq!(s.port, 21);
    assert_eq!(s.protocol, ProtocolType::Ftps);
    assert_eq!(s.tls_hostname, Some("secure.example".to_string()));
    assert!(s.passive_mode);
    assert_eq!(s.timeout, 30);
    assert!(s.password.is_none());
}

#[test]
fn duplicates_within_one_export_are_skipped() {
    let json = r#"[
        {"name": "One", "host": "h", "port": 21, "username": "u", "protocol": "ftp"},
        {"name": "Two", "host": "h", "port": 21, "username": "u", "protocol": "ftps"},
        {"name": "Three", "host": "h", "port": 2121, "username": "u", "protocol": "ftp"}
    ]"#;
    let mut config = new_config();
    assert_eq!(import_aeroftp_servers(profiles(json), &mut config), 2);
    assert_eq!(config.servers[0].name, "One");
    assert_eq!(config.servers[1].name, "Three");
}

#[test]
fn importing_twice_adds_nothing_the_second_time() {
    let json = r#"[
        {"name": "A", "host": "a", "port": 21, "username": "u", "protocol": "ftp"},
        {"name": "B", "host": "b", "port": 990, "username": "u", "protocol": "ftps"},
        {"name": "C", "host": "c", "port": 22, "username": "u", "protocol": "sftp"}
    ]"#;
    let mut config = new_config();
    assert_eq!(import_aeroftp_servers(profiles(json), &mut config), 2);
    assert_eq!(import_aeroftp_servers(profiles(json), &mut config), 0);
    assert_eq!(config.servers.len(), 2);
}

#[test]
fn a_port_zero_profile_is_imported_again() {
    let json = r#"[
        {"name": "Z", "host": "z", "port": 0, "username": "u", "protocol": "ftp"}
    ]"#;
    let mut config = new_config();
    assert_eq!(import_aeroftp_servers(profiles(json), &mut config), 1);
    assert_eq!(import_aeroftp_servers(profiles(json), &mut config), 1);
    assert_eq!(config.servers.len(), 2);
}

#[test]
fn protocol_names_ignore_case() {
    assert_eq!(protocol_from_name("FTP"), Some(ProtocolType::Ftp));
    assert_eq!(protocol_from_name("FtPs"), Some(ProtocolType::Ftps));
    assert_eq!(protocol_from_name("sftp"), None);
    assert_eq!(protocol_from_name(" ftp"), None);
}
