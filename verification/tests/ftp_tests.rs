use phantomftp::ftp::{
    after_session_stage, build_listing, connection_address, parse_ftp_listing, tls_hostname, tls_target,
    FtpManager, FtpManagerError, ProtocolType, SessionNext, SessionStage,
};

fn manager_at(path: &str) -> FtpManager {
    let mut m: FtpManager = FtpManager::new();
    m.set_current_path(path.to_string());
    m
}

#[test]
fn test_parse_unix_directory() {
    let m = manager_at("/home");
    let file = m
        .parse_unix_listing("drwxr-xr-x   2 user group  4096 Jan 01 12:00 Documents")
        .unwrap();
    assert!(file.is_dir);
    assert_eq!(file.name, "Documents");
    assert_eq!(file.path, "/home/Documents");
    assert_eq!(file.size, Some(4096));
}

#[test]
fn test_parse_unix_file() {
    let m = manager_at("/var/www");
    let file = m
        .parse_unix_listing("-rw-r--r--   1 user group  12345 Mar 15 09:30 index.html")
        .unwrap();
    assert!(!file.is_dir);
    assert_eq!(file.name, "index.html");
    assert_eq!(file.path, "/var/www/index.html");
    assert_eq!(file.size, Some(12345));
}

#[test]
fn test_parse_unix_filename_with_spaces() {
    let m = manager_at("/");
    let file = m
        .parse_unix_listing("-rw-r--r--   1 user group  100 Jan 01 00:00 my cool file.txt")
        .unwrap();
    assert_eq!(file.name, "my cool file.txt");
}

#[test]
fn test_parse_unix_skips_dot_entries() {
    let m = manager_at("/");
    assert!(m
        .parse_unix_listing("drwxr-xr-x   2 user group  4096 Jan 01 12:00 .")
        .is_none());
    assert!(m
        .parse_unix_listing("drwxr-xr-x   2 user group  4096 Jan 01 12:00 ..")
        .is_none());
}

#[test]
fn test_parse_dos_directory() {
    let m = manager_at("/");
    let file = m
        .parse_dos_listing("01-15-26  03:30PM       <DIR>          Photos")
        .unwrap();
    assert!(file.is_dir);
    assert_eq!(file.name, "Photos");
    assert_eq!(file.size, Some(0));
}

#[test]
fn test_parse_dos_file() {
    let m = manager_at("/data");
    let file = m
        .parse_dos_listing("01-15-26  03:30PM              54321 report.pdf")
        .unwrap();
    assert!(!file.is_dir);
    assert_eq!(file.name, "report.pdf");
    assert_eq!(file.path, "/data/report.pdf");
    assert_eq!(file.size, Some(54321));
}

#[test]
fn test_parse_dos_skips_dot_entries() {
    let m = manager_at("/");
    assert!(m
        .parse_dos_listing("01-01-25  12:00PM       <DIR>          ..")
        .is_none());
}

#[test]
fn test_trailing_slash_path() {
    let m = manager_at("/home/");
    let file = m
        .parse_unix_listing("-rw-r--r--   1 user group  0 Jan 01 00:00 test.txt")
        .unwrap();
    assert_eq!(file.path, "/home/test.txt");
}

#[test]
fn test_cancellation_flag() {
    let m: FtpManager = FtpManager::new();
    assert!(!m.is_cancelled());
    m.cancel();
    assert!(m.is_cancelled());
    m.reset_cancel();
    assert!(!m.is_cancelled());
}

#[test]
fn unix_fields_modified_and_permissions() {
    let m = manager_at("/pub");
    let file = m
        .parse_unix_listing("lrwxrwxrwx 1 ftp ftp 7 Feb 29 2024 latest -> v1.2.3")
        .unwrap();
    assert_eq!(file.name, "latest -> v1.2.3");
    assert_eq!(file.modified, Some("Feb 29 2024".to_string()));
    assert_eq!(file.permissions, Some("lrwxrwxrwx".to_string()));
    assert_eq!(file.size, Some(7));
    assert!(!file.is_dir);
}

#[test]
fn unreadable_size_is_zero() {
    let m = manager_at("/");
    let file = m
        .parse_unix_listing("-rw-r--r-- 1 u g 99999999999999999999 Jan 01 00:00 huge.bin")
        .unwrap();
    assert_eq!(file.size, Some(0));
    let plus = m
        .parse_unix_listing("-rw-r--r-- 1 u g +12 Jan 01 00:00 plus.bin")
        .unwrap();
    assert_eq!(plus.size, Some(12));
}

#[test]
fn dos_modified_and_no_permissions() {
    let file = parse_ftp_listing("/", "01-15-26  03:30PM  <DIR>  My Photos").unwrap();
    assert_eq!(file.name, "My Photos");
    assert_eq!(file.modified, Some("01-15-26 03:30PM".to_string()));
    assert_eq!(file.permissions, None);
    assert_eq!(file.path, "/My Photos");
}

#[test]
fn unparsable_line_is_an_error() {
    let err = parse_ftp_listing("/", "total 12").unwrap_err();
    assert_eq!(err, "Could not parse listing: total 12");
    assert!(parse_ftp_listing("/", "").is_err());
}

#[test]
fn unix_dot_lines_give_no_entry() {
    assert!(parse_ftp_listing("/", "drwxr-xr-x 2 user group 4096 Jan 01 12:00 .").is_err());
    assert!(parse_ftp_listing("/", "drwxr-xr-x   2 user group  4096 Jan 01 12:00 ..").is_err());
    let m = manager_at("/");
    assert!(m.parse_ftp_listing("drwxr-xr-x   2 user group  4096 Jan 01 12:00 ..").is_err());
    let lines = vec![
        "drwxr-xr-x 2 user group 4096 Jan 01 12:00 .".to_string(),
        "drwxr-xr-x 2 user group 4096 Jan 01 12:00 ..".to_string(),
        "-rw-r--r-- 1 user group 7 Jan 01 12:00 a.txt".to_string(),
    ];
    let listed = build_listing("/", &lines);
    assert_eq!(listed.len(), 1);
    assert_eq!(listed[0].name, "a.txt");
    // A DOS line is still read as DOS.
    let f = parse_ftp_listing("/", "01-15-26  03:30PM  12 my report.pdf").unwrap();
    assert_eq!(f.name, "my report.pdf");
    assert_eq!(f.size, Some(12));
}

#[test]
fn tabs_and_unicode_spaces_separate_words() {
    let m = manager_at("/");
    let file = m
        .parse_unix_listing("-rw-r--r--\t1 u g\u{3000}5 Jan 01 00:00 a\u{a0}b")
        .unwrap();
    assert_eq!(file.name, "a b");
    assert_eq!(file.size, Some(5));
}

#[test]
fn listing_sorts_directories_first_then_lowercase_names() {
    let lines = vec![
        "-rw-r--r-- 1 u g 1 Jan 01 00:00 beta.txt".to_string(),
        "drwxr-xr-x 2 u g 4096 Jan 01 00:00 Zeta".to_string(),
        "total 8".to_string(),
        "-rw-r--r-- 1 u g 1 Jan 01 00:00 Alpha.txt".to_string(),
        "drwxr-xr-x 2 u g 4096 Jan 01 00:00 ..".to_string(),
        "drwxr-xr-x 2 u g 4096 Jan 01 00:00 apps".to_string(),
    ];
    let files = build_listing("/srv", &lines);
    let names: Vec<&str> = files.iter().map(|f| f.name.as_str()).collect();
    assert_eq!(
        names,
        vec!["apps", "Zeta", "Alpha.txt", "beta.txt"]
    );
    assert_eq!(files[0].path, "/srv/apps");
}

#[test]
fn listing_compares_names_in_lowercase() {
    let lines = vec![
        "-rw-r--r-- 1 u g 1 Jan 01 00:00 B".to_string(),
        "-rw-r--r-- 1 u g 1 Jan 01 00:00 a".to_string(),
    ];
    let files = build_listing("/", &lines);
    assert_eq!(files[0].name, "a");
    assert_eq!(files[1].name, "B");
}

#[test]
fn listing_keeps_equal_names_in_order() {
    let lines = vec![
        "-rw-r--r-- 1 u g 1 Jan 01 00:00 readme".to_string(),
        "-rw-r--r-- 1 u g 2 Jan 01 00:00 README".to_string(),
        "-rw-r--r-- 1 u g 3 Jan 01 00:00 ReadMe".to_string(),
    ];
    let files = build_listing("/", &lines);
    let sizes: Vec<Option<u64>> = files.iter().map(|f| f.size).collect();
    assert_eq!(sizes, vec![Some(1), Some(2), Some(3)]);
}

#[test]
fn addresses_and_tls_host_names() {
    assert_eq!(connection_address("ftp.example.com"), "ftp.example.com:21");
    assert_eq!(connection_address("ftp.example.com:990"), "ftp.example.com:990");
    assert_eq!(tls_hostname("ftp.example.com:990"), "ftp.example.com");
    assert_eq!(tls_hostname("ftp.example.com"), "ftp.example.com");
    assert_eq!(tls_hostname(":21"), "");
}

#[test]
fn session_state_follows_connect_login_and_disconnect() {
    let mut m: FtpManager<u8> = FtpManager::new();
    assert!(!m.is_connected());
    assert_eq!(m.current_path(), "/");
    assert!(matches!(m.begin_login("bob"), Err(FtpManagerError::NotConnected)));
    assert_eq!(m.username(), Some("bob"));
    let address = m.begin_connect("ftp.example.com", ProtocolType::Ftps);
    assert_eq!(address, "ftp.example.com:21");
    assert_eq!(m.server_name(), Some("ftp.example.com"));
    assert_eq!(*m.protocol(), ProtocolType::Ftps);
    m.attach(7);
    assert!(m.is_connected());
    assert!(m.begin_login("alice").is_ok());
    assert!(m.require_connection().is_ok());
    m.set_current_path("/home/alice".to_string());
    assert_eq!(m.current_path(), "/home/alice");
    assert_eq!(m.disconnect(), Some(7));
    assert!(!m.is_connected());
    assert_eq!(m.current_path(), "/");
    assert_eq!(m.server_name(), None);
    assert_eq!(m.username(), None);
    assert_eq!(*m.protocol(), ProtocolType::Ftps);
    assert!(matches!(m.require_connection(), Err(FtpManagerError::NotConnected)));
}

#[test]
fn manager_listing_uses_the_current_path() {
    let m = manager_at("/pub");
    let files = m.listing(&vec!["-rw-r--r-- 1 u g 1 Jan 01 00:00 f".to_string()]);
    assert_eq!(files[0].path, "/pub/f");
}

#[test]
fn protocol_default_is_plain_ftp() {
    assert_eq!(ProtocolType::default(), ProtocolType::Ftp);
}

#[test]
fn session_stages_run_in_order() {
    assert!(matches!(after_session_stage(SessionStage::Dial, true, ""), SessionNext::Next(SessionStage::Login)));
    assert!(matches!(after_session_stage(SessionStage::Login, true, ""), SessionNext::Next(SessionStage::List)));
    assert!(matches!(after_session_stage(SessionStage::List, true, ""), SessionNext::Connected));
    match after_session_stage(SessionStage::Login, false, "AuthFailed") {
        SessionNext::Failed(m) => assert_eq!(m, "Connection failed: AuthFailed"),
        other => panic!("failure expected, got {:?}", other),
    }
    match after_session_stage(SessionStage::List, false, "x") {
        SessionNext::Failed(m) => assert_eq!(m, "Failed to list files: x"),
        other => panic!("failure expected, got {:?}", other),
    }
}

#[test]
fn dialing_with_or_without_tls() {
    assert_eq!(tls_target("ftp.example.com:990", ProtocolType::Ftps), Some("ftp.example.com".to_string()));
    assert_eq!(tls_target("ftp.example.com:21", ProtocolType::Ftp), None);
}
