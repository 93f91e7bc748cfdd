use phantomftp::app::{Action, App, AppEvent, DirEntryInfo, KeyCode, KeyInput, KeyRoute, LocalFile, LocalRefresh};
use phantomftp::ftp::{ProtocolType, RemoteFile, TransferProgress};

fn key(code: KeyCode) -> AppEvent {
    AppEvent::Key(KeyInput { code, control: false })
}

fn ch(c: char) -> AppEvent {
    key(KeyCode::Char(c))
}

fn ctrl(c: char) -> AppEvent {
    AppEvent::Key(KeyInput { code: KeyCode::Char(c), control: true })
}

fn remote(name: &str, is_dir: bool) -> RemoteFile {
    RemoteFile {
        name: name.to_string(),
        path: format!("/srv/{}", name),
        size: if is_dir { Some(0) } else { Some(10) },
        is_dir,
        modified: None,
        permissions: None,
    }
}

fn entry(name: &str, is_dir: bool) -> DirEntryInfo {
    DirEntryInfo {
        name: name.to_string(),
        path: format!("/home/me/{}", name),
        is_dir,
        is_file: !is_dir,
        len: 5,
    }
}

#[test]
fn starts_disconnected_with_a_welcome() {
    let app = App::new("/home/me".to_string());
    assert!(!app.is_connected());
    assert_eq!(app.status_message, "Welcome! Press 'c' to connect.");
    assert_eq!(app.current_local_path(), "/home/me");
    assert_eq!(app.current_remote_path(), "/");
    assert!(app.local_focused);
    assert!(!app.is_remote_focused());
    assert!(app.can_quit());
}

#[test]
fn connecting_through_the_dialog() {
    let mut app = App::new("/home/me".to_string());
    assert!(matches!(app.handle_event(ch('c')), Action::Nothing));
    assert!(app.show_connection_dialog());
    assert!(!app.can_quit());
    for c in "ftp.example.com:21".chars() {
        app.handle_event(ch(c));
    }
    app.handle_event(key(KeyCode::Enter));
    assert!(app.show_connection_dialog(), "incomplete dialog stays open");
    app.handle_event(key(KeyCode::Tab));
    app.handle_event(ch('u'));
    app.handle_event(key(KeyCode::Down));
    app.handle_event(ch('p'));
    app.handle_event(ch('w'));
    app.handle_event(key(KeyCode::Down));
    assert_eq!(app.connection_dialog().selected_field(), 3);
    app.handle_event(key(KeyCode::Up));
    assert_eq!(*app.connection_dialog().protocol(), ProtocolType::Ftps);
    match app.handle_event(key(KeyCode::Enter)) {
        Action::Connect { server, username, password, protocol } => {
            assert_eq!(server, "ftp.example.com:21");
            assert_eq!(username, "u");
            assert_eq!(password, "pw");
            assert_eq!(protocol, ProtocolType::Ftps);
        }
        other => panic!("expected a connection, got {:?}", other),
    }
    assert!(!app.show_connection_dialog());
    assert_eq!(app.status_message, "Connecting to ftp.example.com:21...");
}

#[test]
fn space_only_toggles_tls_on_the_protocol_field() {
    let mut app = App::new("/".to_string());
    app.handle_event(ch('c'));
    app.handle_event(ch(' '));
    assert_eq!(app.connection_dialog().server(), "");
    for _ in 0..3 {
        app.handle_event(key(KeyCode::Tab));
    }
    app.handle_event(ch(' '));
    assert!(app.connection_dialog().use_tls());
    app.handle_event(key(KeyCode::Esc));
    assert!(!app.show_connection_dialog());
}

#[test]
fn ftp_events_update_the_state() {
    let mut app = App::new("/home/me".to_string());
    app.handle_event(AppEvent::FtpConnected);
    assert!(app.is_connected());
    assert_eq!(app.status_message, "Connected");
    app.handle_event(AppEvent::FtpFilesListed(vec![remote("docs", true), remote("a.txt", false)]));
    assert_eq!(app.status_message, "2 items");
    assert_eq!(app.selected_remote_file(), Some(0));
    assert_eq!(app.remote_list_state.selected(), Some(0));
    app.handle_event(AppEvent::FtpPathChanged("/srv".to_string()));
    assert_eq!(app.current_remote_path(), "/srv");
    assert_eq!(app.status_message, "Entered: /srv");
    app.handle_event(AppEvent::FtpFilesListed(vec![]));
    assert_eq!(app.selected_remote_file(), None);
    assert_eq!(app.status_message, "0 items");
    app.handle_event(AppEvent::FtpError("boom".to_string()));
    assert_eq!(app.error_message, Some("boom".to_string()));
    assert_eq!(app.status_message, "boom");
    app.handle_event(AppEvent::FtpConnected);
    assert_eq!(app.error_message, None);
    app.handle_event(AppEvent::FtpDisconnected);
    assert!(!app.is_connected());
    assert!(app.remote_files().is_empty());
    assert_eq!(app.status_message, "Disconnected");
}

#[test]
fn transfer_events() {
    let mut app = App::new("/".to_string());
    app.handle_event(AppEvent::TransferProgress(TransferProgress {
        filename: "big.iso".to_string(),
        total_bytes: 200,
        transferred_bytes: 50,
        percentage: 25,
    }));
    assert_eq!(app.status_message, "Transferring big.iso: 25%");
    assert!(app.download_in_progress);
    assert_eq!(app.transfer_progress.as_ref().unwrap().transferred_bytes, 50);
    app.handle_event(AppEvent::TransferCompleted("Downloaded: /big.iso".to_string()));
    assert_eq!(app.status_message, "✓ Transfer completed: Downloaded: /big.iso");
    assert!(!app.download_in_progress);
    assert!(app.transfer_progress.is_none());
}

#[test]
fn control_c_cancels_a_running_transfer() {
    let mut app = App::new("/".to_string());
    app.upload_in_progress = true;
    assert!(matches!(app.handle_event(ctrl('c')), Action::CancelTransfer));
    assert!(app.transfer_cancelled);
    assert!(!app.upload_in_progress);
    assert_eq!(app.status_message, "Transfer cancelled");
    assert!(!app.show_connection_dialog());
}

#[test]
fn remote_navigation() {
    let mut app = App::new("/home/me".to_string());
    app.handle_event(AppEvent::FtpConnected);
    app.handle_event(AppEvent::FtpFilesListed(vec![remote("docs", true), remote("a.txt", false)]));
    app.handle_event(key(KeyCode::Tab));
    assert!(app.is_remote_focused());
    assert_eq!(app.status_message, "Focus: Remote Files");
    match app.handle_event(key(KeyCode::Enter)) {
        Action::ChangeRemoteDir(name) => assert_eq!(name, "docs"),
        other => panic!("{:?}", other),
    }
    assert_eq!(app.status_message, "Entering directory: docs");
    app.handle_event(key(KeyCode::Down));
    app.handle_event(key(KeyCode::Down));
    assert_eq!(app.selected_remote_file(), Some(1));
    match app.handle_event(key(KeyCode::Enter)) {
        Action::Download { remote_path, local_path } => {
            assert_eq!(remote_path, "/srv/a.txt");
            assert_eq!(local_path, "/home/me/a.txt");
        }
        other => panic!("{:?}", other),
    }
    assert!(app.download_in_progress);
    assert_eq!(app.status_message, "Downloading: /srv/a.txt");
    app.handle_event(key(KeyCode::Up));
    app.handle_event(key(KeyCode::Up));
    assert_eq!(app.selected_remote_file(), Some(0));
    assert!(matches!(app.handle_event(key(KeyCode::Backspace)), Action::GoUpRemote));
    assert_eq!(app.status_message, "Going to parent directory...");
    assert!(matches!(app.handle_event(ch('r')), Action::RefreshRemote));
    assert_eq!(app.status_message, "Refreshing...");
    app.handle_event(key(KeyCode::Tab));
    assert_eq!(app.status_message, "Focus: Local Files (/home/me)");
}

#[test]
fn local_listing_and_navigation() {
    let mut app = App::new("/home/me".to_string());
    match app.handle_event(ch('l')) {
        Action::ReadLocalDir { path, reason } => {
            assert_eq!(path, "/home/me");
            assert_eq!(reason, LocalRefresh::Manual);
        }
        other => panic!("{:?}", other),
    }
    app.finish_local_refresh(
        "/home/me".to_string(),
        vec![
            entry("notes.txt", false),
            entry(".bashrc", false),
            entry("Music", true),
            entry("apps", true),
            entry("Zed.md", false),
        ],
        LocalRefresh::Manual,
    );
    let names: Vec<&str> = app.local_files.iter().map(|f| f.name.as_str()).collect();
    assert_eq!(names, vec!["..", "apps", "Music", "notes.txt", "Zed.md"]);
    assert_eq!(app.status_message, "Refreshed local: 5 files");
    assert_eq!(app.selected_local_file(), Some(0));
    assert_eq!(app.local_files[0].path, "/home");
    assert_eq!(app.local_files[3].size, Some(5));
    assert_eq!(app.local_files[1].size, None);

    app.handle_event(key(KeyCode::Down));
    match app.handle_event(key(KeyCode::Enter)) {
        Action::ReadLocalDir { path, reason } => {
            assert_eq!(path, "/home/me/apps");
            assert_eq!(reason, LocalRefresh::Entered);
        }
        other => panic!("{:?}", other),
    }
    assert_eq!(app.current_local_path(), "/home/me/apps");
    app.finish_local_refresh("/home/me/apps".to_string(), vec![], LocalRefresh::Entered);
    assert_eq!(app.status_message, "Entered: /home/me/apps");
    assert_eq!(app.local_files.len(), 1);
    assert_eq!(app.local_files[0].path, "/home/me");
    match app.handle_event(key(KeyCode::Backspace)) {
        Action::ReadLocalDir { path, reason } => {
            assert_eq!(path, "/home/me");
            assert_eq!(reason, LocalRefresh::Parent);
        }
        other => panic!("{:?}", other),
    }
    assert_eq!(app.current_local_path(), "/home/me");
    app.finish_local_refresh("/home/me".to_string(), vec![], LocalRefresh::Parent);
    assert_eq!(app.status_message, "Local: /home/me");
}

#[test]
fn backspace_at_the_root_does_nothing() {
    let mut app = App::new("/".to_string());
    assert!(matches!(app.handle_event(key(KeyCode::Backspace)), Action::Nothing));
    assert_eq!(app.current_local_path(), "/");
    app.refresh_local_files(vec![entry("etc", true)]);
    assert_eq!(app.local_files.len(), 1);
    assert_eq!(app.local_files[0].name, "etc");
}

#[test]
fn local_enter_on_files() {
    let mut app = App::new("/".to_string());
    app.handle_event(key(KeyCode::Enter));
    assert_eq!(app.status_message, "No file selected");
    app.refresh_local_files(vec![entry("a.txt", false)]);
    app.handle_event(key(KeyCode::Enter));
    assert_eq!(app.status_message, "Selected file: a.txt (not a dir)");
    app.handle_event(AppEvent::FtpConnected);
    match app.handle_event(key(KeyCode::Enter)) {
        Action::Upload { local_path, remote_name } => {
            assert_eq!(local_path, "/home/me/a.txt");
            assert_eq!(remote_name, "a.txt");
        }
        other => panic!("{:?}", other),
    }
    assert!(app.upload_in_progress);
    assert_eq!(app.status_message, "Uploading: a.txt");
    app.selected_local_file = Some(7);
    app.handle_event(key(KeyCode::Enter));
    assert_eq!(app.status_message, "No file at index 7");
}

#[test]
fn help_preview_and_escape() {
    let mut app = App::new("/".to_string());
    app.handle_event(ch('h'));
    assert!(app.show_help);
    app.handle_event(ch('H'));
    assert!(!app.show_help);
    assert!(matches!(app.handle_event(ch('p')), Action::Nothing), "nothing to preview");
    assert_eq!(app.status_message, "Welcome! Press 'c' to connect.");
    app.handle_event(AppEvent::FilePreview("a.txt".to_string(), "hello".to_string()));
    assert!(app.show_preview);
    assert_eq!(app.preview_content, Some("hello".to_string()));
    app.handle_event(ch('h'));
    app.handle_event(key(KeyCode::Esc));
    assert!(!app.show_preview);
    assert!(app.preview_file.is_none());
    assert!(app.show_help);
    app.handle_event(key(KeyCode::Esc));
    assert!(!app.show_help);
    app.handle_event(AppEvent::StatusMessage("note".to_string()));
    assert_eq!(app.status_message, "note");
}

#[test]
fn keys_that_need_a_connection_do_nothing_offline() {
    let mut app = App::new("/".to_string());
    assert!(matches!(app.handle_event(ch('r')), Action::Nothing));
    app.handle_event(ch('u'));
    assert_eq!(app.status_message, "Welcome! Press 'c' to connect.");
    app.handle_event(AppEvent::FtpConnected);
    app.handle_event(ch('u'));
    assert_eq!(app.status_message, "To upload a file, select it in the local panel and press Enter");
    assert!(matches!(app.handle_event(ch('c')), Action::Nothing));
    assert!(!app.show_connection_dialog());
}

#[test]
fn local_file_copies() {
    let f = LocalFile { name: "n".to_string(), path: "/n".to_string(), size: Some(1), is_dir: false };
    let g = f.duplicate();
    assert_eq!(g.path, "/n");
}

#[test]
fn p_previews_the_selected_remote_file() {
    let mut app = App::new("/home/me".to_string());
    app.handle_event(AppEvent::FtpConnected);
    app.handle_event(AppEvent::FtpFilesListed(vec![remote("docs", true), remote("a.txt", false)]));
    app.handle_event(ch('p'));
    assert_eq!(app.status_message, "2 items", "local panel focused: nothing happens");
    app.handle_event(key(KeyCode::Tab));
    assert!(matches!(app.handle_event(ch('p')), Action::Nothing), "a directory is not previewed");
    app.handle_event(key(KeyCode::Down));
    match app.handle_event(ch('P')) {
        Action::Preview { remote_path, file_name } => {
            assert_eq!(remote_path, "/srv/a.txt");
            assert_eq!(file_name, "a.txt");
        }
        other => panic!("expected a preview, got {:?}", other),
    }
    assert_eq!(app.status_message, "Loading preview for: a.txt");
}

#[test]
fn space_marks_and_unmarks_the_selected_entry() {
    let mut app = App::new("/".to_string());
    app.handle_event(AppEvent::FtpConnected);
    app.handle_event(AppEvent::FtpFilesListed(vec![remote("docs", true), remote("a.txt", false)]));
    app.refresh_local_files(vec![entry("notes.md", false)]);
    assert!(matches!(app.handle_event(ch(' ')), Action::Nothing));
    assert!(app.is_marked_local("/home/me/notes.md"));
    assert!(!app.is_marked_remote("/srv/docs"));
    app.handle_event(key(KeyCode::Tab));
    app.handle_event(key(KeyCode::Down));
    app.handle_event(ch(' '));
    assert!(app.is_marked_remote("/srv/a.txt"));
    assert!(!app.is_marked_remote("/srv/docs"));
    app.handle_event(ch(' '));
    assert!(!app.is_marked_remote("/srv/a.txt"));
    assert!(app.is_marked_local("/home/me/notes.md"));
    assert_eq!(app.selected_remote_file, Some(1));
    assert_eq!(app.remote_files.len(), 2);
}

#[test]
fn space_without_a_selection_does_nothing() {
    let mut app = App::new("/".to_string());
    app.handle_event(ch(' '));
    assert!(app.marked_local_files.is_empty());
    assert!(app.marked_remote_files.is_empty());
}

#[test]
fn keys_that_quit() {
    let mut app = App::new("/".to_string());
    assert_eq!(app.route_key(KeyInput { code: KeyCode::Char('q'), control: false }), KeyRoute::Quit);
    assert_eq!(app.route_key(KeyInput { code: KeyCode::Char('Q'), control: false }), KeyRoute::Quit);
    assert_eq!(app.route_key(KeyInput { code: KeyCode::Char('c'), control: true }), KeyRoute::Quit);
    assert_eq!(app.route_key(KeyInput { code: KeyCode::Esc, control: false }), KeyRoute::Quit);
    assert_eq!(app.route_key(KeyInput { code: KeyCode::Tab, control: false }), KeyRoute::Handle);
    assert_eq!(app.route_key(KeyInput { code: KeyCode::Char('c'), control: false }), KeyRoute::Handle);
    app.download_in_progress = true;
    assert_eq!(app.route_key(KeyInput { code: KeyCode::Char('c'), control: true }), KeyRoute::Handle);
    app.download_in_progress = false;
    app.handle_event(ch('c'));
    assert!(app.show_connection_dialog());
    assert_eq!(app.route_key(KeyInput { code: KeyCode::Char('q'), control: false }), KeyRoute::Ignore);
}

#[test]
fn esc_quits_from_the_main_screen() {
    let mut app = App::new("/".to_string());
    let esc = KeyInput { code: KeyCode::Esc, control: false };
    assert_eq!(app.route_key(esc), KeyRoute::Quit);
    app.show_help = true;
    assert_eq!(app.route_key(esc), KeyRoute::Handle);
    app.handle_event(AppEvent::Key(esc));
    assert!(!app.show_help);
    assert_eq!(app.route_key(esc), KeyRoute::Quit);
    app.handle_event(AppEvent::FilePreview("a".to_string(), "b".to_string()));
    assert_eq!(app.route_key(esc), KeyRoute::Handle);
    app.handle_event(ch('c'));
    app.handle_event(AppEvent::Key(esc));
    assert_eq!(app.route_key(esc), KeyRoute::Handle);
}
