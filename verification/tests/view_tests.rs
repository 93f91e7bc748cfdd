use phantomftp::app::App;
use phantomftp::config::ThemeColor;
use phantomftp::dialog::ConnectionDialog;
use phantomftp::ftp::TransferProgress;
use phantomftp::view::{
    centered_percentages, dialog_area, dialog_lines, local_panel_title, local_row_text,
    panel_border, preview_area, preview_body, preview_title, remote_panel_title,
    remote_row_text, row_look, status_bar, Area, RowLook, StatusMiddle,
};

#[test]
fn status_bar_when_idle() {
    let app = App::new("/home/me".to_string());
    let bar = status_bar(&app);
    assert_eq!(bar.connection, "\u{25CB} Disconnected");
    assert_eq!(bar.connection_color, ThemeColor::Red);
    assert_eq!(bar.right, "'h' for help");
    match bar.middle {
        StatusMiddle::Message { text, color, spinner } => {
            assert_eq!(text, "Welcome! Press 'c' to connect.");
            assert_eq!(color, ThemeColor::White);
            assert!(!spinner);
        }
        StatusMiddle::Gauge { .. } => panic!("no transfer is running"),
    }
}

#[test]
fn status_bar_during_a_download() {
    let mut app = App::new("/home/me".to_string());
    app.is_connected = true;
    app.download_in_progress = true;
    app.transfer_progress = Some(TransferProgress {
        filename: "a.txt".to_string(),
        total_bytes: 200,
        transferred_bytes: 50,
        percentage: 25,
    });
    let bar = status_bar(&app);
    assert_eq!(bar.connection, "\u{25CF} Connected");
    assert_eq!(bar.connection_color, ThemeColor::Green);
    assert_eq!(bar.right, "50 / 200 bytes");
    match bar.middle {
        StatusMiddle::Gauge { percent, label } => {
            assert_eq!(percent, 25);
            assert_eq!(label, "25%");
        }
        StatusMiddle::Message { .. } => panic!("a download with progress shows a gauge"),
    }
}

#[test]
fn status_bar_during_an_upload() {
    let mut app = App::new("/home/me".to_string());
    app.upload_in_progress = true;
    app.status_message = "Uploading x".to_string();
    let bar = status_bar(&app);
    assert_eq!(bar.right, "In progress...");
    match bar.middle {
        StatusMiddle::Message { text, color, spinner } => {
            assert_eq!(text, "Uploading x");
            assert_eq!(color, ThemeColor::Yellow);
            assert!(spinner);
        }
        StatusMiddle::Gauge { .. } => panic!("an upload shows a message"),
    }
}

#[test]
fn rows_of_the_panels() {
    assert_eq!(local_row_text(true, "docs", ""), "\u{1F4C1} docs");
    assert_eq!(local_row_text(false, "a.txt", "12 B"), "\u{1F4C4} a.txt (12 B)");
    assert_eq!(remote_row_text(false, "b.bin", Some("1.0 KB")), "\u{1F4C4} b.bin (1.0 KB)");
    assert_eq!(remote_row_text(true, "pub", None), "\u{1F4C1} pub (-)");
    assert_eq!(
        row_look(true, false, false),
        RowLook { color: ThemeColor::Blue, bold: true, highlighted: false }
    );
    assert_eq!(
        row_look(false, true, false),
        RowLook { color: ThemeColor::White, bold: false, highlighted: true }
    );
    assert_eq!(
        row_look(false, false, true),
        RowLook { color: ThemeColor::Yellow, bold: true, highlighted: false }
    );
    assert_eq!(panel_border(true), ThemeColor::Yellow);
    assert_eq!(panel_border(false), ThemeColor::Gray);
}

#[test]
fn titles_of_the_panels_and_preview() {
    let mut app = App::new("/home/me".to_string());
    assert_eq!(local_panel_title(&app), " \u{1F4BB} /home/me ");
    assert_eq!(remote_panel_title(&app), " \u{1F4C1} Remote Files (/) ");
    assert_eq!(preview_title(&app), " Preview ");
    assert_eq!(preview_body(&app), "No content available");
    app.preview_file = Some("notes.md".to_string());
    app.preview_content = Some("hello".to_string());
    assert_eq!(preview_title(&app), " Preview: notes.md ");
    assert_eq!(preview_body(&app), "hello");
}

#[test]
fn dialog_lines_mask_the_password_by_bytes() {
    let mut d = ConnectionDialog::new();
    for c in "host".chars() {
        d.input_char(c);
    }
    d.next_field();
    d.input_char('u');
    d.next_field();
    for c in "pé".chars() {
        d.input_char(c);
    }
    let lines = dialog_lines(&d);
    assert_eq!(
        lines,
        vec![
            "Server: host".to_string(),
            "Username: u".to_string(),
            "Password: ***".to_string(),
            "Protocol: FTP".to_string(),
        ]
    );
    d.cycle_protocol();
    assert_eq!(dialog_lines(&d)[3], "Protocol: FTPS (FTP over TLS)");
}

#[test]
fn popup_areas() {
    assert_eq!(dialog_area(100, 40), Area { x: 15, y: 13, width: 70, height: 14 });
    assert_eq!(dialog_area(50, 10), Area { x: 0, y: 0, width: 50, height: 10 });
    assert_eq!(preview_area(120, 50), Area { x: 20, y: 15, width: 80, height: 20 });
    assert_eq!(preview_area(40, 10), Area { x: 2, y: 2, width: 36, height: 6 });
    assert_eq!(preview_area(3, 2), Area { x: 1, y: 1, width: 0, height: 0 });
    assert_eq!(centered_percentages(70), (15, 70, 15));
    assert_eq!(centered_percentages(80), (10, 80, 10));
}
