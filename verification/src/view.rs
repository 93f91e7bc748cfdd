//! What the screen shows, decided from the client state: the status bar,
//! the rows of the file panels, the connection dialog's lines, titles and
//! popup sizes. Drawing them is left to the terminal library.

use vstd::prelude::*;
use crate::app::{App, AppView};
use crate::config::ThemeColor;
use crate::dialog::ConnectionDialog;
use crate::ftp::ProtocolType;
use crate::text::{concat2, concat3, decimal, push_decimal, push_str, string_push};
use vstd::utf8::encode_utf8;

verus! {

/// The middle of the status bar.
#[derive(Debug)]
pub enum StatusMiddle {
    /// A progress gauge at `percent`, labelled.
    Gauge { percent: u16, label: String },
    /// A message in `color`, followed by a spinner frame when `spinner`.
    Message { text: String, color: ThemeColor, spinner: bool },
}

/// The status bar: connection state, middle part, and the right-hand hint.
#[derive(Debug)]
pub struct StatusBar {
    pub connection: String,
    pub connection_color: ThemeColor,
    pub middle: StatusMiddle,
    pub right: String,
}

/// The middle of the status bar as values.
pub enum MiddleView {
    Gauge { percent: u16, label: Seq<char> },
    Message { text: Seq<char>, color: ThemeColor, spinner: bool },
}

/// The status bar as values.
pub struct StatusBarView {
    pub connection: Seq<char>,
    pub connection_color: ThemeColor,
    pub middle: MiddleView,
    pub right: Seq<char>,
}

impl View for StatusBar {
    type V = StatusBarView;

    open spec fn view(&self) -> StatusBarView {
        StatusBarView {
            connection: self.connection@,
            connection_color: self.connection_color,
            middle: match self.middle {
                StatusMiddle::Gauge { percent, label } => MiddleView::Gauge {
                    percent: percent,
                    label: label@,
                },
                StatusMiddle::Message { text, color, spinner } => MiddleView::Message {
                    text: text@,
                    color: color,
                    spinner: spinner,
                },
            },
            right: self.right@,
        }
    }
}

/// The status bar for the state `s`: connected or not; the progress of a
/// download (or its message while no progress has come), the message with
/// a spinner during an upload, or the plain message; and the bytes moved
/// during a transfer, or the help hint.
pub open spec fn status_bar_of(s: AppView) -> StatusBarView {
    StatusBarView {
        connection: if s.is_connected {
            "\u{25CF} Connected"@
        } else {
            "\u{25CB} Disconnected"@
        },
        connection_color: if s.is_connected {
            ThemeColor::Green
        } else {
            ThemeColor::Red
        },
        middle: if s.download_in_progress {
            match s.transfer_progress {
                Some(p) => MiddleView::Gauge {
                    percent: p.percentage as u16,
                    label: decimal(p.percentage as nat) + "%"@,
                },
                None => MiddleView::Message {
                    text: s.status_message,
                    color: ThemeColor::White,
                    spinner: false,
                },
            }
        } else if s.upload_in_progress {
            MiddleView::Message { text: s.status_message, color: ThemeColor::Yellow, spinner: true }
        } else {
            MiddleView::Message { text: s.status_message, color: ThemeColor::White, spinner: false }
        },
        right: if s.upload_in_progress || s.download_in_progress {
            match s.transfer_progress {
                Some(p) => decimal(p.transferred_bytes as nat) + " / "@ + decimal(
                    p.total_bytes as nat,
                ) + " bytes"@,
                None => "In progress..."@,
            }
        } else {
            "'h' for help"@
        },
    }
}

/// The status bar for the client's state.
pub fn status_bar(app: &App) -> (r: StatusBar)
    ensures
        r@ == status_bar_of(app@),
{
    let connected = app.is_connected;
    let connection = if connected {
        "\u{25CF} Connected".to_owned()
    } else {
        "\u{25CB} Disconnected".to_owned()
    };
    let connection_color = if connected {
        ThemeColor::Green
    } else {
        ThemeColor::Red
    };
    let middle = if app.download_in_progress {
        match &app.transfer_progress {
            Some(p) => {
                let mut label = String::new();
                push_decimal(&mut label, p.percentage as u64);
                push_str(&mut label, "%");
                assert(label@ =~= decimal(p.percentage as nat) + "%"@);
                StatusMiddle::Gauge { percent: p.percentage as u16, label }
            },
            None => StatusMiddle::Message {
                text: app.status_message.clone(),
                color: ThemeColor::White,
                spinner: false,
            },
        }
    } else if app.upload_in_progress {
        StatusMiddle::Message {
            text: app.status_message.clone(),
            color: ThemeColor::Yellow,
            spinner: true,
        }
    } else {
        StatusMiddle::Message {
            text: app.status_message.clone(),
            color: ThemeColor::White,
            spinner: false,
        }
    };
    let right = if app.upload_in_progress || app.download_in_progress {
        match &app.transfer_progress {
            Some(p) => {
                let mut r = String::new();
                push_decimal(&mut r, p.transferred_bytes);
                push_str(&mut r, " / ");
                push_decimal(&mut r, p.total_bytes);
                push_str(&mut r, " bytes");
                assert(r@ =~= decimal(p.transferred_bytes as nat) + " / "@ + decimal(
                    p.total_bytes as nat,
                ) + " bytes"@);
                r
            },
            None => "In progress...".to_owned(),
        }
    } else {
        "'h' for help".to_owned()
    };
    StatusBar { connection, connection_color, middle, right }
}

/// How a row of a file panel looks.
#[derive(Clone, Copy, Debug, PartialEq, Eq, Structural)]
pub struct RowLook {
    pub color: ThemeColor,
    pub bold: bool,
    /// Shown on a dark gray background: the selected row.
    pub highlighted: bool,
}

/// Marked entries are bold yellow, other directories bold blue, other
/// files white; the selected row is highlighted.
pub open spec fn row_look_of(is_dir: bool, selected: bool, marked: bool) -> RowLook {
    RowLook {
        color: if marked {
            ThemeColor::Yellow
        } else if is_dir {
            ThemeColor::Blue
        } else {
            ThemeColor::White
        },
        bold: is_dir || marked,
        highlighted: selected,
    }
}

/// How the row of an entry looks.
pub fn row_look(is_dir: bool, selected: bool, marked: bool) -> (r: RowLook)
    ensures
        r == row_look_of(is_dir, selected, marked),
{
    RowLook {
        color: if marked {
            ThemeColor::Yellow
        } else if is_dir {
            ThemeColor::Blue
        } else {
            ThemeColor::White
        },
        bold: is_dir || marked,
        highlighted: selected,
    }
}

/// The icon before an entry: a folder or a page.
pub open spec fn entry_icon(is_dir: bool) -> Seq<char> {
    if is_dir {
        "\u{1F4C1}"@
    } else {
        "\u{1F4C4}"@
    }
}

fn icon(is_dir: bool) -> (r: &'static str)
    ensures
        r@ == entry_icon(is_dir),
{
    if is_dir {
        "\u{1F4C1}"
    } else {
        "\u{1F4C4}"
    }
}

/// The text of a local row: icon and name, then the size in parentheses
/// when there is one (`size` is empty for directories).
pub fn local_row_text(is_dir: bool, name: &str, size: &str) -> (r: String)
    ensures
        r@ == if size@.len() == 0 {
            entry_icon(is_dir) + " "@ + name@
        } else {
            entry_icon(is_dir) + " "@ + name@ + " ("@ + size@ + ")"@
        },
{
    let mut r = concat3(icon(is_dir), " ", name);
    if !size.is_empty() {
        push_str(&mut r, " (");
        push_str(&mut r, size);
        push_str(&mut r, ")");
    }
    r
}

/// The text of a remote row: icon, name, and the size (or `-` when the
/// listing gave none) in parentheses.
pub fn remote_row_text(is_dir: bool, name: &str, size: Option<&str>) -> (r: String)
    ensures
        r@ == entry_icon(is_dir) + " "@ + name@ + " ("@ + match size {
            Some(t) => t@,
            None => "-"@,
        } + ")"@,
{
    let mut r = concat3(icon(is_dir), " ", name);
    push_str(&mut r, " (");
    match size {
        Some(t) => push_str(&mut r, t),
        None => push_str(&mut r, "-"),
    }
    push_str(&mut r, ")");
    r
}

/// The border of a panel: yellow when it has the focus, gray otherwise.
pub fn panel_border(focused: bool) -> (r: ThemeColor)
    ensures
        r == if focused {
            ThemeColor::Yellow
        } else {
            ThemeColor::Gray
        },
{
    if focused {
        ThemeColor::Yellow
    } else {
        ThemeColor::Gray
    }
}

/// The title of the local panel: a computer icon and the local path.
pub fn local_panel_title(app: &App) -> (r: String)
    ensures
        r@ == " \u{1F4BB} "@ + app@.local_path + " "@,
{
    concat3(" \u{1F4BB} ", app.current_local_path_buf.as_str(), " ")
}

/// The title of the remote panel: a folder icon and the remote path.
pub fn remote_panel_title(app: &App) -> (r: String)
    ensures
        r@ == " \u{1F4C1} Remote Files ("@ + app@.remote_path + ") "@,
{
    concat3(" \u{1F4C1} Remote Files (", app.current_remote_path.as_str(), ") ")
}

/// How the protocol is named in the dialog.
pub open spec fn protocol_label(p: ProtocolType) -> Seq<char> {
    match p {
        ProtocolType::Ftp => "FTP"@,
        ProtocolType::Ftps => "FTPS (FTP over TLS)"@,
    }
}

/// `n` stars.
pub open spec fn stars(n: nat) -> Seq<char> {
    Seq::new(n, |i: int| '*')
}

/// The length in bytes of the text `s`, as `str::len` reports it.
pub open spec fn byte_count(s: Seq<char>) -> usize {
    encode_utf8(s).len() as usize
}

/// The four lines of the connection dialog: label and value of the server,
/// user name, password (one star per byte of it) and protocol.
pub open spec fn dialog_lines_of(server: Seq<char>, username: Seq<char>, password: Seq<char>, protocol: ProtocolType) -> Seq<Seq<char>> {
    seq![
        "Server: "@ + server,
        "Username: "@ + username,
        "Password: "@ + stars(byte_count(password) as nat),
        "Protocol: "@ + protocol_label(protocol),
    ]
}

/// The lines of the connection dialog, in field order; the line of the
/// selected field is the one highlighted.
pub fn dialog_lines(dialog: &ConnectionDialog) -> (r: Vec<String>)
    ensures
        r@.len() == 4,
        forall|i: int|
            0 <= i < 4 ==> (#[trigger] r@[i])@ == dialog_lines_of(
                dialog@.server,
                dialog@.username,
                dialog@.password,
                dialog@.protocol,
            )[i],
{
    let password = dialog.password();
    let n = password.len();
    let mut masked = "Password: ".to_owned();
    let ghost start = masked@;
    for k in 0..n
        invariant
            masked@ == start + stars(k as nat),
    {
        string_push(&mut masked, '*');
        assert(stars((k + 1) as nat) =~= stars(k as nat).push('*'));
    }
    let protocol = match dialog.protocol() {
        ProtocolType::Ftp => "FTP",
        ProtocolType::Ftps => "FTPS (FTP over TLS)",
    };
    let mut r: Vec<String> = Vec::new();
    r.push(concat2("Server: ", dialog.server()));
    r.push(concat2("Username: ", dialog.username()));
    r.push(masked);
    r.push(concat2("Protocol: ", protocol));
    proof {
        let lines = dialog_lines_of(
            dialog@.server,
            dialog@.username,
            dialog@.password,
            dialog@.protocol,
        );
        assert(r@[0]@ == lines[0]);
        assert(r@[1]@ == lines[1]);
        assert(r@[2]@ == lines[2]);
        assert(r@[3]@ == lines[3]);
    }
    r
}

/// The title of the preview: the file's name, when known.
pub fn preview_title(app: &App) -> (r: String)
    ensures
        r@ == match app@.preview_file {
            Some(f) => " Preview: "@ + f + " "@,
            None => " Preview "@,
        },
{
    match &app.preview_file {
        Some(f) => concat3(" Preview: ", f.as_str(), " "),
        None => " Preview ".to_owned(),
    }
}

/// The text of the preview, or a note that there is none.
pub fn preview_body(app: &App) -> (r: String)
    ensures
        r@ == match app@.preview_content {
            Some(c) => c,
            None => "No content available"@,
        },
{
    match &app.preview_content {
        Some(c) => c.clone(),
        None => "No content available".to_owned(),
    }
}

/// A rectangle on the screen.
#[derive(Clone, Copy, Debug, PartialEq, Eq, Structural)]
pub struct Area {
    pub x: u16,
    pub y: u16,
    pub width: u16,
    pub height: u16,
}

/// `a - b`, or 0 when `b` is larger.
pub open spec fn minus(a: u16, b: u16) -> u16 {
    if a >= b {
        (a - b) as u16
    } else {
        0
    }
}

/// The smaller of `a` and `b`.
pub open spec fn smaller(a: u16, b: u16) -> u16 {
    if a <= b {
        a
    } else {
        b
    }
}

/// Where the connection dialog goes on a screen of the given size: 70 by
/// 14 cells (less on a smaller screen), centered.
pub fn dialog_area(width: u16, height: u16) -> (r: Area)
    ensures
        r == (Area {
            x: (minus(width, 70) / 2) as u16,
            y: (minus(height, 14) / 2) as u16,
            width: smaller(70, width),
            height: smaller(14, height),
        }),
{
    Area {
        x: width.saturating_sub(70) / 2,
        y: height.saturating_sub(14) / 2,
        width: if 70 <= width { 70 } else { width },
        height: if 14 <= height { 14 } else { height },
    }
}

/// Where the preview goes: at most 80 by 20 cells, leaving a margin of 4,
/// centered.
pub fn preview_area(width: u16, height: u16) -> (r: Area)
    ensures
        r.width == smaller(minus(width, 4), 80),
        r.height == smaller(minus(height, 4), 20),
        r.x == minus(width, r.width) / 2,
        r.y == minus(height, r.height) / 2,
{
    let w = width.saturating_sub(4);
    let popup_width = if w <= 80 { w } else { 80 };
    let h = height.saturating_sub(4);
    let popup_height = if h <= 20 { h } else { 20 };
    Area {
        x: width.saturating_sub(popup_width) / 2,
        y: height.saturating_sub(popup_height) / 2,
        width: popup_width,
        height: popup_height,
    }
}

/// The three percentages that center a band of `percent` percent: the
/// margins share the rest, rounded down.
pub fn centered_percentages(percent: u16) -> (r: (u16, u16, u16))
    requires
        percent <= 100,
    ensures
        r == (((100 - percent) / 2) as u16, percent, ((100 - percent) / 2) as u16),
{
    ((100 - percent) / 2, percent, (100 - percent) / 2)
}

} // verus!
