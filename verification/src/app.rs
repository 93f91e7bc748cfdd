//! The client's state and how it reacts to events: keys the user presses
//! and results of FTP work. Each event updates the state and may ask for
//! one piece of outside work (an FTP command, a transfer, reading a local
//! directory), which the caller performs and reports back as events.

use vstd::prelude::*;
use ratatui::widgets::ListState;
use crate::dialog::{
    backspaced, field_after, field_before, other_protocol, typed, DialogView,
};
pub use crate::dialog::ConnectionDialog;
use crate::ftp::{
    remote_views, permuted, ProtocolType, RemoteFile, RemoteFileView, TransferProgress,
    TransferProgressView,
};
use crate::order::{appears, is_stable_order, key_le, key_of, keys_of, stable_order, SortKey};
use crate::text::{
    chars_of, concat2, concat3, decimal, decimal_string, file_name_of, file_name_or, lowercase,
    lowercase_chars, push_decimal, push_str, str_eq,
};

verus! {

#[verifier::external_type_specification]
#[verifier::external_body]
pub struct ExListState(ListState);

/// What `ListState::selected` returns: the selected row, if any.
pub uninterp spec fn list_selected(state: ListState) -> Option<usize>;

/// What `ListState::offset` returns: the first row shown.
pub uninterp spec fn list_offset(state: ListState) -> usize;

/// `ListState::default`: nothing selected, offset 0.
#[verifier::external_body]
fn new_list_state() -> (r: ListState)
    ensures
        list_selected(r) is None,
        list_offset(r) == 0,
{
    ListState::default()
}

/// `ListState::select`: selects `index`; selecting nothing also resets the
/// offset to 0.
#[verifier::external_body]
fn list_select(state: &mut ListState, index: Option<usize>)
    ensures
        list_selected(*final(state)) == index,
        list_offset(*final(state)) == if index is None {
            0
        } else {
            list_offset(*old(state))
        },
{
    state.select(index)
}

/// What `Path::parent` gives for the path `p`: the path without its last
/// component, or `None` for a root or an empty path. It depends on the text
/// alone; the separators it knows are those of the target the program is
/// built for.
pub uninterp spec fn parent_path(p: Seq<char>) -> Option<Seq<char>>;

/// What `Path::join` gives for `base` and `name`: `name` inside `base`, or
/// `name` itself when it is absolute. It depends on the texts alone, as
/// `parent_path` does.
pub uninterp spec fn joined_path(base: Seq<char>, name: Seq<char>) -> Seq<char>;

/// The parent directory of `p`: `Path::parent`, as text (a path made from
/// text converts back without loss).
#[verifier::external_body]
fn path_parent(p: &str) -> (r: Option<String>)
    ensures
        opt_view(r) == parent_path(p@),
{
    match std::path::Path::new(p).parent() {
        Some(q) => Some(q.to_string_lossy().into_owned()),
        None => None,
    }
}

/// `name` inside `base`: `Path::join`, as text.
#[verifier::external_body]
fn path_join(base: &str, name: &str) -> (r: String)
    ensures
        r@ == joined_path(base@, name@),
{
    std::path::Path::new(base).join(name).to_string_lossy().into_owned()
}

/// A list's selection and offset.
pub struct ListView {
    pub selected: Option<usize>,
    pub offset: usize,
}

/// The selection and offset of a list.
pub open spec fn list_view(state: ListState) -> ListView {
    ListView { selected: list_selected(state), offset: list_offset(state) }
}

/// The list after selecting `index`.
pub open spec fn list_after_select(l: ListView, index: Option<usize>) -> ListView {
    ListView {
        selected: index,
        offset: if index is None {
            0
        } else {
            l.offset
        },
    }
}

/// One entry of the local directory listing.
#[derive(Debug, Clone)]
pub struct LocalFile {
    pub name: String,
    pub path: String,
    pub size: Option<u64>,
    pub is_dir: bool,
}

/// A local entry as values.
pub struct LocalFileView {
    pub name: Seq<char>,
    pub path: Seq<char>,
    pub size: Option<u64>,
    pub is_dir: bool,
}

impl View for LocalFile {
    type V = LocalFileView;

    open spec fn view(&self) -> LocalFileView {
        LocalFileView { name: self.name@, path: self.path@, size: self.size, is_dir: self.is_dir }
    }
}

impl LocalFile {
    /// A copy of this entry, equal to it.
    pub fn duplicate(&self) -> (r: LocalFile)
        ensures
            r == *self,
    {
        LocalFile {
            name: self.name.clone(),
            path: self.path.clone(),
            size: self.size,
            is_dir: self.is_dir,
        }
    }
}

/// The views of a sequence of local entries.
pub open spec fn local_views(v: Seq<LocalFile>) -> Seq<LocalFileView> {
    v.map_values(|f: LocalFile| f@)
}

/// What reading a local directory found about one of its entries.
pub struct DirEntryInfo {
    pub name: String,
    pub path: String,
    pub is_dir: bool,
    pub is_file: bool,
    pub len: u64,
}

/// A directory entry as values.
pub struct DirEntryView {
    pub name: Seq<char>,
    pub path: Seq<char>,
    pub is_dir: bool,
    pub is_file: bool,
    pub len: u64,
}

impl View for DirEntryInfo {
    type V = DirEntryView;

    open spec fn view(&self) -> DirEntryView {
        DirEntryView {
            name: self.name@,
            path: self.path@,
            is_dir: self.is_dir,
            is_file: self.is_file,
            len: self.len,
        }
    }
}

/// The keys the client reacts to.
#[derive(Clone, Copy, Debug, PartialEq, Eq, Structural)]
pub enum KeyCode {
    Char(char),
    Tab,
    BackTab,
    Up,
    Down,
    Enter,
    Backspace,
    Esc,
    /// Any other key.
    Other,
}

/// A key press: the key, and whether Control was held.
#[derive(Clone, Copy, Debug, PartialEq, Eq, Structural)]
pub struct KeyInput {
    pub code: KeyCode,
    pub control: bool,
}

/// What happens to the client.
#[derive(Debug, Clone)]
pub enum AppEvent {
    Key(KeyInput),
    FtpConnected,
    FtpDisconnected,
    FtpFilesListed(Vec<RemoteFile>),
    FtpPathChanged(String),
    FtpError(String),
    TransferProgress(TransferProgress),
    TransferCompleted(String),
    StatusMessage(String),
    /// A preview: the file's name and its content.
    FilePreview(String, String),
}

/// An event as values.
pub enum EventView {
    Key(KeyInput),
    FtpConnected,
    FtpDisconnected,
    FtpFilesListed(Seq<RemoteFileView>),
    FtpPathChanged(Seq<char>),
    FtpError(Seq<char>),
    TransferProgress(TransferProgressView),
    TransferCompleted(Seq<char>),
    StatusMessage(Seq<char>),
    FilePreview(Seq<char>, Seq<char>),
}

impl View for AppEvent {
    type V = EventView;

    open spec fn view(&self) -> EventView {
        match self {
            AppEvent::Key(k) => EventView::Key(*k),
            AppEvent::FtpConnected => EventView::FtpConnected,
            AppEvent::FtpDisconnected => EventView::FtpDisconnected,
            AppEvent::FtpFilesListed(fs) => EventView::FtpFilesListed(remote_views(fs@)),
            AppEvent::FtpPathChanged(p) => EventView::FtpPathChanged(p@),
            AppEvent::FtpError(e) => EventView::FtpError(e@),
            AppEvent::TransferProgress(p) => EventView::TransferProgress(p@),
            AppEvent::TransferCompleted(f) => EventView::TransferCompleted(f@),
            AppEvent::StatusMessage(m) => EventView::StatusMessage(m@),
            AppEvent::FilePreview(f, c) => EventView::FilePreview(f@, c@),
        }
    }
}

/// What becomes of a key press before the state machine sees it.
#[derive(Clone, Copy, Debug, PartialEq, Eq, Structural)]
pub enum KeyRoute {
    /// The program ends.
    Quit,
    /// The key is dropped.
    Ignore,
    /// The key goes to `App::handle_event`.
    Handle,
}

/// `q` quits unless the connection dialog is open, where it is dropped;
/// Esc quits when no dialog, help or preview is open, and otherwise goes on
/// to close it; Control-C quits when no transfer runs, and otherwise goes on
/// to cancel the transfer; every other key is handled.
pub open spec fn key_route(s: AppView, k: KeyInput) -> KeyRoute {
    match k.code {
        KeyCode::Char(c) => if c == 'q' || c == 'Q' {
            if !s.show_connection_dialog {
                KeyRoute::Quit
            } else {
                KeyRoute::Ignore
            }
        } else if c == 'c' && k.control {
            if !s.upload_in_progress && !s.download_in_progress {
                KeyRoute::Quit
            } else {
                KeyRoute::Handle
            }
        } else {
            KeyRoute::Handle
        },
        KeyCode::Esc => if !s.show_connection_dialog && !s.show_help && !s.show_preview {
            KeyRoute::Quit
        } else {
            KeyRoute::Handle
        },
        _ => KeyRoute::Handle,
    }
}

/// Why a local directory is being read, which decides the status line
/// afterwards.
#[derive(Clone, Copy, Debug, PartialEq, Eq, Structural)]
pub enum LocalRefresh {
    /// The user asked for a refresh.
    Manual,
    /// The user entered a directory.
    Entered,
    /// The user went to the parent directory.
    Parent,
}

/// Outside work that an event asks for.
#[derive(Debug)]
pub enum Action {
    Nothing,
    /// Connect and log in, then list the remote directory.
    Connect { server: String, username: String, password: String, protocol: ProtocolType },
    /// List the remote directory again.
    RefreshRemote,
    /// Change to the remote directory of this name, then list it.
    ChangeRemoteDir(String),
    /// Change to the remote parent directory, then list it.
    GoUpRemote,
    /// Download `remote_path` to the local file `local_path`.
    Download { remote_path: String, local_path: String },
    /// Upload `local_path` to the remote directory as `remote_name`.
    Upload { local_path: String, remote_name: String },
    /// Read the local directory `path`, then report it with
    /// `finish_local_refresh`.
    ReadLocalDir { path: String, reason: LocalRefresh },
    /// Ask the running transfer to stop.
    CancelTransfer,
    /// Load the start of the remote text file `remote_path` and report it
    /// as a preview named `file_name`.
    Preview { remote_path: String, file_name: String },
}

/// An action as values.
pub enum ActionView {
    Nothing,
    Connect { server: Seq<char>, username: Seq<char>, password: Seq<char>, protocol: ProtocolType },
    RefreshRemote,
    ChangeRemoteDir(Seq<char>),
    GoUpRemote,
    Download { remote_path: Seq<char>, local_path: Seq<char> },
    Upload { local_path: Seq<char>, remote_name: Seq<char> },
    ReadLocalDir { path: Seq<char>, reason: LocalRefresh },
    CancelTransfer,
    Preview { remote_path: Seq<char>, file_name: Seq<char> },
}

impl View for Action {
    type V = ActionView;

    open spec fn view(&self) -> ActionView {
        match self {
            Action::Nothing => ActionView::Nothing,
            Action::Connect { server, username, password, protocol } => ActionView::Connect {
                server: server@,
                username: username@,
                password: password@,
                protocol: *protocol,
            },
            Action::RefreshRemote => ActionView::RefreshRemote,
            Action::ChangeRemoteDir(d) => ActionView::ChangeRemoteDir(d@),
            Action::GoUpRemote => ActionView::GoUpRemote,
            Action::Download { remote_path, local_path } => ActionView::Download {
                remote_path: remote_path@,
                local_path: local_path@,
            },
            Action::Upload { local_path, remote_name } => ActionView::Upload {
                local_path: local_path@,
                remote_name: remote_name@,
            },
            Action::ReadLocalDir { path, reason } => ActionView::ReadLocalDir {
                path: path@,
                reason: *reason,
            },
            Action::CancelTransfer => ActionView::CancelTransfer,
            Action::Preview { remote_path, file_name } => ActionView::Preview {
                remote_path: remote_path@,
                file_name: file_name@,
            },
        }
    }
}

/// The client's state.
pub struct App {
    pub is_connected: bool,
    /// The current local directory.
    pub current_local_path_buf: String,
    pub current_remote_path: String,
    pub local_files: Vec<LocalFile>,
    pub remote_files: Vec<RemoteFile>,
    pub local_list_state: ListState,
    pub remote_list_state: ListState,
    pub selected_local_file: Option<usize>,
    pub selected_remote_file: Option<usize>,
    pub local_focused: bool,
    pub remote_focused: bool,
    pub status_message: String,
    pub error_message: Option<String>,
    pub show_connection_dialog: bool,
    pub show_help: bool,
    pub connection_dialog: ConnectionDialog,
    pub upload_in_progress: bool,
    pub download_in_progress: bool,
    pub transfer_cancelled: bool,
    pub transfer_progress: Option<TransferProgress>,
    pub show_preview: bool,
    pub preview_content: Option<String>,
    pub preview_file: Option<String>,
    /// The paths of the local entries marked with Space.
    pub marked_local_files: Vec<String>,
    /// The paths of the remote entries marked with Space.
    pub marked_remote_files: Vec<String>,
}

/// The client's state as values.
pub struct AppView {
    pub is_connected: bool,
    pub local_path: Seq<char>,
    pub remote_path: Seq<char>,
    pub local_files: Seq<LocalFileView>,
    pub remote_files: Seq<RemoteFileView>,
    pub local_list: ListView,
    pub remote_list: ListView,
    pub selected_local_file: Option<usize>,
    pub selected_remote_file: Option<usize>,
    pub local_focused: bool,
    pub remote_focused: bool,
    pub status_message: Seq<char>,
    pub error_message: Option<Seq<char>>,
    pub show_connection_dialog: bool,
    pub show_help: bool,
    pub dialog: DialogView,
    pub upload_in_progress: bool,
    pub download_in_progress: bool,
    pub transfer_cancelled: bool,
    pub transfer_progress: Option<TransferProgressView>,
    pub show_preview: bool,
    pub preview_content: Option<Seq<char>>,
    pub preview_file: Option<Seq<char>>,
    pub marked_local: Set<Seq<char>>,
    pub marked_remote: Set<Seq<char>>,
}

/// The texts held in `v`.
pub open spec fn mark_set(v: Seq<String>) -> Set<Seq<char>> {
    Set::new(|p: Seq<char>| exists|j: int| 0 <= j < v.len() && (#[trigger] v[j])@ == p)
}

/// The set `m` with `p` marked when it was not, unmarked when it was.
pub open spec fn toggled(m: Set<Seq<char>>, p: Seq<char>) -> Set<Seq<char>> {
    if m.contains(p) {
        m.remove(p)
    } else {
        m.insert(p)
    }
}

/// Whether `v` holds the text `p`.
fn contains_text(v: &Vec<String>, p: &str) -> (r: bool)
    ensures
        r == mark_set(v@).contains(p@),
{
    for i in 0..v.len()
        invariant
            forall|j: int| 0 <= j < i ==> (#[trigger] v@[j])@ != p@,
    {
        if str_eq(v[i].as_str(), p) {
            return true;
        }
    }
    false
}

/// The texts of `marks` with `p` added when it is absent, and every copy
/// of `p` taken out when it is present.
fn toggled_marks(marks: &Vec<String>, p: &str) -> (r: Vec<String>)
    ensures
        mark_set(r@) == toggled(mark_set(marks@), p@),
{
    let mut found = false;
    let mut kept: Vec<String> = Vec::new();
    for i in 0..marks.len()
        invariant
            found <==> exists|j: int| 0 <= j < i && (#[trigger] marks@[j])@ == p@,
            forall|q: Seq<char>|
                #![trigger mark_set(kept@).contains(q)]
                mark_set(kept@).contains(q) <==> (q != p@ && exists|j: int|
                    0 <= j < i && (#[trigger] marks@[j])@ == q),
    {
        if str_eq(marks[i].as_str(), p) {
            found = true;
        } else {
            let m = marks[i].clone();
            let ghost before = kept@;
            kept.push(m);
            proof {
                assert forall|q: Seq<char>|
                    mark_set(kept@).contains(q) <==> (q != p@ && exists|j: int|
                        0 <= j < i + 1 && (#[trigger] marks@[j])@ == q) by {
                    if mark_set(kept@).contains(q) {
                        let j = choose|j: int| 0 <= j < kept@.len() && (#[trigger] kept@[j])@ == q;
                        if j < before.len() {
                            assert(kept@[j] == before[j]);
                            assert(mark_set(before).contains(q));
                        } else {
                            assert(marks@[i as int]@ == q);
                        }
                    }
                    if q != p@ && exists|j: int| 0 <= j < i + 1 && (#[trigger] marks@[j])@ == q {
                        let j = choose|j: int| 0 <= j < i + 1 && (#[trigger] marks@[j])@ == q;
                        if j < i {
                            assert(mark_set(before).contains(q));
                            let k = choose|k: int| 0 <= k < before.len() && (#[trigger] before[k])@ == q;
                            assert(kept@[k] == before[k]);
                        } else {
                            assert(kept@[before.len() as int]@ == q);
                        }
                    }
                }
            }
        }
    }
    if !found {
        let ghost before = kept@;
        kept.push(p.to_owned());
        proof {
            assert forall|q: Seq<char>|
                mark_set(kept@).contains(q) <==> toggled(mark_set(marks@), p@).contains(q) by {
                if mark_set(kept@).contains(q) {
                    let j = choose|j: int| 0 <= j < kept@.len() && (#[trigger] kept@[j])@ == q;
                    if j < before.len() {
                        assert(kept@[j] == before[j]);
                        assert(mark_set(before).contains(q));
                    }
                }
                if mark_set(marks@).contains(q) {
                    let j = choose|j: int| 0 <= j < marks@.len() && (#[trigger] marks@[j])@ == q;
                    assert(q != p@);
                    assert(mark_set(before).contains(q));
                    let k = choose|k: int| 0 <= k < before.len() && (#[trigger] before[k])@ == q;
                    assert(kept@[k] == before[k]);
                }
                if q == p@ {
                    assert(kept@[before.len() as int]@ == q);
                }
            }
        }
    } else {
        proof {
            assert forall|q: Seq<char>|
                mark_set(kept@).contains(q) <==> toggled(mark_set(marks@), p@).contains(q) by {
                if q == p@ {
                    let j = choose|j: int| 0 <= j < marks@.len() && (#[trigger] marks@[j])@ == p@;
                    assert(mark_set(marks@).contains(p@));
                }
                if mark_set(marks@).contains(q) && q != p@ {
                    let j = choose|j: int| 0 <= j < marks@.len() && (#[trigger] marks@[j])@ == q;
                }
            }
        }
    }
    proof {
        assert(mark_set(kept@) =~= toggled(mark_set(marks@), p@));
    }
    kept
}

/// The characters of an optional string.
pub open spec fn opt_view(o: Option<String>) -> Option<Seq<char>> {
    match o {
        Some(s) => Some(s@),
        None => None,
    }
}

impl View for App {
    type V = AppView;

    open spec fn view(&self) -> AppView {
        AppView {
            is_connected: self.is_connected,
            local_path: self.current_local_path_buf@,
            remote_path: self.current_remote_path@,
            local_files: local_views(self.local_files@),
            remote_files: remote_views(self.remote_files@),
            local_list: list_view(self.local_list_state),
            remote_list: list_view(self.remote_list_state),
            selected_local_file: self.selected_local_file,
            selected_remote_file: self.selected_remote_file,
            local_focused: self.local_focused,
            remote_focused: self.remote_focused,
            status_message: self.status_message@,
            error_message: opt_view(self.error_message),
            show_connection_dialog: self.show_connection_dialog,
            show_help: self.show_help,
            dialog: self.connection_dialog@,
            upload_in_progress: self.upload_in_progress,
            download_in_progress: self.download_in_progress,
            transfer_cancelled: self.transfer_cancelled,
            transfer_progress: match self.transfer_progress {
                Some(p) => Some(p@),
                None => None,
            },
            show_preview: self.show_preview,
            preview_content: opt_view(self.preview_content),
            preview_file: opt_view(self.preview_file),
            marked_local: mark_set(self.marked_local_files@),
            marked_remote: mark_set(self.marked_remote_files@),
        }
    }
}

/// A selection that moving down can step past: the index is below the
/// largest `usize`.
pub open spec fn selection_ok(sel: Option<usize>) -> bool {
    sel matches Some(i) ==> i < usize::MAX
}

impl AppView {
    /// The selections can move down without overflow.
    pub open spec fn inv(self) -> bool {
        selection_ok(self.selected_local_file) && selection_ok(self.selected_remote_file)
    }
}


/// `s` with the status line `m`.
pub open spec fn with_status(s: AppView, m: Seq<char>) -> AppView {
    AppView { status_message: m, ..s }
}

/// The selection after moving up in a list of `len` rows: one row up, not
/// past the first, and on a row that exists.
pub open spec fn moved_up(sel: Option<usize>, len: nat) -> Option<usize> {
    let i: int = match sel {
        Some(x) => if x > 0 {
            x - 1
        } else {
            0
        },
        None => 0,
    };
    Some((if i < len - 1 {
        i
    } else {
        len - 1
    }) as usize)
}

/// The selection after moving down in a list of `len` rows: one row down,
/// not past the last.
pub open spec fn moved_down(sel: Option<usize>, len: nat) -> Option<usize> {
    let i: int = match sel {
        Some(x) => x + 1,
        None => 0,
    };
    Some((if i < len - 1 {
        i
    } else {
        len - 1
    }) as usize)
}

/// The state after moving the remote selection; an empty list keeps it.
pub open spec fn after_remote_move(s: AppView, down: bool) -> AppView {
    if s.remote_files.len() == 0 {
        s
    } else {
        let sel = if down {
            moved_down(s.selected_remote_file, s.remote_files.len())
        } else {
            moved_up(s.selected_remote_file, s.remote_files.len())
        };
        AppView {
            selected_remote_file: sel,
            remote_list: list_after_select(s.remote_list, sel),
            ..s
        }
    }
}

/// The state after moving the local selection; an empty list keeps it.
pub open spec fn after_local_move(s: AppView, down: bool) -> AppView {
    if s.local_files.len() == 0 {
        s
    } else {
        let sel = if down {
            moved_down(s.selected_local_file, s.local_files.len())
        } else {
            moved_up(s.selected_local_file, s.local_files.len())
        };
        AppView { selected_local_file: sel, local_list: list_after_select(s.local_list, sel), ..s }
    }
}

/// The final component of `p`, or `fallback` when it names none.
pub open spec fn name_or(p: Seq<char>, fallback: Seq<char>) -> Seq<char> {
    match file_name_of(p) {
        Some(n) => n,
        None => fallback,
    }
}

/// Starting a download of `remote_path` into the current local directory,
/// under the remote file's name.
pub open spec fn after_download_start(s: AppView, remote_path: Seq<char>) -> (AppView, ActionView) {
    (
        AppView {
            download_in_progress: true,
            transfer_cancelled: false,
            status_message: "Downloading: "@ + remote_path,
            ..s
        },
        ActionView::Download {
            remote_path: remote_path,
            local_path: joined_path(s.local_path, name_or(remote_path, "downloaded_file"@)),
        },
    )
}

/// Starting an upload of `local_path` into the remote directory.
pub open spec fn after_upload_start(s: AppView, local_path: Seq<char>) -> (AppView, ActionView) {
    let remote_name = name_or(local_path, "uploaded_file"@);
    (
        AppView {
            upload_in_progress: true,
            transfer_cancelled: false,
            status_message: "Uploading: "@ + remote_name,
            ..s
        },
        ActionView::Upload { local_path: local_path, remote_name: remote_name },
    )
}

/// Enter in the remote panel: a selected directory is entered by name, a
/// selected file is downloaded.
pub open spec fn after_remote_enter(s: AppView) -> (AppView, ActionView) {
    match s.selected_remote_file {
        Some(i) => if i < s.remote_files.len() {
            let f = s.remote_files[i as int];
            if f.is_dir {
                (
                    with_status(s, "Entering directory: "@ + f.name),
                    ActionView::ChangeRemoteDir(f.name),
                )
            } else {
                after_download_start(s, f.path)
            }
        } else {
            (s, ActionView::Nothing)
        },
        None => (s, ActionView::Nothing),
    }
}

/// Enter in the local panel: a selected directory becomes the current one
/// and is read; a selected file is uploaded when connected; otherwise the
/// status line says why nothing happened.
pub open spec fn after_local_enter(s: AppView) -> (AppView, ActionView) {
    match s.selected_local_file {
        Some(i) => if i < s.local_files.len() {
            let f = s.local_files[i as int];
            if f.is_dir {
                (
                    AppView { local_path: f.path, ..s },
                    ActionView::ReadLocalDir { path: f.path, reason: LocalRefresh::Entered },
                )
            } else if s.is_connected && !s.remote_focused {
                after_upload_start(s, f.path)
            } else {
                (
                    with_status(s, "Selected file: "@ + f.name + " (not a dir)"@),
                    ActionView::Nothing,
                )
            }
        } else {
            (with_status(s, "No file at index "@ + decimal(i as nat)), ActionView::Nothing)
        },
        None => (with_status(s, "No file selected"@), ActionView::Nothing),
    }
}

/// `s` with the dialog in state `d`.
pub open spec fn with_dialog(s: AppView, d: DialogView) -> AppView {
    AppView { dialog: d, ..s }
}

/// A key while the connection dialog is open.
pub open spec fn after_dialog_key(s: AppView, k: KeyInput) -> (AppView, ActionView) {
    let d = s.dialog;
    match k.code {
        KeyCode::Esc => (
            AppView { show_connection_dialog: false, show_help: false, ..s },
            ActionView::Nothing,
        ),
        KeyCode::Enter => if d.server.len() > 0 && d.username.len() > 0 && d.password.len() > 0 {
            (
                AppView {
                    status_message: "Connecting to "@ + d.server + "..."@,
                    show_connection_dialog: false,
                    ..s
                },
                ActionView::Connect {
                    server: d.server,
                    username: d.username,
                    password: d.password,
                    protocol: d.protocol,
                },
            )
        } else {
            (s, ActionView::Nothing)
        },
        KeyCode::Tab => (
            with_dialog(s, DialogView { selected_field: field_after(d.selected_field), ..d }),
            ActionView::Nothing,
        ),
        KeyCode::BackTab => (
            with_dialog(s, DialogView { selected_field: field_before(d.selected_field), ..d }),
            ActionView::Nothing,
        ),
        KeyCode::Backspace => (with_dialog(s, backspaced(d)), ActionView::Nothing),
        KeyCode::Up => (
            with_dialog(
                s,
                if d.selected_field == 3 {
                    DialogView { protocol: other_protocol(d.protocol), ..d }
                } else {
                    DialogView { selected_field: field_before(d.selected_field), ..d }
                },
            ),
            ActionView::Nothing,
        ),
        KeyCode::Down => (
            with_dialog(
                s,
                if d.selected_field == 3 {
                    DialogView { protocol: other_protocol(d.protocol), ..d }
                } else {
                    DialogView { selected_field: field_after(d.selected_field), ..d }
                },
            ),
            ActionView::Nothing,
        ),
        KeyCode::Char(c) => if c == ' ' {
            (
                with_dialog(
                    s,
                    if d.selected_field == 3 {
                        DialogView { use_tls: !d.use_tls, ..d }
                    } else {
                        d
                    },
                ),
                ActionView::Nothing,
            )
        } else {
            (with_dialog(s, typed(d, c)), ActionView::Nothing)
        },
        _ => (s, ActionView::Nothing),
    }
}

/// A character key while the main screen is shown.
pub open spec fn after_char_key(s: AppView, c: char, control: bool) -> (AppView, ActionView) {
    if c == 'c' || c == 'C' {
        if !control && !s.is_connected {
            (AppView { show_connection_dialog: true, ..s }, ActionView::Nothing)
        } else if control && (s.upload_in_progress || s.download_in_progress) {
            (
                AppView {
                    transfer_cancelled: true,
                    status_message: "Transfer cancelled"@,
                    upload_in_progress: false,
                    download_in_progress: false,
                    ..s
                },
                ActionView::CancelTransfer,
            )
        } else {
            (s, ActionView::Nothing)
        }
    } else if c == 'r' || c == 'R' {
        if s.is_connected {
            (with_status(s, "Refreshing..."@), ActionView::RefreshRemote)
        } else {
            (s, ActionView::Nothing)
        }
    } else if c == 'u' || c == 'U' {
        if s.is_connected && !s.remote_focused {
            (
                with_status(s, "To upload a file, select it in the local panel and press Enter"@),
                ActionView::Nothing,
            )
        } else {
            (s, ActionView::Nothing)
        }
    } else if c == 'l' || c == 'L' {
        if !s.remote_focused {
            (s, ActionView::ReadLocalDir { path: s.local_path, reason: LocalRefresh::Manual })
        } else {
            (s, ActionView::Nothing)
        }
    } else if c == 'h' || c == 'H' {
        (AppView { show_help: !s.show_help, ..s }, ActionView::Nothing)
    } else if c == 'p' || c == 'P' {
        after_preview_key(s)
    } else if c == ' ' {
        (after_space(s), ActionView::Nothing)
    } else {
        (s, ActionView::Nothing)
    }
}

/// `p`: when connected with a remote file selected, the start of that file
/// is loaded for a preview; otherwise nothing happens.
pub open spec fn after_preview_key(s: AppView) -> (AppView, ActionView) {
    match s.selected_remote_file {
        Some(i) => if s.is_connected && s.remote_focused && i < s.remote_files.len()
            && !s.remote_files[i as int].is_dir {
            let path = s.remote_files[i as int].path;
            let name = name_or(path, "preview"@);
            (
                with_status(s, "Loading preview for: "@ + name),
                ActionView::Preview { remote_path: path, file_name: name },
            )
        } else {
            (s, ActionView::Nothing)
        },
        None => (s, ActionView::Nothing),
    }
}

/// Space: the selected entry of the focused panel is marked, or unmarked
/// when it was marked; without a selected entry nothing happens.
pub open spec fn after_space(s: AppView) -> AppView {
    if s.remote_focused {
        match s.selected_remote_file {
            Some(i) => if i < s.remote_files.len() {
                AppView {
                    marked_remote: toggled(s.marked_remote, s.remote_files[i as int].path),
                    ..s
                }
            } else {
                s
            },
            None => s,
        }
    } else {
        match s.selected_local_file {
            Some(i) => if i < s.local_files.len() {
                AppView {
                    marked_local: toggled(s.marked_local, s.local_files[i as int].path),
                    ..s
                }
            } else {
                s
            },
            None => s,
        }
    }
}

/// A key while the main screen is shown.
pub open spec fn after_main_key(s: AppView, k: KeyInput) -> (AppView, ActionView) {
    match k.code {
        KeyCode::Char(c) => after_char_key(s, c, k.control),
        KeyCode::Tab => (
            AppView {
                remote_focused: !s.remote_focused,
                status_message: if !s.remote_focused {
                    "Focus: Remote Files"@
                } else {
                    "Focus: Local Files ("@ + s.local_path + ")"@
                },
                ..s
            },
            ActionView::Nothing,
        ),
        KeyCode::Up => (
            if s.remote_focused {
                after_remote_move(s, false)
            } else {
                after_local_move(s, false)
            },
            ActionView::Nothing,
        ),
        KeyCode::Down => (
            if s.remote_focused {
                after_remote_move(s, true)
            } else {
                after_local_move(s, true)
            },
            ActionView::Nothing,
        ),
        KeyCode::Enter => if s.remote_focused {
            after_remote_enter(s)
        } else {
            after_local_enter(s)
        },
        KeyCode::Backspace => if s.remote_focused && s.is_connected {
            (with_status(s, "Going to parent directory..."@), ActionView::GoUpRemote)
        } else if !s.remote_focused {
            match parent_path(s.local_path) {
                Some(q) => (
                    AppView { local_path: q, ..s },
                    ActionView::ReadLocalDir { path: q, reason: LocalRefresh::Parent },
                ),
                None => (s, ActionView::Nothing),
            }
        } else {
            (s, ActionView::Nothing)
        },
        KeyCode::Esc => (
            if s.show_preview {
                AppView { show_preview: false, preview_content: None, preview_file: None, ..s }
            } else {
                AppView { show_connection_dialog: false, show_help: false, ..s }
            },
            ActionView::Nothing,
        ),
        _ => (s, ActionView::Nothing),
    }
}

/// A key press: the dialog takes it while it is open.
pub open spec fn after_key(s: AppView, k: KeyInput) -> (AppView, ActionView) {
    if s.show_connection_dialog {
        after_dialog_key(s, k)
    } else {
        after_main_key(s, k)
    }
}

/// The state after an event, and the outside work it asks for.
pub open spec fn after_event(s: AppView, e: EventView) -> (AppView, ActionView) {
    match e {
        EventView::Key(k) => after_key(s, k),
        EventView::FtpConnected => (
            AppView { status_message: "Connected"@, error_message: None, is_connected: true, ..s },
            ActionView::Nothing,
        ),
        EventView::FtpDisconnected => (
            AppView {
                status_message: "Disconnected"@,
                remote_files: Seq::empty(),
                is_connected: false,
                ..s
            },
            ActionView::Nothing,
        ),
        EventView::FtpFilesListed(fs) => {
            let sel = if fs.len() == 0 {
                None
            } else {
                Some(0usize)
            };
            (
                AppView {
                    remote_files: fs,
                    selected_remote_file: sel,
                    remote_list: list_after_select(s.remote_list, sel),
                    status_message: decimal(fs.len()) + " items"@,
                    ..s
                },
                ActionView::Nothing,
            )
        },
        EventView::FtpPathChanged(p) => (
            AppView { remote_path: p, status_message: "Entered: "@ + p, ..s },
            ActionView::Nothing,
        ),
        EventView::FtpError(e) => (
            AppView {
                error_message: Some(e),
                status_message: e,
                upload_in_progress: false,
                download_in_progress: false,
                ..s
            },
            ActionView::Nothing,
        ),
        EventView::TransferProgress(p) => (
            AppView {
                transfer_progress: Some(p),
                status_message: "Transferring "@ + p.filename + ": "@ + decimal(p.percentage as nat)
                    + "%"@,
                download_in_progress: true,
                ..s
            },
            ActionView::Nothing,
        ),
        EventView::TransferCompleted(f) => (
            AppView {
                status_message: "✓ Transfer completed: "@ + f,
                upload_in_progress: false,
                download_in_progress: false,
                transfer_progress: None,
                ..s
            },
            ActionView::Nothing,
        ),
        EventView::StatusMessage(m) => (with_status(s, m), ActionView::Nothing),
        EventView::FilePreview(f, c) => (
            AppView {
                preview_file: Some(f),
                preview_content: Some(c),
                show_preview: true,
                ..s
            },
            ActionView::Nothing,
        ),
    }
}


/// The state of a client that has just started in the local directory
/// `local_path`.
pub open spec fn initial_view(local_path: Seq<char>) -> AppView {
    AppView {
        is_connected: false,
        local_path: local_path,
        remote_path: "/"@,
        local_files: Seq::empty(),
        remote_files: Seq::empty(),
        local_list: ListView { selected: None, offset: 0 },
        remote_list: ListView { selected: None, offset: 0 },
        selected_local_file: None,
        selected_remote_file: None,
        local_focused: true,
        remote_focused: false,
        status_message: "Welcome! Press 'c' to connect."@,
        error_message: None,
        show_connection_dialog: false,
        show_help: false,
        dialog: DialogView {
            server: Seq::empty(),
            username: Seq::empty(),
            password: Seq::empty(),
            use_tls: false,
            protocol: ProtocolType::Ftp,
            selected_field: 0,
        },
        upload_in_progress: false,
        download_in_progress: false,
        transfer_cancelled: false,
        transfer_progress: None,
        show_preview: false,
        preview_content: None,
        preview_file: None,
        marked_local: Set::empty(),
        marked_remote: Set::empty(),
    }
}

impl App {
    /// A client that has just started in the local directory
    /// `current_dir`, not connected, nothing listed yet.
    pub fn new(current_dir: String) -> (r: App)
        ensures
            r@ == initial_view(current_dir@),
    {
        let r = App {
            is_connected: false,
            current_local_path_buf: current_dir,
            current_remote_path: "/".to_owned(),
            local_files: Vec::new(),
            remote_files: Vec::new(),
            local_list_state: new_list_state(),
            remote_list_state: new_list_state(),
            selected_local_file: None,
            selected_remote_file: None,
            local_focused: true,
            remote_focused: false,
            status_message: "Welcome! Press 'c' to connect.".to_owned(),
            error_message: None,
            show_connection_dialog: false,
            show_help: false,
            connection_dialog: ConnectionDialog::new(),
            upload_in_progress: false,
            download_in_progress: false,
            transfer_cancelled: false,
            transfer_progress: None,
            show_preview: false,
            preview_content: None,
            preview_file: None,
            marked_local_files: Vec::new(),
            marked_remote_files: Vec::new(),
        };
        assert(mark_set(r.marked_local_files@) =~= Set::empty());
        assert(mark_set(r.marked_remote_files@) =~= Set::empty());
        assert(local_views(r.local_files@) =~= Seq::empty());
        assert(remote_views(r.remote_files@) =~= Seq::empty());
        r
    }

    fn start_download(&mut self, remote_path: String) -> (action: Action)
        requires
            old(self)@.inv(),
        ensures
            (final(self)@, action@) == after_download_start(old(self)@, remote_path@),
            final(self)@.inv(),
    {
        let file_name = file_name_or(remote_path.as_str(), "downloaded_file");
        let local_path = path_join(self.current_local_path_buf.as_str(), file_name.as_str());
        self.download_in_progress = true;
        self.transfer_cancelled = false;
        self.status_message = concat2("Downloading: ", remote_path.as_str());
        Action::Download { remote_path, local_path }
    }

    fn start_upload(&mut self, local_path: String) -> (action: Action)
        requires
            old(self)@.inv(),
        ensures
            (final(self)@, action@) == after_upload_start(old(self)@, local_path@),
            final(self)@.inv(),
    {
        let remote_name = file_name_or(local_path.as_str(), "uploaded_file");
        self.upload_in_progress = true;
        self.transfer_cancelled = false;
        self.status_message = concat2("Uploading: ", remote_name.as_str());
        Action::Upload { local_path, remote_name }
    }

    fn handle_remote_enter(&mut self) -> (action: Action)
        requires
            old(self)@.inv(),
        ensures
            (final(self)@, action@) == after_remote_enter(old(self)@),
            final(self)@.inv(),
    {
        if let Some(index) = self.selected_remote_file {
            if index < self.remote_files.len() {
                let ghost f = self@.remote_files[index as int];
                if self.remote_files[index].is_dir {
                    let name = self.remote_files[index].name.clone();
                    self.status_message = concat2("Entering directory: ", name.as_str());
                    return Action::ChangeRemoteDir(name);
                } else {
                    let path = self.remote_files[index].path.clone();
                    return self.start_download(path);
                }
            }
        }
        Action::Nothing
    }

    fn handle_local_enter(&mut self) -> (action: Action)
        requires
            old(self)@.inv(),
        ensures
            (final(self)@, action@) == after_local_enter(old(self)@),
            final(self)@.inv(),
    {
        match self.selected_local_file {
            Some(index) => {
                if index < self.local_files.len() {
                    let file = self.local_files[index].duplicate();
                    assert(file@ == self@.local_files[index as int]);
                    if file.is_dir {
                        self.current_local_path_buf = file.path.clone();
                        Action::ReadLocalDir { path: file.path, reason: LocalRefresh::Entered }
                    } else if self.is_connected && !self.remote_focused {
                        self.start_upload(file.path)
                    } else {
                        self.status_message = concat3(
                            "Selected file: ",
                            file.name.as_str(),
                            " (not a dir)",
                        );
                        Action::Nothing
                    }
                } else {
                    let mut m = "No file at index ".to_owned();
                    push_decimal(&mut m, index as u64);
                    self.status_message = m;
                    Action::Nothing
                }
            },
            None => {
                self.status_message = "No file selected".to_owned();
                Action::Nothing
            },
        }
    }

    fn handle_connection_dialog_key(&mut self, key: KeyInput) -> (action: Action)
        requires
            old(self)@.inv(),
        ensures
            (final(self)@, action@) == after_dialog_key(old(self)@, key),
            final(self)@.inv(),
    {
        match key.code {
            KeyCode::Esc => {
                self.show_connection_dialog = false;
                self.show_help = false;
            },
            KeyCode::Enter => {
                if self.connection_dialog.is_complete() {
                    let server = self.connection_dialog.server().to_owned();
                    let username = self.connection_dialog.username().to_owned();
                    let password = self.connection_dialog.password().to_owned();
                    let protocol = *self.connection_dialog.protocol();
                    self.status_message = concat3("Connecting to ", server.as_str(), "...");
                    self.show_connection_dialog = false;
                    return Action::Connect { server, username, password, protocol };
                }
            },
            KeyCode::Tab => {
                self.connection_dialog.next_field();
            },
            KeyCode::BackTab => {
                self.connection_dialog.prev_field();
            },
            KeyCode::Backspace => {
                self.connection_dialog.backspace();
            },
            KeyCode::Up => {
                if self.connection_dialog.selected_field() == 3 {
                    self.connection_dialog.cycle_protocol();
                } else {
                    self.connection_dialog.prev_field();
                }
            },
            KeyCode::Down => {
                if self.connection_dialog.selected_field() == 3 {
                    self.connection_dialog.cycle_protocol();
                } else {
                    self.connection_dialog.next_field();
                }
            },
            KeyCode::Char(c) => {
                if c == ' ' {
                    if self.connection_dialog.selected_field() == 3 {
                        self.connection_dialog.toggle_tls();
                    }
                } else {
                    self.connection_dialog.input_char(c);
                }
            },
            _ => {},
        }
        Action::Nothing
    }

    fn handle_char_key(&mut self, c: char, control: bool) -> (action: Action)
        requires
            old(self)@.inv(),
        ensures
            (final(self)@, action@) == after_char_key(old(self)@, c, control),
            final(self)@.inv(),
    {
        if c == 'c' || c == 'C' {
            if !control && !self.is_connected {
                self.show_connection_dialog = true;
                Action::Nothing
            } else if control && (self.upload_in_progress || self.download_in_progress) {
                self.transfer_cancelled = true;
                self.status_message = "Transfer cancelled".to_owned();
                self.upload_in_progress = false;
                self.download_in_progress = false;
                Action::CancelTransfer
            } else {
                Action::Nothing
            }
        } else if c == 'r' || c == 'R' {
            if self.is_connected {
                self.status_message = "Refreshing...".to_owned();
                Action::RefreshRemote
            } else {
                Action::Nothing
            }
        } else if c == 'u' || c == 'U' {
            if self.is_connected && !self.remote_focused {
                self.status_message =
                    "To upload a file, select it in the local panel and press Enter".to_owned();
            }
            Action::Nothing
        } else if c == 'l' || c == 'L' {
            if !self.remote_focused {
                Action::ReadLocalDir {
                    path: self.current_local_path_buf.clone(),
                    reason: LocalRefresh::Manual,
                }
            } else {
                Action::Nothing
            }
        } else if c == 'h' || c == 'H' {
            self.show_help = !self.show_help;
            Action::Nothing
        } else if c == 'p' || c == 'P' {
            self.handle_preview_key()
        } else if c == ' ' {
            self.handle_space();
            Action::Nothing
        } else {
            Action::Nothing
        }
    }

    fn handle_preview_key(&mut self) -> (action: Action)
        requires
            old(self)@.inv(),
        ensures
            (final(self)@, action@) == after_preview_key(old(self)@),
            final(self)@.inv(),
    {
        match self.selected_remote_file {
            Some(i) => {
                if self.is_connected && self.remote_focused && i < self.remote_files.len()
                    && !self.remote_files[i].is_dir {
                    let remote_path = self.remote_files[i].path.clone();
                    let file_name = file_name_or(remote_path.as_str(), "preview");
                    self.status_message = concat2("Loading preview for: ", file_name.as_str());
                    Action::Preview { remote_path, file_name }
                } else {
                    Action::Nothing
                }
            },
            None => Action::Nothing,
        }
    }

    fn handle_space(&mut self)
        requires
            old(self)@.inv(),
        ensures
            final(self)@ == after_space(old(self)@),
            final(self)@.inv(),
    {
        if self.remote_focused {
            if let Some(i) = self.selected_remote_file {
                if i < self.remote_files.len() {
                    let marks = toggled_marks(
                        &self.marked_remote_files,
                        self.remote_files[i].path.as_str(),
                    );
                    self.marked_remote_files = marks;
                }
            }
        } else {
            if let Some(i) = self.selected_local_file {
                if i < self.local_files.len() {
                    let marks = toggled_marks(
                        &self.marked_local_files,
                        self.local_files[i].path.as_str(),
                    );
                    self.marked_local_files = marks;
                }
            }
        }
    }

    fn handle_main_key(&mut self, key: KeyInput) -> (action: Action)
        requires
            old(self)@.inv(),
        ensures
            (final(self)@, action@) == after_main_key(old(self)@, key),
            final(self)@.inv(),
    {
        match key.code {
            KeyCode::Char(c) => self.handle_char_key(c, key.control),
            KeyCode::Tab => {
                self.remote_focused = !self.remote_focused;
                self.status_message = if self.remote_focused {
                    "Focus: Remote Files".to_owned()
                } else {
                    concat3("Focus: Local Files (", self.current_local_path_buf.as_str(), ")")
                };
                Action::Nothing
            },
            KeyCode::Up => {
                if self.remote_focused {
                    self.move_remote_selection(false);
                } else {
                    self.move_local_selection(false);
                }
                Action::Nothing
            },
            KeyCode::Down => {
                if self.remote_focused {
                    self.move_remote_selection(true);
                } else {
                    self.move_local_selection(true);
                }
                Action::Nothing
            },
            KeyCode::Enter => {
                if self.remote_focused {
                    self.handle_remote_enter()
                } else {
                    self.handle_local_enter()
                }
            },
            KeyCode::Backspace => {
                if self.remote_focused && self.is_connected {
                    self.status_message = "Going to parent directory...".to_owned();
                    Action::GoUpRemote
                } else if !self.remote_focused {
                    match path_parent(self.current_local_path_buf.as_str()) {
                        Some(q) => {
                            self.current_local_path_buf = q.clone();
                            Action::ReadLocalDir { path: q, reason: LocalRefresh::Parent }
                        },
                        None => Action::Nothing,
                    }
                } else {
                    Action::Nothing
                }
            },
            KeyCode::Esc => {
                if self.show_preview {
                    self.show_preview = false;
                    self.preview_content = None;
                    self.preview_file = None;
                } else {
                    self.show_connection_dialog = false;
                    self.show_help = false;
                }
                Action::Nothing
            },
            _ => Action::Nothing,
        }
    }

    fn handle_key_event(&mut self, key: KeyInput) -> (action: Action)
        requires
            old(self)@.inv(),
        ensures
            (final(self)@, action@) == after_key(old(self)@, key),
            final(self)@.inv(),
    {
        if self.show_connection_dialog {
            self.handle_connection_dialog_key(key)
        } else {
            self.handle_main_key(key)
        }
    }

    /// Reacts to an event: updates the state and returns the outside work
    /// the event asks for.
    pub fn handle_event(&mut self, event: AppEvent) -> (action: Action)
        requires
            old(self)@.inv(),
        ensures
            (final(self)@, action@) == after_event(old(self)@, event@),
            final(self)@.inv(),
    {
        match event {
            AppEvent::Key(key) => self.handle_key_event(key),
            AppEvent::FtpConnected => {
                self.on_connected();
                Action::Nothing
            },
            AppEvent::FtpDisconnected => {
                self.on_disconnected();
                Action::Nothing
            },
            AppEvent::FtpFilesListed(files) => {
                self.on_files_listed(files);
                Action::Nothing
            },
            AppEvent::FtpPathChanged(new_path) => {
                self.on_path_changed(new_path);
                Action::Nothing
            },
            AppEvent::FtpError(error) => {
                self.on_error(error);
                Action::Nothing
            },
            AppEvent::TransferProgress(progress) => {
                self.on_progress(progress);
                Action::Nothing
            },
            AppEvent::TransferCompleted(filename) => {
                self.on_completed(filename);
                Action::Nothing
            },
            AppEvent::StatusMessage(msg) => {
                self.status_message = msg;
                Action::Nothing
            },
            AppEvent::FilePreview(filename, content) => {
                self.on_preview(filename, content);
                Action::Nothing
            },
        }
    }

    fn on_connected(&mut self)
        ensures
            final(self)@ == after_event(old(self)@, EventView::FtpConnected).0,
    {
        self.status_message = "Connected".to_owned();
        self.error_message = None;
        self.is_connected = true;
    }

    fn on_disconnected(&mut self)
        ensures
            final(self)@ == after_event(old(self)@, EventView::FtpDisconnected).0,
    {
        self.status_message = "Disconnected".to_owned();
        self.remote_files = Vec::new();
        assert(remote_views(self.remote_files@) =~= Seq::empty());
        self.is_connected = false;
    }

    fn on_files_listed(&mut self, files: Vec<RemoteFile>)
        ensures
            final(self)@ == after_event(
                old(self)@,
                EventView::FtpFilesListed(remote_views(files@)),
            ).0,
    {
        let n = files.len();
        self.remote_files = files;
        self.selected_remote_file = if n == 0 {
            None
        } else {
            Some(0)
        };
        list_select(&mut self.remote_list_state, self.selected_remote_file);
        let mut m = decimal_string(n as u64);
        push_str(&mut m, " items");
        self.status_message = m;
    }

    fn on_path_changed(&mut self, new_path: String)
        ensures
            final(self)@ == after_event(old(self)@, EventView::FtpPathChanged(new_path@)).0,
    {
        self.status_message = concat2("Entered: ", new_path.as_str());
        self.current_remote_path = new_path;
    }

    fn on_error(&mut self, error: String)
        ensures
            final(self)@ == after_event(old(self)@, EventView::FtpError(error@)).0,
    {
        self.error_message = Some(error.clone());
        self.status_message = error;
        self.upload_in_progress = false;
        self.download_in_progress = false;
    }

    fn on_progress(&mut self, progress: TransferProgress)
        ensures
            final(self)@ == after_event(old(self)@, EventView::TransferProgress(progress@)).0,
    {
        let mut m = concat3("Transferring ", progress.filename.as_str(), ": ");
        push_decimal(&mut m, progress.percentage as u64);
        push_str(&mut m, "%");
        self.transfer_progress = Some(progress);
        self.status_message = m;
        self.download_in_progress = true;
    }

    fn on_completed(&mut self, filename: String)
        ensures
            final(self)@ == after_event(old(self)@, EventView::TransferCompleted(filename@)).0,
    {
        self.status_message = concat2("✓ Transfer completed: ", filename.as_str());
        self.upload_in_progress = false;
        self.download_in_progress = false;
        self.transfer_progress = None;
    }

    fn on_preview(&mut self, filename: String, content: String)
        ensures
            final(self)@ == after_event(old(self)@, EventView::FilePreview(filename@, content@)).0,
    {
        self.preview_file = Some(filename);
        self.preview_content = Some(content);
        self.show_preview = true;
    }

    pub fn remote_files(&self) -> (r: &[RemoteFile])
        ensures
            r@ == self.remote_files@,
    {
        self.remote_files.as_slice()
    }

    /// The current local directory.
    pub fn current_local_path(&self) -> (r: String)
        ensures
            r@ == self@.local_path,
    {
        self.current_local_path_buf.clone()
    }

    pub fn current_remote_path(&self) -> (r: &str)
        ensures
            r@ == self@.remote_path,
    {
        self.current_remote_path.as_str()
    }

    pub fn is_connected(&self) -> (r: bool)
        ensures
            r == self.is_connected,
    {
        self.is_connected
    }

    pub fn is_remote_focused(&self) -> (r: bool)
        ensures
            r == self.remote_focused,
    {
        self.remote_focused
    }

    pub fn selected_remote_file(&self) -> (r: Option<usize>)
        ensures
            r == self.selected_remote_file,
    {
        self.selected_remote_file
    }

    pub fn selected_local_file(&self) -> (r: Option<usize>)
        ensures
            r == self.selected_local_file,
    {
        self.selected_local_file
    }

    pub fn show_connection_dialog(&self) -> (r: bool)
        ensures
            r == self.show_connection_dialog,
    {
        self.show_connection_dialog
    }

    pub fn connection_dialog(&self) -> (r: &ConnectionDialog)
        ensures
            *r == self.connection_dialog,
    {
        &self.connection_dialog
    }

    pub fn remote_list_state(&mut self) -> (r: &mut ListState)
        ensures
            *r == old(self).remote_list_state,
            *final(self) == (App { remote_list_state: *final(r), ..*old(self) }),
    {
        &mut self.remote_list_state
    }

    pub fn local_list_state(&mut self) -> (r: &mut ListState)
        ensures
            *r == old(self).local_list_state,
            *final(self) == (App { local_list_state: *final(r), ..*old(self) }),
    {
        &mut self.local_list_state
    }

    /// `q` quits unless the connection dialog is open (it types there).
    /// Whether the local entry at `path` is marked.
    pub fn is_marked_local(&self, path: &str) -> (r: bool)
        ensures
            r == self@.marked_local.contains(path@),
    {
        contains_text(&self.marked_local_files, path)
    }

    /// Whether the remote entry at `path` is marked.
    pub fn is_marked_remote(&self, path: &str) -> (r: bool)
        ensures
            r == self@.marked_remote.contains(path@),
    {
        contains_text(&self.marked_remote_files, path)
    }

    /// Whether `key` ends the program, is dropped, or is handled.
    pub fn route_key(&self, key: KeyInput) -> (r: KeyRoute)
        ensures
            r == key_route(self@, key),
    {
        match key.code {
            KeyCode::Char(c) => {
                if c == 'q' || c == 'Q' {
                    if !self.show_connection_dialog {
                        KeyRoute::Quit
                    } else {
                        KeyRoute::Ignore
                    }
                } else if c == 'c' && key.control {
                    if !self.upload_in_progress && !self.download_in_progress {
                        KeyRoute::Quit
                    } else {
                        KeyRoute::Handle
                    }
                } else {
                    KeyRoute::Handle
                }
            },
            KeyCode::Esc => {
                if !self.show_connection_dialog && !self.show_help && !self.show_preview {
                    KeyRoute::Quit
                } else {
                    KeyRoute::Handle
                }
            },
            _ => KeyRoute::Handle,
        }
    }

    pub fn can_quit(&self) -> (r: bool)
        ensures
            r == !self.show_connection_dialog,
    {
        !self.show_connection_dialog
    }

    fn move_remote_selection(&mut self, down: bool)
        requires
            old(self)@.inv(),
        ensures
            final(self)@ == after_remote_move(old(self)@, down),
            final(self)@.inv(),
    {
        let len = self.remote_files.len();
        if len == 0 {
            return;
        }
        let i: usize = if down {
            match self.selected_remote_file {
                Some(x) => x + 1,
                None => 0,
            }
        } else {
            match self.selected_remote_file {
                Some(x) => if x > 0 {
                    x - 1
                } else {
                    0
                },
                None => 0,
            }
        };
        let sel = Some(if i < len - 1 { i } else { len - 1 });
        self.selected_remote_file = sel;
        list_select(&mut self.remote_list_state, sel);
    }

    fn move_local_selection(&mut self, down: bool)
        requires
            old(self)@.inv(),
        ensures
            final(self)@ == after_local_move(old(self)@, down),
            final(self)@.inv(),
    {
        let len = self.local_files.len();
        if len == 0 {
            return;
        }
        let i: usize = if down {
            match self.selected_local_file {
                Some(x) => x + 1,
                None => 0,
            }
        } else {
            match self.selected_local_file {
                Some(x) => if x > 0 {
                    x - 1
                } else {
                    0
                },
                None => 0,
            }
        };
        let sel = Some(if i < len - 1 { i } else { len - 1 });
        self.selected_local_file = sel;
        list_select(&mut self.local_list_state, sel);
    }
}


/// The local entry for the parent directory `p`.
pub open spec fn parent_entry(p: Seq<char>) -> LocalFileView {
    LocalFileView { name: ".."@, path: p, size: None, is_dir: true }
}

/// A name that starts with `.` is hidden.
pub open spec fn is_hidden(name: Seq<char>) -> bool {
    name.len() > 0 && name[0] == '.'
}

/// The local entry for a directory entry: files have a size, other
/// entries none.
pub open spec fn entry_file(e: DirEntryView) -> LocalFileView {
    LocalFileView {
        name: e.name,
        path: e.path,
        size: if e.is_file {
            Some(e.len)
        } else {
            None
        },
        is_dir: e.is_dir,
    }
}

/// The entries that are not hidden, in the order read.
pub open spec fn visible_entries(entries: Seq<DirEntryView>) -> Seq<LocalFileView>
    decreases entries.len(),
{
    if entries.len() == 0 {
        Seq::empty()
    } else {
        let rest = visible_entries(entries.drop_last());
        if is_hidden(entries.last().name) {
            rest
        } else {
            rest.push(entry_file(entries.last()))
        }
    }
}

/// The entries of a local listing before sorting: the parent directory as
/// `..` when there is one, then the entries that are not hidden.
pub open spec fn local_entries(parent: Option<Seq<char>>, entries: Seq<DirEntryView>) -> Seq<
    LocalFileView,
> {
    match parent {
        Some(p) => seq![parent_entry(p)] + visible_entries(entries),
        None => visible_entries(entries),
    }
}

/// How local entries are ordered: `..` first, then directories, then
/// files, each group by lowercase name.
pub open spec fn local_key(f: LocalFileView) -> (u8, Seq<char>) {
    (
        if f.name == ".."@ {
            0u8
        } else if f.is_dir {
            1u8
        } else {
            2u8
        },
        lowercase(f.name),
    )
}

/// `r` is `files` sorted stably by `local_key`.
pub open spec fn sorted_local(files: Seq<LocalFileView>, r: Seq<LocalFileView>) -> bool {
    exists|order: Seq<usize>|
        is_stable_order(files.map_values(|f: LocalFileView| local_key(f)), order) && r == permuted(
            files,
            order,
        )
}

/// The views of a sequence of directory entries.
pub open spec fn entry_views(v: Seq<DirEntryInfo>) -> Seq<DirEntryView> {
    v.map_values(|e: DirEntryInfo| e@)
}

/// `t` is `s` with the local listing `files`, the first entry selected
/// when there is one.
pub open spec fn with_local_listing(s: AppView, t: AppView, files: Seq<LocalFileView>) -> bool {
    let sel = if t.local_files.len() == 0 {
        None
    } else {
        Some(0usize)
    };
    &&& sorted_local(files, t.local_files)
    &&& t == AppView {
        local_files: t.local_files,
        selected_local_file: sel,
        local_list: list_after_select(s.local_list, sel),
        ..s
    }
}

/// The status line after reading a local directory.
pub open spec fn local_refresh_status(reason: LocalRefresh, path: Seq<char>, count: nat) -> Seq<
    char,
> {
    match reason {
        LocalRefresh::Manual => "Refreshed local: "@ + decimal(count) + " files"@,
        LocalRefresh::Entered => "Entered: "@ + path,
        LocalRefresh::Parent => "Local: "@ + path,
    }
}

/// The local entry for a directory entry.
fn local_file_of(e: &DirEntryInfo) -> (r: LocalFile)
    ensures
        r@ == entry_file(e@),
{
    LocalFile {
        name: e.name.clone(),
        path: e.path.clone(),
        size: if e.is_file {
            Some(e.len)
        } else {
            None
        },
        is_dir: e.is_dir,
    }
}

/// The listing entries before sorting.
pub fn collect_local_entries(parent: Option<String>, entries: &Vec<DirEntryInfo>) -> (r: Vec<
    LocalFile,
>)
    ensures
        local_views(r@) == local_entries(opt_view(parent), entry_views(entries@)),
{
    let mut files: Vec<LocalFile> = Vec::new();
    let ghost head: Seq<LocalFileView> = Seq::empty();
    if let Some(p) = parent {
        files.push(LocalFile { name: "..".to_owned(), path: p, size: None, is_dir: true });
        proof {
            head = seq![parent_entry(p@)];
        }
    }
    assert(local_views(files@) =~= head);
    let ghost ev = entry_views(entries@);
    for i in 0..entries.len()
        invariant
            ev == entry_views(entries@),
            local_views(files@) == head + visible_entries(ev.take(i as int)),
            head == match parent {
                Some(p) => seq![parent_entry(p@)],
                None => Seq::<LocalFileView>::empty(),
            },
    {
        assert(ev.take(i + 1).drop_last() == ev.take(i as int));
        assert(ev.take(i + 1).last() == entries@[i as int]@);
        let name = chars_of(entries[i].name.as_str());
        let hidden = name.len() > 0 && name[0] == '.';
        if !hidden {
            let ghost before = local_views(files@);
            let f = local_file_of(&entries[i]);
            files.push(f);
            assert(local_views(files@) =~= before.push(f@));
            assert(head + visible_entries(ev.take(i as int)).push(f@) =~= (head + visible_entries(
                ev.take(i as int),
            )).push(f@));
        }
    }
    assert(ev.take(entries.len() as int) == ev);
    proof {
        if head.len() == 0 {
            assert(head + visible_entries(ev) =~= visible_entries(ev));
        }
    }
    files
}

/// The sort keys of local entries.
fn local_sort_keys(files: &Vec<LocalFile>) -> (keys: Vec<SortKey>)
    ensures
        keys_of(keys@) == local_views(files@).map_values(|f: LocalFileView| local_key(f)),
{
    let mut keys: Vec<SortKey> = Vec::new();
    for i in 0..files.len()
        invariant
            keys_of(keys@) == local_views(files@).take(i as int).map_values(
                |f: LocalFileView| local_key(f),
            ),
    {
        let rank: u8 = if str_eq(files[i].name.as_str(), "..") {
            0
        } else if files[i].is_dir {
            1
        } else {
            2
        };
        let name = lowercase_chars(files[i].name.as_str());
        let ghost before = keys@;
        let key = SortKey { rank, name };
        assert(key_of(key) == local_key(files@[i as int]@));
        keys.push(key);
        assert(keys_of(keys@) =~= keys_of(before).push(key_of(key)));
        assert(local_views(files@).take(i + 1) == local_views(files@).take(i as int).push(
            files@[i as int]@,
        ));
    }
    assert(local_views(files@).take(files.len() as int) == local_views(files@));
    keys
}

/// The entries of `files` taken in the order `order`.
fn arrange_local(files: &Vec<LocalFile>, order: &Vec<usize>) -> (r: Vec<LocalFile>)
    requires
        forall|k: int| 0 <= k < order@.len() ==> #[trigger] order@[k] < files@.len(),
    ensures
        r@ == permuted(files@, order@),
{
    let mut r: Vec<LocalFile> = Vec::new();
    for k in 0..order.len()
        invariant
            forall|k: int| 0 <= k < order@.len() ==> #[trigger] order@[k] < files@.len(),
            r@ == permuted(files@, order@.take(k as int)),
    {
        r.push(files[order[k]].duplicate());
        assert(permuted(files@, order@.take(k + 1)) == permuted(files@, order@.take(k as int)).push(
            files@[order@[k as int] as int],
        ));
    }
    assert(order@.take(order.len() as int) == order@);
    r
}

/// Sorts local entries stably by `local_key`.
pub fn sort_local_files(files: Vec<LocalFile>) -> (r: Vec<LocalFile>)
    ensures
        sorted_local(local_views(files@), local_views(r@)),
{
    let keys = local_sort_keys(&files);
    let order = stable_order(&keys);
    let r = arrange_local(&files, &order);
    let ghost vs = local_views(files@);
    assert(local_views(r@) =~= permuted(vs, order@));
    assert(is_stable_order(vs.map_values(|f: LocalFileView| local_key(f)), order@));
    r
}

impl App {
    /// Lists the current local directory from the entries that reading it
    /// found. Its parent directory, when it has one, comes first as `..`;
    /// hidden entries are left out; then directories come before files,
    /// each by lowercase name; the first entry is selected.
    pub fn refresh_local_files(&mut self, entries: Vec<DirEntryInfo>)
        requires
            old(self)@.inv(),
        ensures
            with_local_listing(
                old(self)@,
                final(self)@,
                local_entries(parent_path(old(self)@.local_path), entry_views(entries@)),
            ),
            final(self)@.inv(),
    {
        let parent = path_parent(self.current_local_path_buf.as_str());
        let files = collect_local_entries(parent, &entries);
        let sorted = sort_local_files(files);
        self.local_files = sorted;
        self.selected_local_file = if self.local_files.len() == 0 {
            None
        } else {
            Some(0)
        };
        list_select(&mut self.local_list_state, self.selected_local_file);
    }

    /// Completes the reading of a local directory: `path` becomes the
    /// current directory, listed from its `entries`, and the status line
    /// reports it.
    pub fn finish_local_refresh(
        &mut self,
        path: String,
        entries: Vec<DirEntryInfo>,
        reason: LocalRefresh,
    )
        requires
            old(self)@.inv(),
        ensures
            with_local_listing(
                AppView {
                    local_path: path@,
                    status_message: final(self)@.status_message,
                    ..old(self)@
                },
                final(self)@,
                local_entries(parent_path(path@), entry_views(entries@)),
            ),
            final(self)@.status_message == local_refresh_status(
                reason,
                path@,
                final(self)@.local_files.len(),
            ),
            final(self)@.inv(),
    {
        self.current_local_path_buf = path;
        self.refresh_local_files(entries);
        let m = match reason {
            LocalRefresh::Manual => {
                let mut m = "Refreshed local: ".to_owned();
                push_decimal(&mut m, self.local_files.len() as u64);
                push_str(&mut m, " files");
                m
            },
            LocalRefresh::Entered => concat2("Entered: ", self.current_local_path_buf.as_str()),
            LocalRefresh::Parent => concat2("Local: ", self.current_local_path_buf.as_str()),
        };
        self.status_message = m;
    }
}


/// Moving the selection in a list that has rows always lands on a row.
pub proof fn lemma_moves_stay_in_range(s: AppView, down: bool)
    ensures
        s.remote_files.len() > 0 ==> (after_remote_move(s, down).selected_remote_file matches Some(
            i,
        ) && i < s.remote_files.len()),
        s.local_files.len() > 0 ==> (after_local_move(s, down).selected_local_file matches Some(i)
            && i < s.local_files.len()),
{
}

/// The key `h` on the main screen.
pub open spec fn help_key() -> KeyInput {
    KeyInput { code: KeyCode::Char('h'), control: false }
}

/// Pressing `h` twice on the main screen leaves the state as it was.
pub proof fn lemma_help_toggles_back(s: AppView)
    requires
        !s.show_connection_dialog,
    ensures
        after_key(after_key(s, help_key()).0, help_key()) == (s, ActionView::Nothing),
{
}

/// Control-C while a transfer runs cancels it: the running transfer is
/// asked to stop, no transfer is in progress afterwards, and the transfer
/// counts as cancelled.
pub proof fn lemma_ctrl_c_cancels_transfer(s: AppView)
    requires
        !s.show_connection_dialog,
        s.upload_in_progress || s.download_in_progress,
    ensures
        ({
            let (t, a) = after_key(s, KeyInput { code: KeyCode::Char('c'), control: true });
            &&& a == ActionView::CancelTransfer
            &&& !t.upload_in_progress
            &&& !t.download_in_progress
            &&& t.transfer_cancelled
        }),
{
}

/// Backspace in the local panel goes to the parent of the current
/// directory and reads it; in a directory without a parent nothing changes.
pub proof fn lemma_local_backspace_goes_to_parent(s: AppView)
    requires
        !s.show_connection_dialog,
        !s.remote_focused,
    ensures
        ({
            let (t, a) = after_key(s, KeyInput { code: KeyCode::Backspace, control: false });
            match parent_path(s.local_path) {
                Some(q) => t.local_path == q && a == ActionView::ReadLocalDir {
                    path: q,
                    reason: LocalRefresh::Parent,
                },
                None => t == s && a == ActionView::Nothing,
            }
        }),
{
}

/// After a local listing, the parent of the current directory, when there
/// is one, is the first entry, `..`.
pub proof fn lemma_parent_entry_is_parent(
    s: AppView,
    t: AppView,
    entries: Seq<DirEntryView>,
    q: Seq<char>,
)
    requires
        with_local_listing(s, t, local_entries(parent_path(s.local_path), entries)),
        parent_path(s.local_path) == Some(q),
    ensures
        t.local_files.len() > 0,
        t.local_files[0] == parent_entry(q),
{
    lemma_local_listing_parent_first(q, entries, t.local_files);
}

/// Esc and `q` end the program from the main screen; Esc first closes an
/// open dialog, help or preview.
pub proof fn lemma_esc_and_q_quit(s: AppView)
    requires
        !s.show_connection_dialog,
        !s.show_help,
        !s.show_preview,
    ensures
        key_route(s, KeyInput { code: KeyCode::Esc, control: false }) == KeyRoute::Quit,
        key_route(s, KeyInput { code: KeyCode::Char('q'), control: false }) == KeyRoute::Quit,
{
}

/// Up and Down move the selection of the focused panel by one row, never
/// past the first or the last row; a panel without a selection gets its
/// first row; the other panel keeps its selection.
pub proof fn lemma_arrows_move_by_one_row(s: AppView)
    requires
        !s.show_connection_dialog,
    ensures
        ({
            let up = after_key(s, KeyInput { code: KeyCode::Up, control: false }).0;
            let down = after_key(s, KeyInput { code: KeyCode::Down, control: false }).0;
            let nl = s.local_files.len();
            let nr = s.remote_files.len();
            &&& !s.remote_focused && nl > 0 ==> match s.selected_local_file {
                Some(i) => i < nl ==> {
                    &&& up.selected_local_file == Some(
                        (if i > 0 {
                            i - 1
                        } else {
                            0
                        }) as usize,
                    )
                    &&& down.selected_local_file == Some(
                        (if i + 1 < nl {
                            i + 1
                        } else {
                            i as int
                        }) as usize,
                    )
                },
                None => up.selected_local_file == Some(0usize) && down.selected_local_file
                    == Some(0usize),
            }
            &&& s.remote_focused && nr > 0 ==> match s.selected_remote_file {
                Some(i) => i < nr ==> {
                    &&& up.selected_remote_file == Some(
                        (if i > 0 {
                            i - 1
                        } else {
                            0
                        }) as usize,
                    )
                    &&& down.selected_remote_file == Some(
                        (if i + 1 < nr {
                            i + 1
                        } else {
                            i as int
                        }) as usize,
                    )
                },
                None => up.selected_remote_file == Some(0usize) && down.selected_remote_file
                    == Some(0usize),
            }
            &&& !s.remote_focused ==> up.selected_remote_file == s.selected_remote_file
                && down.selected_remote_file == s.selected_remote_file
            &&& s.remote_focused ==> up.selected_local_file == s.selected_local_file
                && down.selected_local_file == s.selected_local_file
            &&& up.local_files == s.local_files && down.local_files == s.local_files
            &&& up.remote_files == s.remote_files && down.remote_files == s.remote_files
        }),
{
}

/// In the connection dialog, Up and Down on the protocol field switch the
/// protocol and keep the cursor there; on any other field Down moves the
/// cursor to the next field and Up to the previous one (the five fields
/// wrap around), the protocol unchanged. The texts typed are kept.
pub proof fn lemma_dialog_arrows(s: AppView)
    requires
        s.show_connection_dialog,
        s.dialog.selected_field < 5,
    ensures
        ({
            let up = after_key(s, KeyInput { code: KeyCode::Up, control: false }).0;
            let down = after_key(s, KeyInput { code: KeyCode::Down, control: false }).0;
            let f = s.dialog.selected_field;
            &&& s.dialog.selected_field == 3 ==> {
                &&& up.dialog.protocol != s.dialog.protocol
                &&& down.dialog.protocol != s.dialog.protocol
                &&& up.dialog.selected_field == 3
                &&& down.dialog.selected_field == 3
            }
            &&& s.dialog.selected_field != 3 ==> {
                &&& down.dialog.selected_field == (if f == 4 {
                    0
                } else {
                    f + 1
                })
                &&& up.dialog.selected_field == (if f == 0 {
                    4
                } else {
                    f - 1
                })
                &&& up.dialog.protocol == s.dialog.protocol
                &&& down.dialog.protocol == s.dialog.protocol
            }
            &&& up.show_connection_dialog && down.show_connection_dialog
            &&& up.dialog.server == s.dialog.server && down.dialog.server == s.dialog.server
            &&& up.dialog.username == s.dialog.username && down.dialog.username == s.dialog.username
            &&& up.dialog.password == s.dialog.password && down.dialog.password == s.dialog.password
        }),
{
}

/// The Space key.
pub open spec fn space_key() -> KeyInput {
    KeyInput { code: KeyCode::Char(' '), control: false }
}

/// Space twice on the main screen leaves the state as it was: the second
/// press undoes the mark of the first, and nothing else changes.
pub proof fn lemma_space_twice_restores(s: AppView)
    requires
        !s.show_connection_dialog,
    ensures
        after_key(after_key(s, space_key()).0, space_key()) == (s, ActionView::Nothing),
{
    let t = after_space(s);
    assert(after_key(s, space_key()) == (t, ActionView::Nothing));
    if s.remote_focused {
        if let Some(i) = s.selected_remote_file {
            if i < s.remote_files.len() {
                let p = s.remote_files[i as int].path;
                assert(toggled(toggled(s.marked_remote, p), p) =~= s.marked_remote);
            }
        }
    } else {
        if let Some(i) = s.selected_local_file {
            if i < s.local_files.len() {
                let p = s.local_files[i as int].path;
                assert(toggled(toggled(s.marked_local, p), p) =~= s.marked_local);
            }
        }
    }
}

/// Enter in a completed connection dialog asks to connect with exactly what
/// the dialog holds, and closes the dialog.
pub proof fn lemma_connect_uses_dialog(s: AppView)
    requires
        s.show_connection_dialog,
        s.dialog.server.len() > 0,
        s.dialog.username.len() > 0,
        s.dialog.password.len() > 0,
    ensures
        ({
            let (t, a) = after_key(s, KeyInput { code: KeyCode::Enter, control: false });
            &&& !t.show_connection_dialog
            &&& a == ActionView::Connect {
                server: s.dialog.server,
                username: s.dialog.username,
                password: s.dialog.password,
                protocol: s.dialog.protocol,
            }
        }),
{
}

/// A finished or failed transfer leaves no transfer in progress.
pub proof fn lemma_transfer_end_clears_progress(s: AppView, f: Seq<char>)
    ensures
        !after_event(s, EventView::TransferCompleted(f)).0.upload_in_progress,
        !after_event(s, EventView::TransferCompleted(f)).0.download_in_progress,
        after_event(s, EventView::TransferCompleted(f)).0.transfer_progress is None,
        !after_event(s, EventView::FtpError(f)).0.upload_in_progress,
        !after_event(s, EventView::FtpError(f)).0.download_in_progress,
{
}

proof fn lemma_visible_entries_origin(entries: Seq<DirEntryView>, k: int)
    requires
        0 <= k < visible_entries(entries).len(),
    ensures
        exists|i: int|
            0 <= i < entries.len() && !is_hidden(entries[i].name) && visible_entries(entries)[k]
                == entry_file(#[trigger] entries[i]),
    decreases entries.len(),
{
    let rest = visible_entries(entries.drop_last());
    if k < rest.len() {
        lemma_visible_entries_origin(entries.drop_last(), k);
        let i = choose|i: int|
            0 <= i < entries.drop_last().len() && !is_hidden(entries.drop_last()[i].name) && rest[k]
                == entry_file(#[trigger] entries.drop_last()[i]);
        assert(entries[i] == entries.drop_last()[i]);
    } else {
        assert(entries[entries.len() - 1] == entries.last());
    }
}

/// Every entry of a local listing that is not the parent is a visible
/// directory entry: hidden entries never show.
pub proof fn lemma_local_listing_hides_dotfiles(
    parent: Option<Seq<char>>,
    entries: Seq<DirEntryView>,
    r: Seq<LocalFileView>,
    k: int,
)
    requires
        sorted_local(local_entries(parent, entries), r),
        0 <= k < r.len(),
    ensures
        (parent matches Some(p) && r[k] == parent_entry(p)) || (exists|i: int|
            0 <= i < entries.len() && !is_hidden(entries[i].name) && r[k] == entry_file(
                #[trigger] entries[i],
            )),
{
    let files = local_entries(parent, entries);
    let keys = files.map_values(|f: LocalFileView| local_key(f));
    let order = choose|order: Seq<usize>| is_stable_order(keys, order) && r == permuted(files, order);
    let j = order[k] as int;
    assert(r[k] == files[j]);
    let vis = visible_entries(entries);
    match parent {
        Some(p) => {
            if j > 0 {
                assert(files[j] == vis[j - 1]);
                lemma_visible_entries_origin(entries, j - 1);
            }
        },
        None => {
            lemma_visible_entries_origin(entries, j);
        },
    }
}

/// When the directory has a parent, the listing starts with it as `..`.
pub proof fn lemma_local_listing_parent_first(
    p: Seq<char>,
    entries: Seq<DirEntryView>,
    r: Seq<LocalFileView>,
)
    requires
        sorted_local(local_entries(Some(p), entries), r),
    ensures
        r.len() > 0,
        r[0] == parent_entry(p),
{
    let files = local_entries(Some(p), entries);
    let keys = files.map_values(|f: LocalFileView| local_key(f));
    let order = choose|order: Seq<usize>| is_stable_order(keys, order) && r == permuted(files, order);
    assert(files[0] == parent_entry(p));
    assert(appears(order, 0usize));
    let a = choose|a: int| 0 <= a < order.len() && #[trigger] order[a] == 0usize;
    if order[0] != 0 {
        let j = order[0] as int;
        assert(key_le(keys[j], keys[0]));
        lemma_local_listing_hides_dotfiles(Some(p), entries, r, 0);
        if r[0] != parent_entry(p) {
            let i = choose|i: int|
                0 <= i < entries.len() && !is_hidden(entries[i].name) && r[0] == entry_file(
                    #[trigger] entries[i],
                );
            assert(r[0].name != ".."@) by {
                if r[0].name == ".."@ {
                    assert(entries[i].name[0] == '.');
                }
            }
        }
        assert(r[0] == files[j]);
        assert(order[a] == 0);
        assert(r[a] == files[0]);
        assert(a > 0);
        assert(key_le(keys[order[0] as int], keys[order[a] as int]));
        assert(key_le(keys[order[a] as int], keys[order[0] as int]));
    }
    assert(r[0] == files[order[0] as int]);
}

} // verus!
