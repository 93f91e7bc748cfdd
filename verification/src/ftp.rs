//! The FTP side of the client: protocols, remote file entries, transfer
//! progress, errors, and the parsers for directory listings that servers
//! send in Unix (`ls -l`) or DOS/IIS form.

use vstd::prelude::*;
use std::sync::atomic::{AtomicBool, Ordering};
use std::sync::Arc;
use crate::order::{is_stable_order, key_le, key_of, keys_of, stable_order, SortKey};
use crate::text::{
    file_name_of, is_named_segment, scan_path,
    concat2, contains_char,
    lowercase, lowercase_chars,
    char_seqs, chars_of, join_from, join_words, parse_decimal_u64, parse_u64, push_chars, push_str,
    split_words, string_from_chars, string_push, words,
};

verus! {

/// The two protocols the client speaks.
#[derive(Clone, Copy, Debug, PartialEq, Eq, Structural)]
pub enum ProtocolType {
    /// Plain FTP.
    Ftp,
    /// FTP upgraded to TLS with `AUTH TLS` (explicit FTPS).
    Ftps,
}

impl Default for ProtocolType {
    fn default() -> (r: Self)
        ensures
            r == ProtocolType::Ftp,
    {
        ProtocolType::Ftp
    }
}

/// Errors of FTP operations.
#[derive(Debug)]
pub enum FtpManagerError {
    ConnectionError(String),
    NotConnected,
    InvalidPath(String),
    ConnectionFailed(String),
    AuthFailed(String),
    OperationFailed(String),
    Cancelled,
    /// A local I/O failure, by its message.
    IoError(String),
}

/// One entry of a remote directory listing.
#[derive(Debug, Clone)]
pub struct RemoteFile {
    pub name: String,
    pub path: String,
    pub size: Option<u64>,
    pub is_dir: bool,
    pub modified: Option<String>,
    pub permissions: Option<String>,
}

/// A remote entry as values.
pub struct RemoteFileView {
    pub name: Seq<char>,
    pub path: Seq<char>,
    pub size: Option<u64>,
    pub is_dir: bool,
    pub modified: Option<Seq<char>>,
    pub permissions: Option<Seq<char>>,
}

/// The characters of an optional string.
pub open spec fn opt_chars(o: Option<String>) -> Option<Seq<char>> {
    match o {
        Some(s) => Some(s@),
        None => None,
    }
}

impl View for RemoteFile {
    type V = RemoteFileView;

    open spec fn view(&self) -> RemoteFileView {
        RemoteFileView {
            name: self.name@,
            path: self.path@,
            size: self.size,
            is_dir: self.is_dir,
            modified: opt_chars(self.modified),
            permissions: opt_chars(self.permissions),
        }
    }
}

/// The view of an optional remote entry.
pub open spec fn opt_remote_view(o: Option<RemoteFile>) -> Option<RemoteFileView> {
    match o {
        Some(f) => Some(f@),
        None => None,
    }
}

/// Copies an optional string.
pub fn copy_opt_string(o: &Option<String>) -> (r: Option<String>)
    ensures
        r == *o,
{
    match o {
        Some(s) => Some(s.clone()),
        None => None,
    }
}

impl RemoteFile {
    /// A copy of this entry, equal to it.
    pub fn duplicate(&self) -> (r: RemoteFile)
        ensures
            r == *self,
    {
        RemoteFile {
            name: self.name.clone(),
            path: self.path.clone(),
            size: self.size,
            is_dir: self.is_dir,
            modified: copy_opt_string(&self.modified),
            permissions: copy_opt_string(&self.permissions),
        }
    }
}

/// Progress of a running transfer.
#[derive(Debug, Clone)]
pub struct TransferProgress {
    pub filename: String,
    pub total_bytes: u64,
    pub transferred_bytes: u64,
    pub percentage: u32,
}

/// A progress report as values.
pub struct TransferProgressView {
    pub filename: Seq<char>,
    pub total_bytes: u64,
    pub transferred_bytes: u64,
    pub percentage: u32,
}

impl View for TransferProgress {
    type V = TransferProgressView;

    open spec fn view(&self) -> TransferProgressView {
        TransferProgressView {
            filename: self.filename@,
            total_bytes: self.total_bytes,
            transferred_bytes: self.transferred_bytes,
            percentage: self.percentage,
        }
    }
}

impl TransferProgress {
    /// A copy of this report, equal to it.
    pub fn duplicate(&self) -> (r: TransferProgress)
        ensures
            r == *self,
    {
        TransferProgress {
            filename: self.filename.clone(),
            total_bytes: self.total_bytes,
            transferred_bytes: self.transferred_bytes,
            percentage: self.percentage,
        }
    }
}

/// The path of the entry `name` inside the remote directory `dir`.
pub open spec fn child_path(dir: Seq<char>, name: Seq<char>) -> Seq<char> {
    if dir.len() > 0 && dir.last() == '/' {
        dir + name
    } else {
        dir + seq!['/'] + name
    }
}

/// The names `.` and `..`, which listings leave out.
pub open spec fn is_dot_entry(name: Seq<char>) -> bool {
    name == seq!['.'] || name == seq!['.', '.']
}

/// The entry that a Unix listing line describes, such as
/// `drwxr-xr-x 2 user group 4096 Jan 01 12:00 name`: at least nine words,
/// the name being the ninth word and all after it, joined by single spaces.
pub open spec fn unix_entry(dir: Seq<char>, line: Seq<char>) -> Option<RemoteFileView> {
    let p = words(line);
    if p.len() < 9 {
        None
    } else {
        let name = join_words(p.skip(8));
        if is_dot_entry(name) {
            None
        } else {
            Some(
                RemoteFileView {
                    name: name,
                    path: child_path(dir, name),
                    size: Some(
                        match parse_u64(p[4]) {
                            Some(v) => v,
                            None => 0,
                        },
                    ),
                    is_dir: p[0].len() > 0 && p[0][0] == 'd',
                    modified: Some(p[5] + seq![' '] + p[6] + seq![' '] + p[7]),
                    permissions: Some(p[0]),
                },
            )
        }
    }
}

/// The marker of a directory in a DOS listing.
pub open spec fn dir_marker() -> Seq<char> {
    seq!['<', 'D', 'I', 'R', '>']
}

/// The entry that a DOS listing line describes, such as
/// `01-15-26 03:30PM <DIR> name` or `01-15-26 03:30PM 54321 name`: at least
/// four words, the name being the fourth word and all after it.
pub open spec fn dos_entry(dir: Seq<char>, line: Seq<char>) -> Option<RemoteFileView> {
    let p = words(line);
    if p.len() < 4 {
        None
    } else {
        let is_dir = p[2] == dir_marker();
        let name = join_words(p.skip(3));
        if is_dot_entry(name) {
            None
        } else {
            Some(
                RemoteFileView {
                    name: name,
                    path: child_path(dir, name),
                    size: Some(
                        if is_dir {
                            0
                        } else {
                            match parse_u64(p[2]) {
                                Some(v) => v,
                                None => 0,
                            }
                        },
                    ),
                    is_dir: is_dir,
                    modified: Some(p[0] + seq![' '] + p[1]),
                    permissions: None,
                },
            )
        }
    }
}

/// A Unix listing line for `.` or `..`: nine words or more, the name
/// (ninth word on) being a dot name.
pub open spec fn unix_dot_line(line: Seq<char>) -> bool {
    let p = words(line);
    p.len() >= 9 && is_dot_entry(join_words(p.skip(8)))
}

/// The entry a listing line describes: none for a Unix line for `.` or
/// `..`; otherwise the line read as Unix first, then as DOS.
pub open spec fn listing_entry(dir: Seq<char>, line: Seq<char>) -> Option<RemoteFileView> {
    if unix_dot_line(line) {
        None
    } else {
        match unix_entry(dir, line) {
            Some(f) => Some(f),
            None => dos_entry(dir, line),
        }
    }
}

/// The message of a line that no parser reads.
pub open spec fn unparsable_message(line: Seq<char>) -> Seq<char> {
    "Could not parse listing: "@ + line
}

/// Whether the characters `v` spell `.` or `..`.
fn is_dot_name(v: &Vec<char>) -> (b: bool)
    ensures
        b == is_dot_entry(v@),
{
    if v.len() == 1 {
        assert(v@ =~= seq!['.'] <==> v@[0] == '.');
        v[0] == '.'
    } else if v.len() == 2 {
        assert(v@ =~= seq!['.', '.'] <==> (v@[0] == '.' && v@[1] == '.'));
        v[0] == '.' && v[1] == '.'
    } else {
        false
    }
}

/// Whether `listing` is a Unix listing line for `.` or `..`.
fn is_unix_dot_line(listing: &str) -> (b: bool)
    ensures
        b == unix_dot_line(listing@),
{
    let line = chars_of(listing);
    let parts = split_words(&line);
    proof {
        assert(char_seqs(parts@) == words(listing@));
    }
    if parts.len() < 9 {
        return false;
    }
    let name_string = join_from(&parts, 8);
    let name = chars_of(name_string.as_str());
    is_dot_name(&name)
}

/// The path of `name` inside the remote directory `dir`.
pub fn child_path_string(dir: &str, name: &Vec<char>) -> (r: String)
    ensures
        r@ == child_path(dir@, name@),
{
    let d = chars_of(dir);
    let mut r = string_from_chars(&d);
    if !(d.len() > 0 && d[d.len() - 1] == '/') {
        string_push(&mut r, '/');
    }
    push_chars(&mut r, name);
    r
}

/// `a`, a space, then `b`.
fn spaced(a: &Vec<char>, b: &Vec<char>) -> (r: String)
    ensures
        r@ == a@ + seq![' '] + b@,
{
    let mut r = string_from_chars(a);
    string_push(&mut r, ' ');
    push_chars(&mut r, b);
    r
}

/// Reads one line of a Unix listing, in the remote directory `current_path`.
pub fn parse_unix_listing(current_path: &str, listing: &str) -> (r: Option<RemoteFile>)
    ensures
        opt_remote_view(r) == unix_entry(current_path@, listing@),
{
    let line = chars_of(listing);
    let parts = split_words(&line);
    proof {
        assert(char_seqs(parts@) == words(listing@));
    }
    if parts.len() < 9 {
        return None;
    }
    let ghost p = words(listing@);
    assert(p[0] == parts@[0]@ && p[4] == parts@[4]@ && p[5] == parts@[5]@);
    assert(p[6] == parts@[6]@ && p[7] == parts@[7]@);
    let perms = &parts[0];
    let is_dir = perms.len() > 0 && perms[0] == 'd';
    let size: u64 = match parse_decimal_u64(&parts[4]) {
        Some(v) => v,
        None => 0,
    };
    let name_string = join_from(&parts, 8);
    let name = chars_of(name_string.as_str());
    if is_dot_name(&name) {
        return None;
    }
    let mut modified = spaced(&parts[5], &parts[6]);
    string_push(&mut modified, ' ');
    push_chars(&mut modified, &parts[7]);
    let path = child_path_string(current_path, &name);
    let permissions = string_from_chars(perms);
    assert(name@ == join_words(p.skip(8)));
    assert(modified@ == p[5] + seq![' '] + p[6] + seq![' '] + p[7]);
    assert(permissions@ == p[0]);
    assert(size == match parse_u64(p[4]) { Some(v) => v, None => 0 });
    assert(is_dir == (p[0].len() > 0 && p[0][0] == 'd'));
    Some(
        RemoteFile {
            name: name_string,
            path: path,
            size: Some(size),
            is_dir: is_dir,
            modified: Some(modified),
            permissions: Some(permissions),
        },
    )
}

/// Reads one line of a DOS listing, in the remote directory `current_path`.
pub fn parse_dos_listing(current_path: &str, listing: &str) -> (r: Option<RemoteFile>)
    ensures
        opt_remote_view(r) == dos_entry(current_path@, listing@),
{
    let line = chars_of(listing);
    let parts = split_words(&line);
    proof {
        assert(char_seqs(parts@) == words(listing@));
    }
    if parts.len() < 4 {
        return None;
    }
    let ghost p = words(listing@);
    assert(p[0] == parts@[0]@ && p[1] == parts@[1]@ && p[2] == parts@[2]@);
    let marker = &parts[2];
    let is_dir = marker.len() == 5 && marker[0] == '<' && marker[1] == 'D' && marker[2] == 'I'
        && marker[3] == 'R' && marker[4] == '>';
    assert(is_dir ==> p[2] =~= dir_marker());
    assert(p[2] =~= dir_marker() ==> is_dir) by {
        if p[2] =~= dir_marker() {
            assert(p[2][0] == '<' && p[2][1] == 'D' && p[2][2] == 'I' && p[2][3] == 'R' && p[2][4]
                == '>');
        }
    }
    let size: u64 = if is_dir {
        0
    } else {
        match parse_decimal_u64(marker) {
            Some(v) => v,
            None => 0,
        }
    };
    let name_string = join_from(&parts, 3);
    let name = chars_of(name_string.as_str());
    if is_dot_name(&name) {
        return None;
    }
    let modified = spaced(&parts[0], &parts[1]);
    let path = child_path_string(current_path, &name);
    Some(
        RemoteFile {
            name: name_string,
            path: path,
            size: Some(size),
            is_dir: is_dir,
            modified: Some(modified),
            permissions: None,
        },
    )
}

/// Reads one listing line, trying the Unix form first and the DOS form
/// second; a line that neither reads gives an error message.
pub fn parse_ftp_listing(current_path: &str, listing: &str) -> (r: Result<RemoteFile, String>)
    ensures
        match r {
            Ok(f) => listing_entry(current_path@, listing@) == Some(f@),
            Err(m) => listing_entry(current_path@, listing@) is None && m@ == unparsable_message(
                listing@,
            ),
        },
{
    if is_unix_dot_line(listing) {
        return Err(concat2("Could not parse listing: ", listing));
    }
    if let Some(f) = parse_unix_listing(current_path, listing) {
        return Ok(f);
    }
    if let Some(f) = parse_dos_listing(current_path, listing) {
        return Ok(f);
    }
    let mut m = String::new();
    push_str(&mut m, "Could not parse listing: ");
    push_str(&mut m, listing);
    Err(m)
}


/// The characters of each string.
pub open spec fn string_views(v: Seq<String>) -> Seq<Seq<char>> {
    v.map_values(|x: String| x@)
}

/// The views of a sequence of remote entries.
pub open spec fn remote_views(v: Seq<RemoteFile>) -> Seq<RemoteFileView> {
    v.map_values(|f: RemoteFile| f@)
}

/// The entries that the listing `lines` describe, in listing order; lines
/// that no parser reads are left out.
pub open spec fn listed_entries(dir: Seq<char>, lines: Seq<Seq<char>>) -> Seq<RemoteFileView>
    decreases lines.len(),
{
    if lines.len() == 0 {
        Seq::empty()
    } else {
        let rest = listed_entries(dir, lines.drop_last());
        match listing_entry(dir, lines.last()) {
            Some(f) => rest.push(f),
            None => rest,
        }
    }
}

/// How remote entries are ordered: directories first, then by lowercase
/// name.
pub open spec fn remote_key(f: RemoteFileView) -> (u8, Seq<char>) {
    (
        if f.is_dir {
            0u8
        } else {
            1u8
        },
        lowercase(f.name),
    )
}

/// `items` rearranged so that position `k` holds `items[order[k]]`.
pub open spec fn permuted<T>(items: Seq<T>, order: Seq<usize>) -> Seq<T> {
    order.map_values(|j: usize| items[j as int])
}

/// `r` is `files` sorted stably: directories first, then by lowercase name.
pub open spec fn sorted_remote(files: Seq<RemoteFileView>, r: Seq<RemoteFileView>) -> bool {
    exists|order: Seq<usize>|
        is_stable_order(files.map_values(|f: RemoteFileView| remote_key(f)), order) && r
            == permuted(files, order)
}

/// Parses each listing line in the remote directory `current_path`,
/// keeping the entries that parse.
pub fn parse_listing_lines(current_path: &str, lines: &Vec<String>) -> (r: Vec<RemoteFile>)
    ensures
        remote_views(r@) == listed_entries(current_path@, string_views(lines@)),
{
    let ghost ls = string_views(lines@);
    let mut files: Vec<RemoteFile> = Vec::new();
    for i in 0..lines.len()
        invariant
            ls == string_views(lines@),
            remote_views(files@) == listed_entries(current_path@, ls.take(i as int)),
    {
        assert(ls.take(i + 1).drop_last() == ls.take(i as int));
        assert(ls.take(i + 1).last() == lines@[i as int]@);
        match parse_ftp_listing(current_path, lines[i].as_str()) {
            Ok(f) => {
                files.push(f);
                assert(remote_views(files@) == listed_entries(current_path@, ls.take(i + 1)));
            },
            Err(_) => {},
        }
    }
    assert(ls.take(lines.len() as int) == ls);
    files
}

/// The sort keys of remote entries.
pub fn remote_sort_keys(files: &Vec<RemoteFile>) -> (keys: Vec<SortKey>)
    ensures
        keys_of(keys@) == remote_views(files@).map_values(|f: RemoteFileView| remote_key(f)),
{
    let mut keys: Vec<SortKey> = Vec::new();
    for i in 0..files.len()
        invariant
            keys_of(keys@) == remote_views(files@).take(i as int).map_values(
                |f: RemoteFileView| remote_key(f),
            ),
    {
        let rank: u8 = if files[i].is_dir { 0 } else { 1 };
        let name = lowercase_chars(files[i].name.as_str());
        let ghost before = keys@;
        let key = SortKey { rank, name };
        assert(key_of(key) == remote_key(files@[i as int]@));
        keys.push(key);
        assert(keys_of(keys@) =~= keys_of(before).push(key_of(key)));
        assert(remote_views(files@).take(i + 1) == remote_views(files@).take(i as int).push(
            files@[i as int]@,
        ));
    }
    assert(remote_views(files@).take(files.len() as int) == remote_views(files@));
    keys
}

/// The entries of `files` taken in the order `order`.
pub fn arrange_remote(files: &Vec<RemoteFile>, order: &Vec<usize>) -> (r: Vec<RemoteFile>)
    requires
        forall|k: int| 0 <= k < order@.len() ==> #[trigger] order@[k] < files@.len(),
    ensures
        r@ == permuted(files@, order@),
{
    let mut r: Vec<RemoteFile> = Vec::new();
    for k in 0..order.len()
        invariant
            forall|k: int| 0 <= k < order@.len() ==> #[trigger] order@[k] < files@.len(),
            r@ == permuted(files@, order@.take(k as int)),
    {
        r.push(files[order[k]].duplicate());
        assert(permuted(files@, order@.take(k + 1)) == permuted(files@, order@.take(k as int)).push(
            files@[order@[k as int] as int],
        ));
    }
    assert(order@.take(order.len() as int) == order@);
    r
}

/// Sorts remote entries stably: directories first, then by lowercase name.
pub fn sort_remote_files(files: Vec<RemoteFile>) -> (r: Vec<RemoteFile>)
    ensures
        sorted_remote(remote_views(files@), remote_views(r@)),
{
    let keys = remote_sort_keys(&files);
    let order = stable_order(&keys);
    let r = arrange_remote(&files, &order);
    let ghost vs = remote_views(files@);
    assert(remote_views(r@) == permuted(vs, order@));
    assert(is_stable_order(vs.map_values(|f: RemoteFileView| remote_key(f)), order@));
    r
}

/// The entries of a directory listing as `list_files` reports them: each
/// line parsed in the remote directory `current_path`, unreadable lines
/// left out, directories first, then by lowercase name.
pub fn build_listing(current_path: &str, lines: &Vec<String>) -> (r: Vec<RemoteFile>)
    ensures
        sorted_remote(listed_entries(current_path@, string_views(lines@)), remote_views(r@)),
{
    let files = parse_listing_lines(current_path, lines);
    sort_remote_files(files)
}


/// The address to dial for `server`: itself when it names a port (holds a
/// `:`), else `server:21`.
pub open spec fn dial_address(server: Seq<char>) -> Seq<char> {
    if server.contains(':') {
        server
    } else {
        server + ":21"@
    }
}

/// The address to dial for `server`.
pub fn connection_address(server: &str) -> (r: String)
    ensures
        r@ == dial_address(server@),
{
    if contains_char(server, ':') {
        server.to_owned()
    } else {
        concat2(server, ":21")
    }
}

/// The part of `s` before its first `:`, all of `s` when it has none.
pub open spec fn before_colon(s: Seq<char>) -> Seq<char>
    decreases s.len(),
{
    if s.len() == 0 {
        s
    } else if s[0] == ':' {
        Seq::empty()
    } else {
        seq![s[0]] + before_colon(s.drop_first())
    }
}

/// The stages of opening a session: dialing the server (with TLS for
/// FTPS), logging in, and listing the remote directory.
#[derive(Clone, Copy, Debug, PartialEq, Eq, Structural)]
pub enum SessionStage {
    Dial,
    Login,
    List,
}

/// What follows a stage of opening a session.
#[derive(Debug)]
pub enum SessionNext {
    /// Go on with this stage.
    Next(SessionStage),
    /// The session is open and listed: report it connected, then report
    /// the listing.
    Connected,
    /// Report this error and stop.
    Failed(String),
}

/// What follows a stage of opening a session, as values.
pub enum SessionNextView {
    Next(SessionStage),
    Connected,
    Failed(Seq<char>),
}

impl View for SessionNext {
    type V = SessionNextView;

    open spec fn view(&self) -> SessionNextView {
        match self {
            SessionNext::Next(t) => SessionNextView::Next(*t),
            SessionNext::Connected => SessionNextView::Connected,
            SessionNext::Failed(m) => SessionNextView::Failed(m@),
        }
    }
}

/// The stages run in order while they succeed; a failed dial or login is
/// reported as a failed connection, a failed listing as such.
pub open spec fn session_next(stage: SessionStage, ok: bool, error_text: Seq<char>) -> SessionNextView {
    match stage {
        SessionStage::Dial => if ok {
            SessionNextView::Next(SessionStage::Login)
        } else {
            SessionNextView::Failed("Connection failed: "@ + error_text)
        },
        SessionStage::Login => if ok {
            SessionNextView::Next(SessionStage::List)
        } else {
            SessionNextView::Failed("Connection failed: "@ + error_text)
        },
        SessionStage::List => if ok {
            SessionNextView::Connected
        } else {
            SessionNextView::Failed("Failed to list files: "@ + error_text)
        },
    }
}

/// Decides what follows `stage` of opening a session, which succeeded
/// (`ok`) or failed with `error_text`.
pub fn after_session_stage(stage: SessionStage, ok: bool, error_text: &str) -> (r: SessionNext)
    ensures
        r@ == session_next(stage, ok, error_text@),
{
    match stage {
        SessionStage::Dial => if ok {
            SessionNext::Next(SessionStage::Login)
        } else {
            SessionNext::Failed(concat2("Connection failed: ", error_text))
        },
        SessionStage::Login => if ok {
            SessionNext::Next(SessionStage::List)
        } else {
            SessionNext::Failed(concat2("Connection failed: ", error_text))
        },
        SessionStage::List => if ok {
            SessionNext::Connected
        } else {
            SessionNext::Failed(concat2("Failed to list files: ", error_text))
        },
    }
}

/// How to dial `server` for `protocol`: plain for FTP; with TLS for FTPS,
/// the certificate checked against the server's host name.
pub fn tls_target(server: &str, protocol: ProtocolType) -> (r: Option<String>)
    ensures
        match protocol {
            ProtocolType::Ftp => r is None,
            ProtocolType::Ftps => r matches Some(h) && h@ == before_colon(server@),
        },
{
    match protocol {
        ProtocolType::Ftp => None,
        ProtocolType::Ftps => Some(tls_hostname(server)),
    }
}

/// Opening a session runs dial, login and listing in that order and only
/// while they succeed: a failed stage always ends in a failure that reports
/// its error, a successful stage before the listing leads to the next
/// stage, and the session counts as connected only after a successful
/// listing.
pub proof fn lemma_session_stages_in_order(stage: SessionStage, ok: bool, error_text: Seq<char>)
    ensures
        !ok ==> (session_next(stage, ok, error_text) matches SessionNextView::Failed(m)
            && m.len() >= error_text.len() && m.subrange(
            m.len() - error_text.len(),
            m.len() as int,
        ) == error_text),
        (session_next(stage, ok, error_text) is Connected) <==> (ok && stage == SessionStage::List),
        ok && stage == SessionStage::Dial ==> session_next(stage, ok, error_text)
            == SessionNextView::Next(SessionStage::Login),
        ok && stage == SessionStage::Login ==> session_next(stage, ok, error_text)
            == SessionNextView::Next(SessionStage::List),
{
    if !ok {
        let m = session_next(stage, ok, error_text)->Failed_0;
        let pre = m.subrange(0, m.len() - error_text.len());
        assert(m.subrange(m.len() - error_text.len(), m.len() as int) =~= error_text);
    }
}

/// The host name to check a server's TLS certificate against: the server
/// address without its port.
pub fn tls_hostname(server: &str) -> (r: String)
    ensures
        r@ == before_colon(server@),
{
    let v = chars_of(server);
    let mut i: usize = 0;
    while i < v.len() && v[i] != ':'
        invariant
            v@ == server@,
            i <= v@.len(),
            forall|k: int| 0 <= k < i ==> v@[k] != ':',
        decreases v.len() - i,
    {
        i = i + 1;
    }
    proof {
        lemma_before_colon(v@, i as int);
    }
    let mut out: Vec<char> = Vec::new();
    for k in 0..i
        invariant
            i <= v@.len(),
            out@ == v@.take(k as int),
    {
        out.push(v[k]);
        assert(v@.take(k + 1) == v@.take(k as int).push(v@[k as int]));
    }
    string_from_chars(&out)
}

proof fn lemma_before_colon(s: Seq<char>, i: int)
    requires
        0 <= i <= s.len(),
        forall|k: int| 0 <= k < i ==> s[k] != ':',
        i == s.len() || s[i] == ':',
    ensures
        before_colon(s) == s.take(i),
    decreases s.len(),
{
    if s.len() > 0 && s[0] != ':' {
        lemma_before_colon(s.drop_first(), i - 1);
        assert(s.take(i) == seq![s[0]] + s.drop_first().take(i - 1));
    } else if s.len() == 0 {
        assert(s.take(i) == s);
    } else {
        assert(s.take(i) =~= Seq::<char>::empty());
    }
}

/// The session state as values.
pub struct FtpManagerView {
    pub connected: bool,
    pub current_path: Seq<char>,
    pub server: Option<Seq<char>>,
    pub username: Option<Seq<char>>,
    pub protocol: ProtocolType,
}

/// The state of an FTP session over connections of type `S`: the open
/// connection (if any), where it is, to which server, as which user, with
/// which protocol, and a flag that asks running transfers to stop.
pub struct FtpManager<S = ()> {
    /// The open control connection.
    pub stream: Option<S>,
    current_path: String,
    server: Option<String>,
    username: Option<String>,
    protocol: ProtocolType,
    /// Shared cancellation flag: set to stop active transfers.
    pub cancelled: Arc<AtomicBool>,
}

impl<S> View for FtpManager<S> {
    type V = FtpManagerView;

    closed spec fn view(&self) -> FtpManagerView {
        FtpManagerView {
            connected: self.stream is Some,
            current_path: self.current_path@,
            server: opt_chars(self.server),
            username: opt_chars(self.username),
            protocol: self.protocol,
        }
    }
}

impl<S> FtpManager<S> {
    /// Not connected, at `/`, plain FTP.
    pub fn new() -> (r: Self)
        ensures
            r@ == (FtpManagerView {
                connected: false,
                current_path: "/"@,
                server: None,
                username: None,
                protocol: ProtocolType::Ftp,
            }),
    {
        FtpManager {
            stream: None,
            current_path: "/".to_owned(),
            server: None,
            username: None,
            protocol: ProtocolType::Ftp,
            cancelled: Arc::new(AtomicBool::new(false)),
        }
    }

    /// Asks active transfers to stop.
    pub fn cancel(&self) {
        self.cancelled.store(true, Ordering::Relaxed);
    }

    /// Clears the request to stop, before a new transfer.
    pub fn reset_cancel(&self) {
        self.cancelled.store(false, Ordering::Relaxed);
    }

    /// Whether transfers were asked to stop. Other threads may set or clear
    /// the flag at any time.
    pub fn is_cancelled(&self) -> bool {
        self.cancelled.load(Ordering::Relaxed)
    }

    /// Records the start of a connection to `server` with `protocol` and
    /// returns the address to dial. The server and protocol stay recorded
    /// even when dialing fails.
    pub fn begin_connect(&mut self, server: &str, protocol: ProtocolType) -> (address: String)
        ensures
            address@ == dial_address(server@),
            final(self)@ == (FtpManagerView {
                server: Some(server@),
                protocol: protocol,
                ..old(self)@
            }),
    {
        self.server = Some(server.to_owned());
        self.protocol = protocol;
        connection_address(server)
    }

    /// The connection is open.
    pub fn attach(&mut self, stream: S)
        ensures
            final(self)@ == (FtpManagerView { connected: true, ..old(self)@ }),
    {
        self.stream = Some(stream);
    }

    /// Records the user logging in, before the login is sent: it fails with
    /// `NotConnected` when no connection is open, the user being recorded
    /// either way.
    pub fn begin_login(&mut self, username: &str) -> (r: Result<(), FtpManagerError>)
        ensures
            final(self)@ == (FtpManagerView { username: Some(username@), ..old(self)@ }),
            r is Ok <==> old(self)@.connected,
            r matches Err(e) ==> e is NotConnected,
    {
        self.username = Some(username.to_owned());
        if self.stream.is_some() {
            Ok(())
        } else {
            Err(FtpManagerError::NotConnected)
        }
    }

    /// A connection is open, or the error `NotConnected`.
    pub fn require_connection(&self) -> (r: Result<(), FtpManagerError>)
        ensures
            r is Ok <==> self@.connected,
            r matches Err(e) ==> e is NotConnected,
    {
        if self.stream.is_some() {
            Ok(())
        } else {
            Err(FtpManagerError::NotConnected)
        }
    }

    /// Records the working directory the server reported.
    pub fn set_current_path(&mut self, path: String)
        ensures
            final(self)@ == (FtpManagerView { current_path: path@, ..old(self)@ }),
    {
        self.current_path = path;
    }

    /// Closes the session: hands back the open connection (to be quit) and
    /// forgets the server and user; the path returns to `/`. The protocol
    /// stays.
    pub fn disconnect(&mut self) -> (r: Option<S>)
        ensures
            r is Some <==> old(self)@.connected,
            final(self)@ == (FtpManagerView {
                connected: false,
                current_path: "/"@,
                server: None,
                username: None,
                protocol: old(self)@.protocol,
            }),
    {
        let r = self.stream.take();
        self.server = None;
        self.username = None;
        self.current_path = "/".to_owned();
        r
    }

    /// The entries of a listing of the current directory, as `list_files`
    /// reports them: parsed, unreadable lines left out, directories first,
    /// then by lowercase name.
    pub fn listing(&self, lines: &Vec<String>) -> (r: Vec<RemoteFile>)
        ensures
            sorted_remote(listed_entries(self@.current_path, string_views(lines@)), remote_views(r@)),
    {
        build_listing(self.current_path.as_str(), lines)
    }

    /// Reads one listing line in the current directory: Unix form first,
    /// then DOS.
    pub fn parse_ftp_listing(&self, listing: &str) -> (r: Result<RemoteFile, String>)
        ensures
            match r {
                Ok(f) => listing_entry(self@.current_path, listing@) == Some(f@),
                Err(m) => listing_entry(self@.current_path, listing@) is None && m@
                    == unparsable_message(listing@),
            },
    {
        parse_ftp_listing(self.current_path.as_str(), listing)
    }

    /// Reads one Unix listing line in the current directory.
    pub fn parse_unix_listing(&self, listing: &str) -> (r: Option<RemoteFile>)
        ensures
            opt_remote_view(r) == unix_entry(self@.current_path, listing@),
    {
        parse_unix_listing(self.current_path.as_str(), listing)
    }

    /// Reads one DOS listing line in the current directory.
    pub fn parse_dos_listing(&self, listing: &str) -> (r: Option<RemoteFile>)
        ensures
            opt_remote_view(r) == dos_entry(self@.current_path, listing@),
    {
        parse_dos_listing(self.current_path.as_str(), listing)
    }

    pub fn is_connected(&self) -> (r: bool)
        ensures
            r == self@.connected,
    {
        self.stream.is_some()
    }

    pub fn current_path(&self) -> (r: &str)
        ensures
            r@ == self@.current_path,
    {
        self.current_path.as_str()
    }

    pub fn server_name(&self) -> (r: Option<&str>)
        ensures
            match r {
                Some(s) => self@.server == Some(s@),
                None => self@.server is None,
            },
    {
        match &self.server {
            Some(s) => Some(s.as_str()),
            None => None,
        }
    }

    pub fn username(&self) -> (r: Option<&str>)
        ensures
            match r {
                Some(s) => self@.username == Some(s@),
                None => self@.username is None,
            },
    {
        match &self.username {
            Some(s) => Some(s.as_str()),
            None => None,
        }
    }

    pub fn protocol(&self) -> (r: &ProtocolType)
        ensures
            *r == self@.protocol,
    {
        &self.protocol
    }
}

impl<S> Default for FtpManager<S> {
    fn default() -> (r: Self)
        ensures
            r@ == (FtpManagerView {
                connected: false,
                current_path: "/"@,
                server: None,
                username: None,
                protocol: ProtocolType::Ftp,
            }),
    {
        Self::new()
    }
}


/// A Unix line for `.` or `..` gives no entry at all: it is not read
/// again in DOS form.
pub proof fn lemma_unix_dot_line_gives_no_entry(dir: Seq<char>, line: Seq<char>)
    requires
        unix_dot_line(line),
    ensures
        listing_entry(dir, line) is None,
{
}

/// A listing line never yields an entry named `.` or `..`.
pub proof fn lemma_listing_entry_not_dot(dir: Seq<char>, line: Seq<char>)
    ensures
        listing_entry(dir, line) matches Some(f) ==> !is_dot_entry(f.name),
{
}

proof fn lemma_listed_entry_origin(dir: Seq<char>, lines: Seq<Seq<char>>, k: int)
    requires
        0 <= k < listed_entries(dir, lines).len(),
    ensures
        exists|i: int|
            0 <= i < lines.len() && listing_entry(dir, #[trigger] lines[i]) == Some(
                listed_entries(dir, lines)[k],
            ),
    decreases lines.len(),
{
    let rest = listed_entries(dir, lines.drop_last());
    if k < rest.len() {
        lemma_listed_entry_origin(dir, lines.drop_last(), k);
        let i = choose|i: int|
            0 <= i < lines.drop_last().len() && listing_entry(dir, #[trigger] lines.drop_last()[i])
                == Some(rest[k]);
        assert(lines[i] == lines.drop_last()[i]);
    } else {
        assert(lines[lines.len() - 1] == lines.last());
    }
}

/// Each entry of a sorted listing is one of the entries sorted.
pub proof fn lemma_sorted_remote_members(files: Seq<RemoteFileView>, r: Seq<RemoteFileView>, k: int)
    requires
        sorted_remote(files, r),
        0 <= k < r.len(),
    ensures
        r.len() == files.len(),
        exists|j: int| 0 <= j < files.len() && r[k] == #[trigger] files[j],
{
    let order = choose|order: Seq<usize>|
        is_stable_order(files.map_values(|f: RemoteFileView| remote_key(f)), order) && r
            == permuted(files, order);
    assert(r[k] == files[order[k] as int]);
}

/// A directory listing never holds `.` or `..`.
pub proof fn lemma_listing_has_no_dot_entries(
    dir: Seq<char>,
    lines: Seq<Seq<char>>,
    r: Seq<RemoteFileView>,
)
    requires
        sorted_remote(listed_entries(dir, lines), r),
    ensures
        forall|k: int| 0 <= k < r.len() ==> !is_dot_entry(#[trigger] r[k].name),
{
    let files = listed_entries(dir, lines);
    assert forall|k: int| 0 <= k < r.len() implies !is_dot_entry(#[trigger] r[k].name) by {
        lemma_sorted_remote_members(files, r, k);
        let j = choose|j: int| 0 <= j < files.len() && r[k] == #[trigger] files[j];
        lemma_listed_entry_origin(dir, lines, j);
    }
}

/// In a sorted listing every directory comes before every file.
pub proof fn lemma_listing_directories_first(files: Seq<RemoteFileView>, r: Seq<RemoteFileView>)
    requires
        sorted_remote(files, r),
    ensures
        forall|a: int, b: int|
            0 <= a < b < r.len() && (#[trigger] r[b]).is_dir ==> (#[trigger] r[a]).is_dir,
{
    let keys = files.map_values(|f: RemoteFileView| remote_key(f));
    let order = choose|order: Seq<usize>| is_stable_order(keys, order) && r == permuted(files, order);
    assert forall|a: int, b: int|
        0 <= a < b < r.len() && (#[trigger] r[b]).is_dir implies (#[trigger] r[a]).is_dir by {
        assert(key_le(keys[order[a] as int], keys[order[b] as int]));
        assert(r[a] == files[order[a] as int] && r[b] == files[order[b] as int]);
    }
}

proof fn lemma_scan_path_tail(p: Seq<char>, q: Seq<char>)
    requires
        !q.contains('/'),
    ensures
        scan_path(p + q).0 == scan_path(p).0,
        scan_path(p + q).1 == scan_path(p).1 + q,
    decreases q.len(),
{
    if q.len() == 0 {
        assert(p + q == p);
        assert(scan_path(p).1 + q == scan_path(p).1);
    } else {
        let q0 = q.drop_last();
        assert(!q0.contains('/')) by {
            if q0.contains('/') {
                let i = choose|i: int| 0 <= i < q0.len() && q0[i] == '/';
                assert(q[i] == '/');
            }
        }
        lemma_scan_path_tail(p, q0);
        assert((p + q).drop_last() == p + q0);
        assert((p + q).last() == q.last());
        assert(q.last() != '/') by {
            assert(q[q.len() - 1] == q.last());
        }
        assert(scan_path(p).1 + q0.push(q.last()) == (scan_path(p).1 + q0).push(q.last()));
        assert(q0.push(q.last()) == q);
    }
}

/// The entry a listing names `name` in directory `dir` is saved under
/// `name` when downloaded: the final component of its path is its name,
/// provided the name holds no `/`.
pub proof fn lemma_download_keeps_entry_name(dir: Seq<char>, name: Seq<char>)
    requires
        name.len() > 0,
        !is_dot_entry(name),
        !name.contains('/'),
    ensures
        file_name_of(child_path(dir, name)) == Some(name),
{
    let base = if dir.len() > 0 && dir.last() == '/' {
        dir
    } else {
        dir + seq!['/']
    };
    assert(child_path(dir, name) == base + name);
    assert(base.len() > 0 && base.last() == '/');
    assert(base.drop_last() + seq!['/'] == base);
    assert(scan_path(base).1 == Seq::<char>::empty()) by {
        assert(base.last() == '/');
    }
    lemma_scan_path_tail(base, name);
    assert(Seq::<char>::empty() + name == name);
    assert(is_named_segment(name));
}

} // verus!
