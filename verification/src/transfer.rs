//! Transfers: the retry policy around uploads and downloads, the steps of
//! the loop that streams a file, and the text preview that keeps what a
//! remote file starts with.

use vstd::prelude::*;
use vstd::utf8::{decode_utf8, decode_utf8_encode_utf8, encode_scalar, encode_utf8, valid_utf8};
use crate::ftp::{TransferProgress, TransferProgressView};
use crate::text::{concat2, decimal, push_chars, push_decimal, push_str};

verus! {

/// Which way a transfer goes.
#[derive(Clone, Copy, Debug, PartialEq, Eq, Structural)]
pub enum TransferDirection {
    Download,
    Upload,
}

/// How many times a transfer is tried before giving up.
pub open spec fn max_attempts() -> u32 {
    3
}

/// What follows an attempt of a transfer.
#[derive(Debug)]
pub enum RetryOutcome {
    /// The attempt succeeded: report this message and stop.
    Completed(String),
    /// The attempt failed: report `notice`, wait `delay_secs` seconds, then
    /// try again.
    Retry { notice: String, delay_secs: u64 },
    /// The transfer was cancelled or every attempt failed: report this
    /// error and stop.
    Failed(String),
}

/// What follows an attempt, as values.
pub enum OutcomeView {
    Completed(Seq<char>),
    Retry { notice: Seq<char>, delay_secs: u64 },
    Failed(Seq<char>),
}

impl View for RetryOutcome {
    type V = OutcomeView;

    open spec fn view(&self) -> OutcomeView {
        match self {
            RetryOutcome::Completed(m) => OutcomeView::Completed(m@),
            RetryOutcome::Retry { notice, delay_secs } => OutcomeView::Retry {
                notice: notice@,
                delay_secs: *delay_secs,
            },
            RetryOutcome::Failed(m) => OutcomeView::Failed(m@),
        }
    }
}

/// The retry state of one transfer: its direction and how many attempts
/// were made.
pub struct RetryState {
    direction: TransferDirection,
    attempts: u32,
}

/// The retry state as values.
pub struct RetryView {
    pub direction: TransferDirection,
    pub attempts: nat,
}

impl View for RetryState {
    type V = RetryView;

    closed spec fn view(&self) -> RetryView {
        RetryView { direction: self.direction, attempts: self.attempts as nat }
    }
}

/// The word for a direction, as it opens a sentence.
pub open spec fn direction_word(d: TransferDirection) -> Seq<char> {
    match d {
        TransferDirection::Download => "Download"@,
        TransferDirection::Upload => "Upload"@,
    }
}

/// The notice before retry number `failed + 1`: which attempt failed.
pub open spec fn retry_notice(d: TransferDirection, failed: nat) -> Seq<char> {
    direction_word(d) + " attempt "@ + decimal(failed) + "/"@ + decimal(max_attempts() as nat)
        + " failed. Retrying in 2 seconds..."@
}

/// The report of a finished transfer of `target`.
pub open spec fn completed_text(d: TransferDirection, target: Seq<char>) -> Seq<char> {
    match d {
        TransferDirection::Download => "Downloaded: "@ + target,
        TransferDirection::Upload => "Uploaded: "@ + target,
    }
}

/// The report of a transfer that stops without success: cancelled, or
/// failed after every attempt with `error_text` as the last error.
pub open spec fn failure_text(d: TransferDirection, cancelled: bool, error_text: Seq<char>) -> Seq<
    char,
> {
    if cancelled {
        "Transfer cancelled by user"@
    } else {
        direction_word(d) + " failed after "@ + decimal(max_attempts() as nat) + " attempts: "@
            + error_text
    }
}

/// What follows an attempt: a success completes the transfer at once; a
/// failure is retried, after a notice and a 2 s pause, while attempts
/// remain and the transfer is not cancelled; otherwise the transfer fails.
pub open spec fn attempt_outcome(
    s: RetryView,
    ok: bool,
    cancelled: bool,
    target: Seq<char>,
    error_text: Seq<char>,
) -> (RetryView, OutcomeView) {
    if ok {
        (s, OutcomeView::Completed(completed_text(s.direction, target)))
    } else if !cancelled && s.attempts < max_attempts() {
        (
            RetryView { attempts: s.attempts + 1, ..s },
            OutcomeView::Retry { notice: retry_notice(s.direction, s.attempts), delay_secs: 2 },
        )
    } else {
        (s, OutcomeView::Failed(failure_text(s.direction, cancelled, error_text)))
    }
}

impl RetryState {
    #[verifier::type_invariant]
    spec fn attempts_bounded(self) -> bool {
        1 <= self.attempts <= 3
    }

    /// A transfer whose first attempt is under way.
    pub fn new(direction: TransferDirection) -> (r: Self)
        ensures
            r@ == (RetryView { direction: direction, attempts: 1 }),
    {
        RetryState { direction, attempts: 1 }
    }

    /// How many attempts were made.
    pub fn attempts(&self) -> (r: u32)
        ensures
            r == self@.attempts,
            1 <= r <= max_attempts(),
    {
        proof {
            use_type_invariant(self);
        }
        self.attempts
    }

    /// Decides what follows an attempt that succeeded (`ok`) or failed with
    /// `error_text`, the transfer of `target` having been cancelled or not.
    pub fn after_attempt(&mut self, ok: bool, cancelled: bool, target: &str, error_text: &str) -> (r:
        RetryOutcome)
        ensures
            (final(self)@, r@) == attempt_outcome(
                old(self)@,
                ok,
                cancelled,
                target@,
                error_text@,
            ),
    {
        proof {
            use_type_invariant(&*self);
        }
        if ok {
            RetryOutcome::Completed(self.completed_message(target))
        } else if !cancelled && self.attempts < 3 {
            let failed = self.attempts;
            self.attempts = self.attempts + 1;
            let word = match self.direction {
                TransferDirection::Download => "Download",
                TransferDirection::Upload => "Upload",
            };
            let mut m = concat2(word, " attempt ");
            push_decimal(&mut m, failed as u64);
            push_str(&mut m, "/");
            push_decimal(&mut m, 3);
            push_str(&mut m, " failed. Retrying in 2 seconds...");
            RetryOutcome::Retry { notice: m, delay_secs: 2 }
        } else {
            RetryOutcome::Failed(self.failure_message(cancelled, error_text))
        }
    }

    /// The report of a finished transfer of `target`.
    pub fn completed_message(&self, target: &str) -> (r: String)
        ensures
            r@ == completed_text(self@.direction, target@),
    {
        match self.direction {
            TransferDirection::Download => concat2("Downloaded: ", target),
            TransferDirection::Upload => concat2("Uploaded: ", target),
        }
    }

    /// The report when the loop stops without success: cancelled, or
    /// failed after every attempt, with the last error as `error_text`.
    pub fn failure_message(&self, cancelled: bool, error_text: &str) -> (r: String)
        ensures
            r@ == failure_text(self@.direction, cancelled, error_text@),
    {
        if cancelled {
            "Transfer cancelled by user".to_owned()
        } else {
            let word = match self.direction {
                TransferDirection::Download => "Download",
                TransferDirection::Upload => "Upload",
            };
            let mut m = concat2(word, " failed after ");
            push_decimal(&mut m, 3);
            push_str(&mut m, " attempts: ");
            push_str(&mut m, error_text);
            m
        }
    }
}

/// A transfer is tried at most three times and stops at its first
/// success: a success completes it and nothing else does; a failure is
/// retried, raising the count by one, only while fewer than three attempts
/// were made and the transfer is not cancelled; otherwise it fails.
pub proof fn lemma_at_most_three_attempts(
    s: RetryView,
    ok: bool,
    cancelled: bool,
    target: Seq<char>,
    error_text: Seq<char>,
)
    requires
        1 <= s.attempts <= max_attempts(),
    ensures
        ({
            let (next, outcome) = attempt_outcome(s, ok, cancelled, target, error_text);
            &&& 1 <= next.attempts <= max_attempts()
            &&& (outcome is Completed <==> ok)
            &&& (outcome is Retry <==> !ok && !cancelled && s.attempts < max_attempts())
            &&& (outcome is Retry ==> next.attempts == s.attempts + 1)
            &&& (!(outcome is Retry) ==> next == s)
            &&& (!ok && s.attempts == max_attempts() ==> outcome is Failed)
        }),
{
}

/// The share of `total` that `transferred` is, in whole percent rounded
/// down: 0 for an empty file, and at most the largest `u32`.
pub open spec fn percent_of(transferred: u64, total: u64) -> u32 {
    if total == 0 {
        0
    } else {
        let q: int = (transferred * 100) / (total as int);
        if q > u32::MAX {
            u32::MAX
        } else {
            q as u32
        }
    }
}

/// The share of `total` that `transferred` is, in whole percent.
pub fn percentage(transferred: u64, total: u64) -> (r: u32)
    ensures
        r == percent_of(transferred, total),
{
    if total == 0 {
        0
    } else {
        let t = transferred as u128;
        assert(t * 100 <= u64::MAX as int * 100) by (nonlinear_arith)
            requires
                t <= u64::MAX,
        ;
        let q: u128 = t * 100 / (total as u128);
        if q > u32::MAX as u128 {
            u32::MAX
        } else {
            q as u32
        }
    }
}

/// Where a streaming transfer stands: which way it goes, the name of the
/// file, its size and how many bytes have been moved so far.
pub struct StreamState {
    pub direction: TransferDirection,
    pub filename: String,
    pub total_bytes: u64,
    pub transferred_bytes: u64,
}

/// What the transfer loop does next.
#[derive(Debug)]
pub enum StreamAction {
    /// The transfer was cancelled: stop it, first removing the partial
    /// local file when `remove_partial`.
    Abort { remove_partial: bool },
    /// Read the next chunk.
    Read,
    /// The source is exhausted: finish the transfer.
    Finish,
    /// Pass on the chunk just read, then report this progress.
    Deliver { progress: TransferProgress },
}

/// What the transfer loop does next, as values.
pub enum StreamActionView {
    Abort { remove_partial: bool },
    Read,
    Finish,
    Deliver { progress: TransferProgressView },
}

impl View for StreamAction {
    type V = StreamActionView;

    open spec fn view(&self) -> StreamActionView {
        match self {
            StreamAction::Abort { remove_partial } => StreamActionView::Abort {
                remove_partial: *remove_partial,
            },
            StreamAction::Read => StreamActionView::Read,
            StreamAction::Finish => StreamActionView::Finish,
            StreamAction::Deliver { progress } => StreamActionView::Deliver { progress: progress@ },
        }
    }
}

impl StreamState {
    /// A transfer of `filename`, `total_bytes` long, nothing moved yet.
    pub fn new(direction: TransferDirection, filename: String, total_bytes: u64) -> (r: Self)
        ensures
            r.direction == direction,
            r.filename@ == filename@,
            r.total_bytes == total_bytes,
            r.transferred_bytes == 0,
    {
        StreamState { direction, filename, total_bytes, transferred_bytes: 0 }
    }

    /// One step of the transfer loop, given whether the transfer was
    /// cancelled and what the last read gave (`None` before a read): a
    /// cancelled transfer stops, a download removing its partial file; with
    /// nothing read yet the loop reads; an empty read ends the transfer; a
    /// read of `n` bytes adds `n` to the bytes moved and reports them with
    /// the file's name, its size and the share done in percent.
    pub fn step(&mut self, cancelled: bool, bytes_read: Option<usize>) -> (a: StreamAction)
        requires
            bytes_read matches Some(n) ==> old(self).transferred_bytes + n <= u64::MAX,
        ensures
            final(self).direction == old(self).direction,
            final(self).filename@ == old(self).filename@,
            final(self).total_bytes == old(self).total_bytes,
            cancelled ==> a@ == (StreamActionView::Abort {
                remove_partial: old(self).direction == TransferDirection::Download,
            }),
            !cancelled && bytes_read is None ==> a@ == StreamActionView::Read,
            !cancelled && bytes_read == Some(0usize) ==> a@ == StreamActionView::Finish,
            match bytes_read {
                Some(n) => if !cancelled && n > 0 {
                    &&& final(self).transferred_bytes == old(self).transferred_bytes + n
                    &&& a@ == (StreamActionView::Deliver {
                        progress: TransferProgressView {
                            filename: old(self).filename@,
                            total_bytes: old(self).total_bytes,
                            transferred_bytes: final(self).transferred_bytes,
                            percentage: percent_of(
                                final(self).transferred_bytes,
                                old(self).total_bytes,
                            ),
                        },
                    })
                } else {
                    final(self).transferred_bytes == old(self).transferred_bytes
                },
                None => final(self).transferred_bytes == old(self).transferred_bytes,
            },
    {
        if cancelled {
            let remove_partial = match self.direction {
                TransferDirection::Download => true,
                TransferDirection::Upload => false,
            };
            return StreamAction::Abort { remove_partial };
        }
        match bytes_read {
            None => StreamAction::Read,
            Some(n) => if n == 0 {
                StreamAction::Finish
            } else {
                self.transferred_bytes = self.transferred_bytes + n as u64;
                StreamAction::Deliver {
                    progress: TransferProgress {
                        filename: self.filename.clone(),
                        total_bytes: self.total_bytes,
                        transferred_bytes: self.transferred_bytes,
                        percentage: percentage(self.transferred_bytes, self.total_bytes),
                    },
                }
            },
        }
    }
}

/// The text of `bytes` when they are valid UTF-8 (`String::from_utf8`).
#[verifier::external_body]
fn utf8_text(bytes: Vec<u8>) -> (r: Option<String>)
    ensures
        r is Some <==> valid_utf8(bytes@),
        r matches Some(t) ==> t@ == decode_utf8(bytes@),
{
    String::from_utf8(bytes).ok()
}

/// How many bytes of text a preview shows before it stops.
pub open spec fn preview_limit() -> nat {
    10000
}

/// The line that ends a cut-off preview.
pub open spec fn truncation_marker() -> Seq<char> {
    "\n...[truncated]..."@
}

/// The preview of a remote text file, as its chunks arrive.
pub struct PreviewText {
    content: String,
    byte_len: usize,
    truncated: bool,
}

/// A preview as values.
pub struct PreviewView {
    pub content: Seq<char>,
    pub truncated: bool,
}

impl View for PreviewText {
    type V = PreviewView;

    closed spec fn view(&self) -> PreviewView {
        PreviewView { content: self.content@, truncated: self.truncated }
    }
}

/// The preview text after a chunk of bytes: the chunk's text is added when
/// the chunk is valid UTF-8 on its own, and dropped otherwise.
pub open spec fn with_chunk(content: Seq<char>, chunk: Seq<u8>) -> Seq<char> {
    if valid_utf8(chunk) {
        content + decode_utf8(chunk)
    } else {
        content
    }
}

/// Encoding distributes over concatenation.
pub proof fn lemma_encode_utf8_concat(a: Seq<char>, b: Seq<char>)
    ensures
        encode_utf8(a + b) == encode_utf8(a) + encode_utf8(b),
    decreases a.len(),
{
    if a.len() == 0 {
        assert(a + b == b);
        assert(encode_utf8(a) =~= Seq::<u8>::empty());
        assert(encode_utf8(a) + encode_utf8(b) == encode_utf8(b));
    } else {
        lemma_encode_utf8_concat(a.drop_first(), b);
        assert((a + b).drop_first() == a.drop_first() + b);
        assert((a + b)[0] == a[0]);
    }
}

/// The longest start of `c` whose UTF-8 encoding takes at most `limit`
/// bytes: `c` itself when it fits, else `c` without its last character,
/// clipped in turn. It never splits a character.
pub open spec fn clip_to_bytes(c: Seq<char>, limit: nat) -> Seq<char>
    decreases c.len(),
{
    if c.len() == 0 || encode_utf8(c).len() <= limit {
        c
    } else {
        clip_to_bytes(c.drop_last(), limit)
    }
}

/// The encoding of a start of `c` is a start of the encoding of `c`, so it
/// is never longer.
proof fn lemma_encode_take_le(c: Seq<char>, i: int, j: int)
    requires
        0 <= i <= j <= c.len(),
    ensures
        encode_utf8(c.take(i)).len() <= encode_utf8(c.take(j)).len(),
{
    assert(c.take(j) == c.take(i) + c.take(j).skip(i));
    lemma_encode_utf8_concat(c.take(i), c.take(j).skip(i));
}

/// When the first `k` characters fit and the first `k + 1` do not, the
/// clipped text is the first `k` characters.
proof fn lemma_clip_at(c: Seq<char>, k: int, j: int, limit: nat)
    requires
        0 <= k < j <= c.len(),
        encode_utf8(c.take(k)).len() <= limit,
        encode_utf8(c.take(k + 1)).len() > limit,
    ensures
        clip_to_bytes(c.take(j), limit) == c.take(k),
    decreases j,
{
    lemma_encode_take_le(c, k + 1, j);
    assert(c.take(j).drop_last() == c.take(j - 1));
    if j == k + 1 {
        assert(clip_to_bytes(c.take(k), limit) == c.take(k));
    } else {
        lemma_clip_at(c, k, j - 1, limit);
    }
}

/// A clipped text is a start of the text, never splits a character, and
/// takes at most `limit` bytes: a cut-off preview keeps at most 10000
/// bytes of the file.
pub proof fn lemma_clip_fits(c: Seq<char>, limit: nat)
    ensures
        clip_to_bytes(c, limit).len() <= c.len(),
        clip_to_bytes(c, limit) == c.take(clip_to_bytes(c, limit).len() as int),
        encode_utf8(clip_to_bytes(c, limit)).len() <= limit,
    decreases c.len(),
{
    if c.len() == 0 {
        assert(encode_utf8(c) =~= Seq::<u8>::empty());
        assert(c.take(0) =~= c);
    } else if encode_utf8(c).len() <= limit {
        assert(c.take(c.len() as int) =~= c);
    } else {
        lemma_clip_fits(c.drop_last(), limit);
        let r = clip_to_bytes(c.drop_last(), limit);
        assert(c.drop_last().take(r.len() as int) =~= c.take(r.len() as int));
    }
}

/// The number of bytes that `ch` takes in UTF-8.
fn utf8_width(ch: char) -> (w: usize)
    ensures
        w == encode_utf8(seq![ch]).len(),
        1 <= w <= 4,
{
    proof {
        vstd::utf8::char_is_scalar(ch);
        assert(seq![ch].drop_first() =~= Seq::<char>::empty());
        assert(encode_utf8(Seq::<char>::empty()) =~= Seq::<u8>::empty());
        assert(encode_utf8(seq![ch]) == encode_scalar(ch as u32) + encode_utf8(
            seq![ch].drop_first(),
        ));
    }
    let v = ch as u32;
    if v <= 0x7F {
        1
    } else if v <= 0x7FF {
        2
    } else if v <= 0xFFFF {
        3
    } else {
        4
    }
}

impl PreviewText {
    #[verifier::type_invariant]
    spec fn counts_bytes(self) -> bool {
        !self.truncated ==> self.byte_len == encode_utf8(self.content@).len()
            && self.byte_len <= preview_limit()
    }

    /// An empty preview.
    pub fn new() -> (r: Self)
        ensures
            r@ == (PreviewView { content: Seq::empty(), truncated: false }),
    {
        PreviewText { content: String::new(), byte_len: 0, truncated: false }
    }

    /// Adds a chunk of the file. When the text would then hold more than
    /// 10000 bytes, it is cut to its longest start that fits in 10000
    /// bytes, a marker is added, and reading should stop; the result says
    /// whether to read on.
    pub fn add_chunk(&mut self, chunk: Vec<u8>) -> (read_on: bool)
        requires
            !old(self)@.truncated,
        ensures
            ({
                let c = with_chunk(old(self)@.content, chunk@);
                if encode_utf8(c).len() > preview_limit() {
                    &&& final(self)@.content == clip_to_bytes(c, preview_limit())
                        + truncation_marker()
                    &&& final(self)@.truncated
                    &&& !read_on
                } else {
                    &&& final(self)@.content == c
                    &&& !final(self)@.truncated
                    &&& read_on
                }
            }),
    {
        proof {
            use_type_invariant(&*self);
        }
        let ghost bytes = chunk@;
        let ghost old_content = self.content@;
        let mut content = self.content.clone();
        let mut len = self.byte_len;
        match utf8_text(chunk) {
            Some(t) => {
                proof {
                    decode_utf8_encode_utf8(bytes);
                }
                let tv = crate::text::chars_of(t.as_str());
                let ghost c = old_content + tv@;
                assert(c == with_chunk(old_content, bytes));
                let mut i: usize = 0;
                while i < tv.len()
                    invariant
                        0 <= i <= tv.len(),
                        tv@ == t@,
                        c == old_content + tv@,
                        c == with_chunk(old_content, bytes),
                        old_content == old(self)@.content,
                        bytes == chunk@,
                        content@ == old_content + tv@.take(i as int),
                        content@ == c.take(content@.len() as int),
                        len == encode_utf8(content@).len(),
                        len <= 10000,
                    decreases tv.len() - i,
                {
                    let w = utf8_width(tv[i]);
                    proof {
                        assert(c.take(content@.len() + 1int) == content@ + seq![tv@[i as int]]);
                        lemma_encode_utf8_concat(content@, seq![tv@[i as int]]);
                    }
                    if w > 10000 - len {
                        proof {
                            assert(content@.len() < c.len());
                            lemma_clip_at(c, content@.len() as int, c.len() as int, preview_limit());
                            lemma_encode_take_le(c, content@.len() + 1int, c.len() as int);
                            assert(c.take(c.len() as int) == c);
                            assert(c == with_chunk(old_content, bytes));
                        }
                        push_str(&mut content, "\n...[truncated]...");
                        *self = PreviewText { content, byte_len: len, truncated: true };
                        return false;
                    }
                    crate::text::string_push(&mut content, tv[i]);
                    len = len + w;
                    i = i + 1;
                    proof {
                        assert(old_content + tv@.take(i as int) == (old_content + tv@.take(
                            (i - 1) as int,
                        )) + seq![tv@[i - 1]]);
                    }
                }
                proof {
                    assert(tv@.take(i as int) == tv@);
                }
            },
            None => {},
        }
        *self = PreviewText { content, byte_len: len, truncated: false };
        true
    }

    /// The text of the preview.
    pub fn text(&self) -> (r: String)
        ensures
            r@ == self@.content,
    {
        self.content.clone()
    }
}

} // verus!
