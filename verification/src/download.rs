//! Downloading: the name a download is saved under, the status check on
//! the response, and the bookkeeping of a transfer read chunk by chunk.

use vstd::prelude::*;
use vstd::string::*;
use crate::error::ErrorKind;
use crate::text::{join2, opt_text, texts};

verus! {

/// The path segments of `url` as the `url` crate reports them:
/// `Url::parse` followed by `Url::path_segments`. `None` where the text
/// is no absolute URL or the URL cannot be a base.
pub uninterp spec fn url_path_segments(url: Seq<char>) -> Option<Seq<Seq<char>>>;

/// The character sequences of an optional list of segments.
pub open spec fn segments_text(segments: Option<Vec<String>>) -> Option<Seq<Seq<char>>> {
    match segments {
        Some(v) => Some(texts(v@)),
        None => None,
    }
}

/// Calls `url::Url::parse` and, on the parsed URL, `Url::path_segments`,
/// and copies the segments out. Trusted: the result is the one named by
/// `url_path_segments`, which depends on the text of the URL alone.
#[verifier::external_body]
fn path_segments(url: &str) -> (r: Option<Vec<String>>)
    ensures
        segments_text(r) == url_path_segments(url@),
{
    match url::Url::parse(url) {
        Ok(parsed) => match parsed.path_segments() {
            Some(parts) => {
                let mut out: Vec<String> = Vec::new();
                for part in parts {
                    out.push(part.to_string());
                }
                Some(out)
            },
            None => None,
        },
        Err(_) => None,
    }
}

/// The name saved under when neither an override nor the URL gives one.
pub open spec fn spec_fallback_name() -> Seq<char> {
    "downloaded_file.bin"@
}

/// The final segment of a list of path segments, where there is one and
/// it is not empty.
pub open spec fn spec_last_segment(segments: Option<Seq<Seq<char>>>) -> Option<Seq<char>> {
    match segments {
        Some(s) => if s.len() > 0 && s.last().len() > 0 {
            Some(s.last())
        } else {
            None
        },
        None => None,
    }
}

/// The file name that a URL ends in.
pub open spec fn spec_url_filename(url: Seq<char>) -> Option<Seq<char>> {
    spec_last_segment(url_path_segments(url))
}

/// The name a download is saved under: a non-empty override, else (with
/// no override) the file name from the URL, else the fallback.
pub open spec fn spec_choose_filename(
    override_name: Option<Seq<char>>,
    from_url: Option<Seq<char>>,
) -> Seq<char> {
    match override_name {
        Some(name) => if name.len() > 0 {
            name
        } else {
            spec_fallback_name()
        },
        None => match from_url {
            Some(name) => if name.len() > 0 {
                name
            } else {
                spec_fallback_name()
            },
            None => spec_fallback_name(),
        },
    }
}

/// The character sequence of an optional string slice.
pub open spec fn opt_str_text(s: Option<&str>) -> Option<Seq<char>> {
    match s {
        Some(t) => Some(t@),
        None => None,
    }
}

/// The final path segment, unless the URL has no segments or the final
/// one is empty (as after a trailing slash).
pub fn last_segment(segments: Option<Vec<String>>) -> (r: Option<String>)
    ensures
        opt_text(r) == spec_last_segment(segments_text(segments)),
{
    match segments {
        Some(parts) => {
            let n = parts.len();
            if n == 0 {
                None
            } else {
                let last = parts[n - 1].clone();
                assert(texts(parts@).last() == last@);
                if last.as_str().unicode_len() > 0 {
                    Some(last)
                } else {
                    None
                }
            }
        },
        None => None,
    }
}

/// The file name at the end of a URL's path. `None` where the text is no
/// URL with path segments, or its path ends in a slash.
pub fn get_url_filename(url: &str) -> (r: Option<String>)
    ensures
        opt_text(r) == spec_url_filename(url@),
{
    last_segment(path_segments(url))
}

/// The last segment that is not empty, where there is one.
pub open spec fn spec_last_nonempty(segments: Seq<Seq<char>>) -> Option<Seq<char>>
    decreases segments.len(),
{
    if segments.len() == 0 {
        None
    } else if segments.last().len() > 0 {
        Some(segments.last())
    } else {
        spec_last_nonempty(segments.drop_last())
    }
}

/// The name that a URL gives to its download: the last path segment that
/// is not empty.
pub open spec fn spec_url_download_name(url: Seq<char>) -> Option<Seq<char>> {
    match url_path_segments(url) {
        Some(segments) => spec_last_nonempty(segments),
        None => None,
    }
}

/// The last non-empty segment is the non-empty segment at the greatest
/// index: every segment behind it is empty. There is none exactly where
/// every segment is empty.
pub proof fn lemma_last_nonempty(segments: Seq<Seq<char>>)
    ensures
        match spec_last_nonempty(segments) {
            Some(name) => exists|i: int|
                0 <= i < segments.len() && #[trigger] segments[i] == name && name.len() > 0
                    && forall|j: int| i < j < segments.len() ==> (#[trigger] segments[j]).len() == 0,
            None => forall|i: int| 0 <= i < segments.len() ==> (#[trigger] segments[i]).len() == 0,
        },
    decreases segments.len(),
{
    if segments.len() > 0 {
        let last = segments.len() - 1;
        if segments.last().len() > 0 {
            assert(segments[last] == segments.last());
        } else {
            let shorter = segments.drop_last();
            lemma_last_nonempty(shorter);
            match spec_last_nonempty(shorter) {
                Some(name) => {
                    let i = choose|i: int|
                        0 <= i < shorter.len() && #[trigger] shorter[i] == name && name.len() > 0
                            && forall|j: int|
                            i < j < shorter.len() ==> (#[trigger] shorter[j]).len() == 0;
                    assert(segments[i] == name);
                    assert forall|j: int| i < j < segments.len() implies (#[trigger] segments[j]).len()
                        == 0 by {
                        if j < last {
                            assert(shorter[j] == segments[j]);
                        }
                    }
                },
                None => {
                    assert forall|i: int| 0 <= i < segments.len() implies (#[trigger] segments[i]).len()
                        == 0 by {
                        if i < last {
                            assert(shorter[i] == segments[i]);
                        }
                    }
                },
            }
        }
    }
}

/// The last path segment that is not empty, so that a path ending in a
/// slash still names its download; `None` where the URL has no segments
/// or all of them are empty.
pub fn last_nonempty_segment(segments: Option<Vec<String>>) -> (r: Option<String>)
    ensures
        opt_text(r) == match segments_text(segments) {
            Some(s) => spec_last_nonempty(s),
            None => None,
        },
{
    match segments {
        Some(parts) => {
            let ghost all = texts(parts@);
            let mut i: usize = parts.len();
            assert(all.subrange(0, i as int) =~= all);
            while i > 0
                invariant
                    i <= parts@.len(),
                    all == texts(parts@),
                    segments_text(segments) == Some(all),
                    spec_last_nonempty(all) == spec_last_nonempty(all.subrange(0, i as int)),
                decreases i,
            {
                let ghost prefix = all.subrange(0, i as int);
                assert(prefix.last() == parts@[i - 1]@);
                assert(prefix.drop_last() =~= all.subrange(0, i - 1));
                let name = parts[i - 1].clone();
                if name.as_str().unicode_len() > 0 {
                    return Some(name);
                }
                i = i - 1;
            }
            None
        },
        None => None,
    }
}

/// Picks the name a download is saved under from an explicit override and
/// the name found in the URL. The result is never empty.
pub fn choose_filename(override_name: Option<&str>, from_url: Option<String>) -> (r: String)
    ensures
        r@ == spec_choose_filename(opt_str_text(override_name), opt_text(from_url)),
        r@.len() > 0,
{
    proof {
        reveal_strlit("downloaded_file.bin");
    }
    match override_name {
        Some(name) => {
            if name.unicode_len() > 0 {
                String::from_str(name)
            } else {
                String::from_str("downloaded_file.bin")
            }
        },
        None => match from_url {
            Some(name) => {
                if name.as_str().unicode_len() > 0 {
                    name
                } else {
                    String::from_str("downloaded_file.bin")
                }
            },
            None => String::from_str("downloaded_file.bin"),
        },
    }
}

/// The name a download from `url` is saved under: a non-empty override,
/// else the last non-empty path segment of the URL, else the fallback.
pub fn resolve_filename(url: &str, override_name: Option<&str>) -> (r: String)
    ensures
        r@ == spec_choose_filename(opt_str_text(override_name), spec_url_download_name(url@)),
        r@.len() > 0,
{
    choose_filename(override_name, last_nonempty_segment(path_segments(url)))
}

/// Where a download of that name is kept: under `downloads/`.
pub open spec fn spec_download_path(file_name: Seq<char>) -> Seq<char> {
    "downloads/"@ + file_name
}

/// The directory that holds the downloads.
pub fn download_dir() -> (r: &'static str)
    ensures
        r@ == "downloads"@,
{
    "downloads"
}

/// The path of a downloaded file of the given name.
pub fn download_path(file_name: &str) -> (r: String)
    ensures
        r@ == spec_download_path(file_name@),
{
    join2("downloads/", file_name)
}

/// Whether a response status is a success: 200 to 299.
pub open spec fn spec_status_ok(status: u16) -> bool {
    200 <= status < 300
}

/// Accepts a response by its status; any status outside 200 to 299 is a
/// network error.
pub fn check_status(status: u16) -> (r: Result<(), ErrorKind>)
    ensures
        r is Ok <==> spec_status_ok(status),
        r is Err ==> r->Err_0 == ErrorKind::Network,
{
    if 200 <= status && status < 300 {
        Ok(())
    } else {
        Err(ErrorKind::Network)
    }
}

/// A transfer in progress: the bytes received so far and, where the
/// server announced it, the length of the whole body.
#[derive(Clone, Copy, Debug, PartialEq, Eq, Structural)]
pub struct Transfer {
    pub received: u64,
    pub expected: Option<u64>,
}

/// What one read of the response body gave.
#[derive(Clone, Copy, Debug, PartialEq, Eq, Structural)]
pub enum ReadEvent {
    /// That many bytes arrived; none means the body has ended.
    Data(u64),
    /// The read failed.
    Failed,
}

/// What to do after a read.
#[derive(Clone, Copy, Debug, PartialEq, Eq, Structural)]
pub enum TransferAction {
    /// Write the chunk to the file and show this position.
    Write { len: u64, position: u64 },
    /// The body is complete: close the file.
    Finish { received: u64 },
    /// Give the transfer up.
    Abort(ErrorKind),
}

impl Transfer {
    /// The position shown to the operator: the bytes received, held to
    /// the announced length where there is one.
    pub open spec fn spec_position(self) -> u64 {
        match self.expected {
            Some(total) => if self.received <= total {
                self.received
            } else {
                total
            },
            None => self.received,
        }
    }

    /// The transfer after an event.
    pub open spec fn spec_after(self, event: ReadEvent) -> Transfer {
        match event {
            ReadEvent::Data(n) => Transfer {
                received: (self.received + n) as u64,
                expected: self.expected,
            },
            ReadEvent::Failed => self,
        }
    }

    /// The action an event calls for.
    pub open spec fn spec_action(self, event: ReadEvent) -> TransferAction {
        match event {
            ReadEvent::Data(n) => if n == 0 {
                TransferAction::Finish { received: self.received }
            } else {
                TransferAction::Write { len: n, position: self.spec_after(event).spec_position() }
            },
            ReadEvent::Failed => TransferAction::Abort(ErrorKind::Network),
        }
    }

    /// A transfer of which nothing has arrived yet.
    pub fn start(expected: Option<u64>) -> (r: Transfer)
        ensures
            r == (Transfer { received: 0, expected }),
    {
        Transfer { received: 0, expected }
    }

    /// The length the progress display is made for: the announced length,
    /// or zero where none was announced.
    pub fn display_length(&self) -> (r: u64)
        ensures
            r == match self.expected {
                Some(total) => total,
                None => 0,
            },
    {
        match self.expected {
            Some(total) => total,
            None => 0,
        }
    }

    /// The position shown to the operator.
    pub fn position(&self) -> (r: u64)
        ensures
            r == self.spec_position(),
    {
        match self.expected {
            Some(total) => if self.received <= total {
                self.received
            } else {
                total
            },
            None => self.received,
        }
    }

    /// Takes one read into account: counts its bytes and says whether to
    /// write them, to finish, or to give up.
    pub fn on_read(self, event: ReadEvent) -> (r: (Transfer, TransferAction))
        requires
            event is Data ==> self.received + event->Data_0 <= u64::MAX,
        ensures
            r.0 == self.spec_after(event),
            r.1 == self.spec_action(event),
    {
        match event {
            ReadEvent::Data(n) => {
                let next = Transfer { received: self.received + n, expected: self.expected };
                if n == 0 {
                    (next, TransferAction::Finish { received: self.received })
                } else {
                    (next, TransferAction::Write { len: n, position: next.position() })
                }
            },
            ReadEvent::Failed => (self, TransferAction::Abort(ErrorKind::Network)),
        }
    }
}

/// Whether a character is a decimal digit.
pub open spec fn spec_is_digit(c: char) -> bool {
    '0' <= c && c <= '9'
}

/// The value of a decimal digit; zero for any other character.
pub open spec fn spec_digit_value(c: char) -> nat {
    if spec_is_digit(c) {
        (c as u32 - '0' as u32) as nat
    } else {
        0
    }
}

/// Whether every character is a decimal digit.
pub open spec fn spec_all_digits(s: Seq<char>) -> bool {
    forall|k: int| 0 <= k < s.len() ==> spec_is_digit(#[trigger] s[k])
}

/// The number that a sequence of decimal digits writes.
pub open spec fn spec_decimal(digits: Seq<char>) -> nat
    decreases digits.len(),
{
    if digits.len() == 0 {
        0
    } else {
        spec_decimal(digits.drop_last()) * 10 + spec_digit_value(digits.last())
    }
}

/// The digits of an announced length: the text without a leading `+`.
pub open spec fn spec_length_digits(text: Seq<char>) -> Seq<char> {
    if text.len() > 0 && text[0] == '+' {
        text.drop_first()
    } else {
        text
    }
}

/// The length that a `Content-Length` value announces: one or more
/// decimal digits, after a `+` at most, that write a number within
/// 64 bits. Anything else announces nothing.
pub open spec fn spec_parse_length(text: Seq<char>) -> Option<u64> {
    let digits = spec_length_digits(text);
    if digits.len() > 0 && spec_all_digits(digits) && spec_decimal(digits) <= u64::MAX {
        Some(spec_decimal(digits) as u64)
    } else {
        None
    }
}

/// A number is at least what any prefix of its digits writes.
proof fn lemma_decimal_prefix(digits: Seq<char>, k: int)
    requires
        0 <= k <= digits.len(),
    ensures
        spec_decimal(digits.subrange(0, k)) <= spec_decimal(digits),
    decreases digits.len(),
{
    if k == digits.len() {
        assert(digits.subrange(0, k) =~= digits);
    } else {
        lemma_decimal_prefix(digits.drop_last(), k);
        assert(digits.drop_last().subrange(0, k) =~= digits.subrange(0, k));
    }
}

/// Reads the value of a `Content-Length` header.
pub fn parse_content_length(text: &str) -> (r: Option<u64>)
    ensures
        r == spec_parse_length(text@),
{
    let n = text.unicode_len();
    let start: usize = if n > 0 && text.get_char(0) == '+' {
        1
    } else {
        0
    };
    let ghost digits = text@.subrange(start as int, n as int);
    assert(digits =~= spec_length_digits(text@));
    if start == n {
        return None;
    }
    let mut value: u64 = 0;
    let mut i: usize = start;
    assert(digits.subrange(0, 0) =~= Seq::<char>::empty());
    while i < n
        invariant
            start <= i <= n,
            n == text@.len(),
            digits == text@.subrange(start as int, n as int),
            digits == spec_length_digits(text@),
            spec_all_digits(digits.subrange(0, i - start)),
            value == spec_decimal(digits.subrange(0, i - start)),
        decreases n - i,
    {
        let c = text.get_char(i);
        assert(digits[i - start] == c);
        if !('0' <= c && c <= '9') {
            return None;
        }
        let d: u64 = (c as u32 - '0' as u32) as u64;
        let ghost longer = digits.subrange(0, i + 1 - start);
        assert(longer.drop_last() =~= digits.subrange(0, i - start));
        assert(longer.last() == c);
        assert(spec_decimal(longer) == value * 10 + d);
        if value > (u64::MAX - d) / 10 {
            proof {
                lemma_decimal_prefix(digits, i + 1 - start);
            }
            return None;
        }
        value = value * 10 + d;
        i = i + 1;
    }
    assert(digits.subrange(0, n - start) =~= digits);
    Some(value)
}

/// A finished download: where the file was saved and how many bytes it
/// holds.
#[derive(Clone, Debug, PartialEq, Eq)]
pub struct DownloadResult {
    pub local_path: String,
    pub byte_count: u64,
}

/// What a `DownloadResult` holds, with the path as characters.
pub struct DownloadResultView {
    pub local_path: Seq<char>,
    pub byte_count: u64,
}

impl View for DownloadResult {
    type V = DownloadResultView;

    open spec fn view(&self) -> DownloadResultView {
        DownloadResultView { local_path: self.local_path@, byte_count: self.byte_count }
    }
}

impl Transfer {
    /// The result of a transfer that has ended, saved under `file_name`.
    pub fn finish(self, file_name: &str) -> (r: DownloadResult)
        ensures
            r@ == (DownloadResultView {
                local_path: spec_download_path(file_name@),
                byte_count: self.received,
            }),
    {
        DownloadResult { local_path: download_path(file_name), byte_count: self.received }
    }
}

} // verus!
