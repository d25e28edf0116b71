//! The decisions of the client: how options resolve, which arguments every
//! endpoint accepts and where it posts them, how a polled task settles, and
//! how a downloaded model is named.
//!
//! Every generation-style endpoint creates a task and answers with its
//! `task_id`; the caller polls the task until it settles, deciding after each
//! poll with [`poll_decision`].

use vstd::prelude::*;
use vstd::string::*;

use crate::constants::{TaskStatus, DEFAULT_BASE_URL};
use crate::error::Error;
use crate::http::HttpConfig;
use vstd::utf8::{
    encode_utf8, encode_utf8_decode_utf8, is_ascii_chars, is_ascii_chars_encode_utf8,
};
use crate::text::{
    chars_of, digit_char, find_last, find_query_start, last_index_of, last_index_of_bounds,
    lowercase, query_start, query_start_bounds,
    str_to_lowercase, string_from_chars, sub_chars,
};

verus! {

/// The `User-Agent` the client sends unless told otherwise: the SDK's name
/// and version.
pub const DEFAULT_USER_AGENT: &'static str = "tripo3d-sdk-rust/0.1.0";

/// Per-request timeout, in milliseconds, unless told otherwise.
pub const DEFAULT_TIMEOUT_MS: u64 = 60000;

/// Extra attempts on transient failures unless told otherwise.
pub const DEFAULT_RETRIES: u32 = 2;

/// Options of a client. All fields are optional; `api_key` falls back to the
/// `TRIPO_API_KEY` environment variable when unset.
#[derive(Debug, Clone)]
pub struct ClientOptions {
    pub api_key: Option<String>,
    pub base_url: Option<String>,
    /// Per-request timeout, in milliseconds.
    pub timeout_ms: Option<u64>,
    pub retries: Option<u32>,
    pub user_agent: Option<String>,
}

impl Default for ClientOptions {
    fn default() -> (o: Self)
        ensures
            o.api_key is None && o.base_url is None && o.timeout_ms is None && o.retries is None
                && o.user_agent is None,
    {
        ClientOptions { api_key: None, base_url: None, timeout_ms: None, retries: None, user_agent: None }
    }
}

impl ClientOptions {
    /// The connection settings these options give, with `env_api_key` (the
    /// value of `TRIPO_API_KEY`, if set) standing in for a missing
    /// `api_key`. Without either there is no client: that is an
    /// [`Error::InvalidArgument`].
    pub fn into_config(self, env_api_key: Option<String>) -> (r: Result<HttpConfig, Error>)
        ensures
            self.api_key is None && env_api_key is None <==> r is Err,
            r matches Err(e) ==> e matches Error::InvalidArgument(m) && m@
                == "an API key is required: pass `api_key` in ClientOptions or set the TRIPO_API_KEY environment variable"@,
            r matches Ok(c) ==> {
                &&& c.api_key == match self.api_key {
                    Some(k) => k,
                    None => env_api_key->0,
                }
                &&& match self.base_url {
                    Some(b) => c.base_url == b,
                    None => c.base_url@ == DEFAULT_BASE_URL@,
                }
                &&& c.timeout_ms == match self.timeout_ms {
                    Some(t) => t,
                    None => DEFAULT_TIMEOUT_MS,
                }
                &&& c.retries == match self.retries {
                    Some(n) => n,
                    None => DEFAULT_RETRIES,
                }
                &&& match self.user_agent {
                    Some(u) => c.user_agent == u,
                    None => c.user_agent@ == DEFAULT_USER_AGENT@,
                }
            },
    {
        let api_key = match self.api_key {
            Some(k) => k,
            None => match env_api_key {
                Some(k) => k,
                None => {
                    return Err(Error::invalid_argument(
                        "an API key is required: pass `api_key` in ClientOptions or set the TRIPO_API_KEY environment variable",
                    ));
                },
            },
        };
        let base_url = match self.base_url {
            Some(b) => b,
            None => DEFAULT_BASE_URL.to_owned(),
        };
        let timeout_ms = match self.timeout_ms {
            Some(t) => t,
            None => DEFAULT_TIMEOUT_MS,
        };
        let retries = match self.retries {
            Some(n) => n,
            None => DEFAULT_RETRIES,
        };
        let user_agent = match self.user_agent {
            Some(u) => u,
            None => DEFAULT_USER_AGENT.to_owned(),
        };
        Ok(HttpConfig { base_url, api_key, timeout_ms, retries, user_agent })
    }
}

/// Options of a wait for a task to settle.
#[derive(Debug, Clone)]
pub struct WaitOptions {
    /// Delay between polls, in milliseconds. Default: 2 seconds.
    pub poll_interval_ms: u64,
    /// Overall timeout budget, in milliseconds. `None` means wait
    /// indefinitely.
    pub timeout_ms: Option<u64>,
    /// When `true` (default), a non-`success` terminal status raises
    /// [`Error::Task`] instead of being returned as `Ok`.
    pub throw_on_failure: bool,
}

impl Default for WaitOptions {
    fn default() -> (o: Self)
        ensures
            o.poll_interval_ms == 2000,
            o.timeout_ms is None,
            o.throw_on_failure,
    {
        WaitOptions { poll_interval_ms: 2000, timeout_ms: None, throw_on_failure: true }
    }
}

/// What follows a poll of a task.
#[derive(Debug, Clone, Copy, PartialEq, Eq, Structural)]
pub enum PollAction {
    /// Return the task.
    Finish,
    /// Raise [`Error::Task`] with the task.
    FailTask,
    /// Raise [`Error::Timeout`] after this many milliseconds.
    FailTimeout { timeout_ms: u64 },
    /// Sleep this many milliseconds, then poll again.
    Sleep { ms: u64 },
}

/// The decision after a poll that found the task in `status`, `elapsed_ms`
/// milliseconds after the wait began.
pub open spec fn poll_outcome(status: TaskStatus, opts: WaitOptions, elapsed_ms: u64) -> PollAction {
    if status.spec_is_terminal() {
        if opts.throw_on_failure && status != TaskStatus::Success {
            PollAction::FailTask
        } else {
            PollAction::Finish
        }
    } else {
        match opts.timeout_ms {
            Some(t) => if elapsed_ms >= t {
                PollAction::FailTimeout { timeout_ms: t }
            } else {
                PollAction::Sleep { ms: opts.poll_interval_ms }
            },
            None => PollAction::Sleep { ms: opts.poll_interval_ms },
        }
    }
}

/// Decides what follows a poll of a task being waited for: a terminal task
/// ends the wait (with [`Error::Task`] when it failed and `throw_on_failure`
/// is set), a task still in progress times the wait out once its budget is
/// spent, and otherwise the next poll follows after the poll interval.
pub fn poll_decision(status: TaskStatus, opts: &WaitOptions, elapsed_ms: u64) -> (a: PollAction)
    ensures
        a == poll_outcome(status, *opts, elapsed_ms),
{
    if status.is_terminal() {
        if opts.throw_on_failure && !status.is_success() {
            return PollAction::FailTask;
        }
        return PollAction::Finish;
    }
    if let Some(t) = opts.timeout_ms {
        if elapsed_ms >= t {
            return PollAction::FailTimeout { timeout_ms: t };
        }
    }
    PollAction::Sleep { ms: opts.poll_interval_ms }
}

/// A settled task ends the wait: it is never polled again, whatever time
/// has passed.
pub proof fn settled_tasks_end_the_wait(status: TaskStatus, opts: WaitOptions, elapsed_ms: u64)
    requires
        status.spec_is_terminal(),
    ensures
        poll_outcome(status, opts, elapsed_ms) == PollAction::Finish
            || poll_outcome(status, opts, elapsed_ms) == PollAction::FailTask,
{
}

/// A successful task is always handed back, never raised.
pub proof fn success_is_returned(opts: WaitOptions, elapsed_ms: u64)
    ensures
        poll_outcome(TaskStatus::Success, opts, elapsed_ms) == PollAction::Finish,
{
}

/// Only a task that settled without success, waited for with
/// `throw_on_failure`, is raised as [`Error::Task`].
pub proof fn only_failed_tasks_are_raised(status: TaskStatus, opts: WaitOptions, elapsed_ms: u64)
    ensures
        poll_outcome(status, opts, elapsed_ms) == PollAction::FailTask <==> status.spec_is_terminal()
            && status != TaskStatus::Success && opts.throw_on_failure,
{
}

/// A task in progress is polled again after the poll interval until the
/// budget is spent, and then the wait times out with that budget.
pub proof fn unsettled_tasks_wait_within_budget(status: TaskStatus, opts: WaitOptions, elapsed_ms: u64)
    requires
        !status.spec_is_terminal(),
    ensures
        (opts.timeout_ms matches Some(t) && elapsed_ms >= t) ==> poll_outcome(status, opts, elapsed_ms)
            == (PollAction::FailTimeout { timeout_ms: opts.timeout_ms->0 }),
        !(opts.timeout_ms matches Some(t) && elapsed_ms >= t) ==> poll_outcome(status, opts, elapsed_ms)
            == (PollAction::Sleep { ms: opts.poll_interval_ms }),
{
}

/// A wait that ends with the task handed back ends on a settled task, and
/// on a successful one when failures are raised.
pub proof fn finished_waits_are_settled(status: TaskStatus, opts: WaitOptions, elapsed_ms: u64)
    requires
        poll_outcome(status, opts, elapsed_ms) == PollAction::Finish,
    ensures
        status.spec_is_terminal(),
        opts.throw_on_failure ==> status == TaskStatus::Success,
{
}

/// The error that ends a wait for `task_id` after `timeout_ms` milliseconds.
pub fn timeout_error(task_id: &str, timeout_ms: u64) -> (e: Error)
    ensures
        e matches Error::Timeout { task_id: t, timeout_ms: ms } && t@ == task_id@
            && ms == timeout_ms,
{
    Error::Timeout { task_id: task_id.to_owned(), timeout_ms }
}

/// A downloaded model.
#[derive(Debug, Clone)]
pub struct DownloadedModel {
    pub url: String,
    pub content_type: Option<String>,
    pub data: Vec<u8>,
}

/// The part of a URL before its query or fragment.
pub open spec fn url_path(url: Seq<char>) -> Seq<char> {
    url.take(query_start(url) as int)
}

/// The last `/`-separated segment of a path.
pub open spec fn last_segment(path: Seq<char>) -> Seq<char> {
    path.skip(last_index_of(path, '/') + 1)
}

/// The file extension a URL carries, as written: what follows the last `.`
/// of the last segment of its path, if that segment has a `.`.
pub open spec fn url_extension(url: Seq<char>) -> Option<Seq<char>> {
    let name = last_segment(url_path(url));
    if last_index_of(name, '.') >= 0 {
        Some(name.skip(last_index_of(name, '.') + 1))
    } else {
        None
    }
}

/// An extension is a bare suffix of the URL's file name: it holds no `.`,
/// no `/` and no `?` or `#`.
pub proof fn extensions_are_bare(url: Seq<char>)
    ensures
        url_extension(url) matches Some(e) ==> forall|i: int| 0 <= i < e.len() ==> #[trigger] e[i] != '.'
            && e[i] != '/' && e[i] != '?' && e[i] != '#',
{
    let path = url_path(url);
    query_start_bounds(url);
    last_index_of_bounds(path, '/');
    let name = last_segment(path);
    last_index_of_bounds(name, '.');
    if last_index_of(name, '.') >= 0 {
        let e = name.skip(last_index_of(name, '.') + 1);
        assert forall|i: int| 0 <= i < e.len() implies #[trigger] e[i] != '.' && e[i] != '/' && e[i] != '?'
            && e[i] != '#' by {
            let k = last_index_of(name, '.') + 1 + i;
            assert(e[i] == name[k]);
            let kp = last_index_of(path, '/') + 1 + k;
            assert(name[k] == path[kp]);
            assert(path[kp] == url[kp]);
        }
    }
}

impl DownloadedModel {
    /// The lower-case file extension of the downloaded model, without the
    /// leading dot (e.g. `"glb"`, `"fbx"`), or `None` if the URL carries
    /// none.
    ///
    /// Do not assume GLB: setting `quad` on a generation task forces FBX
    /// output, and `convert_model` emits whichever format was requested.
    pub fn extension(&self) -> (r: Option<String>)
        ensures
            r is None <==> url_extension(self.url@) is None,
            r matches Some(e) ==> e@ == lowercase(url_extension(self.url@)->0),
    {
        let url = chars_of(self.url.as_str());
        let end = find_query_start(&url);
        let path = sub_chars(&url, 0, end);
        assert(path@ == url_path(self.url@));
        let start = match find_last(&path, '/') {
            Some(k) => k + 1,
            None => 0,
        };
        let name = sub_chars(&path, start, path.len());
        assert(name@ =~= last_segment(path@));
        match find_last(&name, '.') {
            Some(dot) => {
                let ext = sub_chars(&name, dot + 1, name.len());
                assert(ext@ =~= name@.skip(dot + 1));
                let raw = string_from_chars(ext.as_slice());
                Some(str_to_lowercase(raw.as_str()))
            },
            None => None,
        }
    }

    /// A download-ready `<name>.<ext>` for this model, falling back to
    /// `glb` when the URL carries no extension.
    pub fn filename(&self, name: &str) -> (f: String)
        ensures
            f@ == name@ + "."@ + match url_extension(self.url@) {
                Some(x) => lowercase(x),
                None => "glb"@,
            },
    {
        let mut f = String::from_str(name);
        f.append(".");
        match self.extension() {
            Some(ext) => f.append(ext.as_str()),
            None => f.append("glb"),
        }
        f
    }
}


/// A byte that stands for itself in a URL path segment: an ASCII letter or
/// digit, `-`, `_`, `.` or `~`.
pub open spec fn is_unreserved(b: u8) -> bool {
    (65 <= b <= 90) || (97 <= b <= 122) || (48 <= b <= 57) || b == 45 || b == 95 || b == 46 || b == 126
}

/// The upper-case hexadecimal digit of `n`, for `n < 16`.
pub open spec fn hex_digit(n: int) -> char {
    if n < 10 {
        digit_char(n)
    } else if n == 10 {
        'A'
    } else if n == 11 {
        'B'
    } else if n == 12 {
        'C'
    } else if n == 13 {
        'D'
    } else if n == 14 {
        'E'
    } else {
        'F'
    }
}

/// A byte in a URL path segment: itself when unreserved, else `%` and its
/// two upper-case hexadecimal digits.
pub open spec fn percent_encode_byte(b: u8) -> Seq<char> {
    if is_unreserved(b) {
        seq![b as char]
    } else {
        seq!['%', hex_digit(b as int / 16), hex_digit(b as int % 16)]
    }
}

/// The percent-encoding of a byte sequence, byte by byte.
pub open spec fn percent_encode(bytes: Seq<u8>) -> Seq<char>
    decreases bytes.len(),
{
    if bytes.len() == 0 {
        Seq::empty()
    } else {
        percent_encode(bytes.drop_last()) + percent_encode_byte(bytes.last())
    }
}

fn hex(n: u8) -> (c: char)
    requires
        n < 16,
    ensures
        c == hex_digit(n as int),
{
    if n == 0 { '0' } else if n == 1 { '1' } else if n == 2 { '2' } else if n == 3 { '3' }
    else if n == 4 { '4' } else if n == 5 { '5' } else if n == 6 { '6' } else if n == 7 { '7' }
    else if n == 8 { '8' } else if n == 9 { '9' } else if n == 10 { 'A' } else if n == 11 { 'B' }
    else if n == 12 { 'C' } else if n == 13 { 'D' } else if n == 14 { 'E' } else { 'F' }
}

/// Percent-encodes `segment` for use as one segment of a URL path: the
/// bytes of its UTF-8 encoding, each kept when unreserved and otherwise
/// written as `%XX`.
pub fn urlencoding_encode(segment: &str) -> (out: String)
    ensures
        out@ == percent_encode(segment.spec_bytes()),
{
    let bytes = segment.as_bytes();
    let mut out: Vec<char> = Vec::new();
    let mut i: usize = 0;
    while i < bytes.len()
        invariant
            i <= bytes@.len(),
            bytes@ == segment.spec_bytes(),
            out@ == percent_encode(bytes@.take(i as int)),
        decreases bytes.len() - i,
    {
        let b = bytes[i];
        assert(bytes@.take(i + 1).drop_last() =~= bytes@.take(i as int));
        if (65 <= b && b <= 90) || (97 <= b && b <= 122) || (48 <= b && b <= 57) || b == 45 || b == 95
            || b == 46 || b == 126 {
            out.push(b as char);
        } else {
            out.push('%');
            out.push(hex(b / 16));
            out.push(hex(b % 16));
        }
        i = i + 1;
    }
    assert(bytes@.take(bytes@.len() as int) =~= bytes@);
    string_from_chars(out.as_slice())
}

/// The value of an upper-case hexadecimal digit.
pub open spec fn hex_value(c: char) -> int {
    if '0' <= c && c <= '9' {
        c as int - '0' as int
    } else {
        c as int - 'A' as int + 10
    }
}

/// Reads percent-encoded text back into bytes: `%XX` is the byte with
/// hexadecimal value `XX`, any other character the byte of its code.
pub open spec fn percent_decode(s: Seq<char>) -> Seq<u8>
    decreases s.len(),
{
    if s.len() == 0 {
        Seq::empty()
    } else if s[0] == '%' && s.len() >= 3 {
        seq![(hex_value(s[1]) * 16 + hex_value(s[2])) as u8] + percent_decode(s.skip(3))
    } else {
        seq![s[0] as u8] + percent_decode(s.drop_first())
    }
}

/// A character that may stand in a URL path segment as it is.
pub open spec fn is_path_safe(c: char) -> bool {
    ||| ('A' <= c && c <= 'Z')
    ||| ('a' <= c && c <= 'z')
    ||| ('0' <= c && c <= '9')
    ||| c == '-' || c == '_' || c == '.' || c == '~' || c == '%'
}

proof fn hex_digit_facts(n: int)
    requires
        0 <= n < 16,
    ensures
        hex_value(hex_digit(n)) == n,
        is_path_safe(hex_digit(n)),
{
}

proof fn encode_byte_decodes(b: u8, rest: Seq<char>)
    ensures
        percent_decode(percent_encode_byte(b) + rest) == seq![b] + percent_decode(rest),
{
    let e = percent_encode_byte(b);
    if is_unreserved(b) {
        assert((e + rest).drop_first() =~= rest);
        assert(((b as char) as u8) == b);
    } else {
        hex_digit_facts(b as int / 16);
        hex_digit_facts(b as int % 16);
        assert((e + rest).skip(3) =~= rest);
        assert((hex_value(e[1]) * 16 + hex_value(e[2])) == b as int);
    }
}

proof fn percent_encode_front(bytes: Seq<u8>)
    requires
        bytes.len() > 0,
    ensures
        percent_encode(bytes) == percent_encode_byte(bytes[0]) + percent_encode(bytes.drop_first()),
    decreases bytes.len(),
{
    if bytes.len() == 1 {
        assert(bytes.drop_last() =~= Seq::<u8>::empty());
        assert(bytes.drop_first() =~= Seq::<u8>::empty());
        assert(percent_encode(bytes.drop_first()) =~= Seq::<char>::empty());
        assert(percent_encode(bytes) =~= percent_encode_byte(bytes[0]));
    } else {
        percent_encode_front(bytes.drop_last());
        assert(bytes.drop_last().drop_first() =~= bytes.drop_first().drop_last());
        assert(bytes.drop_first().last() == bytes.last());
        assert(percent_encode(bytes) =~= percent_encode_byte(bytes[0]) + percent_encode(bytes.drop_first()));
    }
}

proof fn encode_then_decode(bytes: Seq<u8>, rest: Seq<char>)
    ensures
        percent_decode(percent_encode(bytes) + rest) == bytes + percent_decode(rest),
    decreases bytes.len(),
{
    if bytes.len() == 0 {
        assert(percent_encode(bytes) + rest =~= rest);
        assert(bytes + percent_decode(rest) =~= percent_decode(rest));
    } else {
        percent_encode_front(bytes);
        let tail = percent_encode(bytes.drop_first()) + rest;
        assert(percent_encode(bytes) + rest =~= percent_encode_byte(bytes[0]) + tail);
        encode_byte_decodes(bytes[0], tail);
        encode_then_decode(bytes.drop_first(), rest);
        assert(seq![bytes[0]] + (bytes.drop_first() + percent_decode(rest)) =~= bytes + percent_decode(rest));
    }
}

/// Percent-encoding loses nothing: decoding the encoding of any bytes gives
/// them back.
pub proof fn percent_encoding_is_reversible(bytes: Seq<u8>)
    ensures
        percent_decode(percent_encode(bytes)) == bytes,
{
    encode_then_decode(bytes, Seq::empty());
    assert(percent_encode(bytes) + Seq::<char>::empty() =~= percent_encode(bytes));
    assert(bytes + Seq::<u8>::empty() =~= bytes);
}

/// Percent-encoded text holds only characters that may stand in a URL path
/// segment: no `/`, `?`, `#` or space can leak from a task id into the path.
pub proof fn percent_encoding_is_path_safe(bytes: Seq<u8>)
    ensures
        forall|i: int| 0 <= i < percent_encode(bytes).len() ==> is_path_safe(#[trigger] percent_encode(bytes)[i]),
    decreases bytes.len(),
{
    if bytes.len() > 0 {
        percent_encoding_is_path_safe(bytes.drop_last());
        let b = bytes.last();
        hex_digit_facts(b as int / 16);
        hex_digit_facts(b as int % 16);
        let pre = percent_encode(bytes.drop_last());
        let e = percent_encode_byte(b);
        assert forall|i: int| 0 <= i < percent_encode(bytes).len() implies is_path_safe(#[trigger] percent_encode(bytes)[i]) by {
            if i < pre.len() {
                assert(percent_encode(bytes)[i] == pre[i]);
            } else {
                assert(percent_encode(bytes)[i] == e[i - pre.len()]);
            }
        }
    }
}

/// Distinct task ids are fetched from distinct paths.
pub proof fn distinct_tasks_have_distinct_paths(a: Seq<char>, b: Seq<char>)
    requires
        a != b,
    ensures
        "/tasks/"@ + percent_encode(encode_utf8(a)) != "/tasks/"@ + percent_encode(encode_utf8(b)),
{
    let pre = "/tasks/"@;
    if pre + percent_encode(encode_utf8(a)) == pre + percent_encode(encode_utf8(b)) {
        assert((pre + percent_encode(encode_utf8(a))).skip(pre.len() as int) =~= percent_encode(encode_utf8(a)));
        assert((pre + percent_encode(encode_utf8(b))).skip(pre.len() as int) =~= percent_encode(encode_utf8(b)));
        percent_encoding_is_reversible(encode_utf8(a));
        percent_encoding_is_reversible(encode_utf8(b));
        encode_utf8_decode_utf8(a);
        encode_utf8_decode_utf8(b);
    }
}

/// A character that percent-encoding keeps as it is.
pub open spec fn is_unreserved_char(c: char) -> bool {
    ||| ('A' <= c && c <= 'Z')
    ||| ('a' <= c && c <= 'z')
    ||| ('0' <= c && c <= '9')
    ||| c == '-' || c == '_' || c == '.' || c == '~'
}

/// Percent-encoding keeps exactly the ASCII letters and digits and `-`,
/// `_`, `.` and `~`; every other byte, any byte of a multi-byte character
/// among them, becomes `%` and two upper-case hexadecimal digits that read
/// back as the byte.
pub proof fn bytes_encode_as_themselves_or_escapes(b: u8)
    ensures
        b < 128 ==> (is_unreserved(b) <==> is_unreserved_char(b as char)),
        b >= 128 ==> !is_unreserved(b),
        is_unreserved(b) ==> percent_encode_byte(b) == seq![b as char],
        !is_unreserved(b) ==> {
            let e = percent_encode_byte(b);
            &&& e.len() == 3
            &&& e[0] == '%'
            &&& '0' <= e[1] <= '9' || 'A' <= e[1] <= 'F'
            &&& '0' <= e[2] <= '9' || 'A' <= e[2] <= 'F'
            &&& hex_value(e[1]) * 16 + hex_value(e[2]) == b
        },
{
    let hi = b as int / 16;
    let lo = b as int % 16;
    assert(0 <= hi < 16 && 0 <= lo < 16);
    assert(hi * 16 + lo == b);
}

proof fn unreserved_bytes_are_kept(bytes: Seq<u8>)
    requires
        forall|i: int| 0 <= i < bytes.len() ==> is_unreserved(#[trigger] bytes[i]),
    ensures
        percent_encode(bytes) == Seq::new(bytes.len(), |i: int| bytes[i] as char),
    decreases bytes.len(),
{
    if bytes.len() > 0 {
        unreserved_bytes_are_kept(bytes.drop_last());
        assert(is_unreserved(bytes.last()));
        assert(percent_encode(bytes) =~= Seq::new(bytes.len(), |i: int| bytes[i] as char));
    }
}

/// A task id made only of ASCII letters, digits, `-`, `_`, `.` and `~` is
/// used in the path exactly as it is.
pub proof fn plain_task_ids_are_kept(id: Seq<char>)
    requires
        forall|i: int| 0 <= i < id.len() ==> is_unreserved_char(#[trigger] id[i]),
    ensures
        percent_encode(encode_utf8(id)) == id,
{
    assert(is_ascii_chars(id));
    is_ascii_chars_encode_utf8(id);
    let bytes = encode_utf8(id);
    assert forall|i: int| 0 <= i < bytes.len() implies is_unreserved(#[trigger] bytes[i]) by {
        assert(id[i] as u8 == bytes[i]);
        assert(is_unreserved_char(id[i]));
    }
    unreserved_bytes_are_kept(bytes);
    assert forall|i: int| 0 <= i < id.len() implies (bytes[i] as char) == #[trigger] id[i] by {
        assert(id[i] as u8 == bytes[i]);
        assert(is_unreserved_char(id[i]));
    }
    assert(percent_encode(bytes) =~= id);
}

/// Where a task is fetched: `/tasks/` and its percent-encoded id. An empty
/// id is an [`Error::InvalidArgument`].
pub fn task_path(task_id: &str) -> (r: Result<String, Error>)
    ensures
        task_id@.len() == 0 ==> (r matches Err(Error::InvalidArgument(m)) && m@
            == "get_task: `task_id` is required"@),
        task_id@.len() > 0 ==> (r matches Ok(p) && p@ == "/tasks/"@ + percent_encode(task_id.spec_bytes())),
{
    if task_id.is_empty() {
        return Err(Error::invalid_argument("get_task: `task_id` is required"));
    }
    let mut p = String::from_str("/tasks/");
    let encoded = urlencoding_encode(task_id);
    p.append(encoded.as_str());
    Ok(p)
}

} // verus!
