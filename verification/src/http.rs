//! Rules for requests to the music services: how far apart requests are
//! spaced, how a rate-limited request is retried, and what a failed request
//! is reported as. The shell sends the requests and sleeps; these functions
//! decide.

use vstd::prelude::*;

use crate::text::{chars_of, decimal, decimal_string, join2, join3, StrSeq};

verus! {

/// How many times a rate-limited request is sent again before giving up.
pub const RATE_LIMIT_RETRIES: u32 = 5;

/// The wait, in seconds, after a rate-limited reply without a usable
/// `Retry-After` header.
pub const RATE_LIMIT_FALLBACK_SECS: u64 = 3;

/// The least time between two requests to the catalog, in nanoseconds.
pub const MIN_REQUEST_INTERVAL_NANOS: u64 = 5_000_000_000;

/// How long to wait before the next request, when the last one was sent
/// `elapsed` nanoseconds ago (`None` when none was sent yet): whatever is
/// left of the least interval.
pub open spec fn throttle_delay(elapsed: Option<u64>) -> u64 {
    match elapsed {
        Some(e) => if e < MIN_REQUEST_INTERVAL_NANOS {
            (MIN_REQUEST_INTERVAL_NANOS - e) as u64
        } else {
            0
        },
        None => 0,
    }
}

/// How long to wait before the next request (see `throttle_delay`).
pub fn throttle_wait(elapsed: Option<u64>) -> (w: u64)
    ensures
        w == throttle_delay(elapsed),
        w <= MIN_REQUEST_INTERVAL_NANOS,
{
    match elapsed {
        Some(e) => if e < MIN_REQUEST_INTERVAL_NANOS {
            MIN_REQUEST_INTERVAL_NANOS - e
        } else {
            0
        },
        None => 0,
    }
}

// ---------------------------------------------------------------------------
// Unsigned numbers in text

/// Whether `c` is an ASCII digit.
pub open spec fn is_digit(c: char) -> bool {
    '0' <= c && c <= '9'
}

/// The value of the digit `c`.
pub open spec fn digit_value(c: char) -> nat {
    ((c as u32) - ('0' as u32)) as nat
}

/// Whether every character of `s` is a digit.
pub open spec fn all_digits(s: Seq<char>) -> bool {
    forall|i: int| 0 <= i < s.len() ==> is_digit(#[trigger] s[i])
}

/// The value of the decimal digits `s`.
pub open spec fn digits_value(s: Seq<char>) -> nat
    decreases s.len(),
{
    if s.len() == 0 {
        0
    } else {
        digits_value(s.drop_last()) * 10 + digit_value(s.last())
    }
}

/// An unsigned number written in decimal, as `str::parse::<u64>` reads it:
/// an optional `+`, then one or more digits, of a value that fits in 64 bits.
pub open spec fn unsigned_text(s: Seq<char>) -> Option<u64> {
    let d = if s.len() > 0 && s[0] == '+' {
        s.skip(1)
    } else {
        s
    };
    if d.len() > 0 && all_digits(d) && digits_value(d) <= u64::MAX {
        Some(digits_value(d) as u64)
    } else {
        None
    }
}

/// The value of a prefix of digits is at most that of a longer prefix.
proof fn lemma_digits_value_grows(s: Seq<char>, k: int, j: int)
    requires
        0 <= k <= j <= s.len(),
    ensures
        digits_value(s.take(k)) <= digits_value(s.take(j)),
    decreases j - k,
{
    if k < j {
        lemma_digits_value_grows(s, k, j - 1);
        assert(s.take(j).drop_last() =~= s.take(j - 1));
    }
}

/// Reads an unsigned number written in decimal (see `unsigned_text`).
pub fn parse_unsigned(s: &str) -> (r: Option<u64>)
    ensures
        r == unsigned_text(s@),
{
    let v = chars_of(s);
    let start: usize = if v.len() > 0 && v[0] == '+' { 1 } else { 0 };
    let ghost d = if s@.len() > 0 && s@[0] == '+' { s@.skip(1) } else { s@ };
    assert(d =~= v@.skip(start as int));
    if start == v.len() {
        return None;
    }
    let mut acc: u64 = 0;
    let mut i: usize = start;
    assert(d.take(0) =~= Seq::<char>::empty());
    while i < v.len()
        invariant
            start <= i <= v.len(),
            start < v.len(),
            d == v@.skip(start as int),
            d == (if s@.len() > 0 && s@[0] == '+' { s@.skip(1) } else { s@ }),
            acc == digits_value(d.take(i - start)),
            all_digits(d.take(i - start)),
        decreases v.len() - i,
    {
        let c = v[i];
        assert(d[i - start] == c);
        if !('0' <= c && c <= '9') {
            assert(!is_digit(d[i - start]));
            return None;
        }
        let digit: u64 = (c as u32 - '0' as u32) as u64;
        assert(d.take(i - start + 1).drop_last() =~= d.take(i - start));
        assert(digits_value(d.take(i - start + 1)) == acc * 10 + digit);
        let next = match acc.checked_mul(10) {
            Some(m) => m.checked_add(digit),
            None => None,
        };
        match next {
            Some(n) => {
                acc = n;
                i = i + 1;
                assert(d.take(i - start) =~= d.take(i - start - 1).push(c));
            },
            None => {
                proof {
                    lemma_digits_value_grows(d, i - start + 1, d.len() as int);
                    assert(d.take(d.len() as int) =~= d);
                }
                return None;
            },
        }
    }
    assert(d.take(i - start) =~= d);
    Some(acc)
}

// ---------------------------------------------------------------------------
// Rate-limited requests

/// The message for a request refused with status `code`.
pub open spec fn status_error_text(code: u16, body: Seq<char>) -> Seq<char> {
    "HTTP "@ + decimal(code as nat) + ": "@ + body
}

/// The message for a request refused with status `code` and reply `body`.
pub fn status_error(code: u16, body: &str) -> (r: String)
    ensures
        r@ == status_error_text(code, body@),
{
    join3("HTTP ", decimal_string(code as u64).as_str(), join2(": ", body).as_str())
}

/// The message for a reply whose body is not JSON.
pub open spec fn bad_json_text(status: u16, error: Seq<char>, body: Seq<char>) -> Seq<char> {
    "HTTP "@ + decimal(status as nat) + ": bad json ("@ + error + "): "@ + body
}

/// The message for a reply with status `status` whose body is not JSON.
pub fn bad_json(status: u16, error: &str, body: &str) -> (r: String)
    ensures
        r@ == bad_json_text(status, error@, body@),
{
    let mut r = join2("HTTP ", decimal_string(status as u64).as_str());
    r.append(": bad json (");
    r.append(error);
    r.append("): ");
    r.append(body);
    r
}

/// The log line written before a request is sent.
pub fn request_line(url: &str) -> (r: String)
    ensures
        r@ == "GET "@ + url@,
{
    join2("GET ", url)
}

/// What came back from one GET of a rate-limited service.
#[derive(Debug)]
pub enum GetReply {
    /// A response, with its status and its body.
    Body { status: u16, body: String },
    /// A response whose body could not be read.
    Unreadable { status: u16, error: String },
    /// An error status, with the `Retry-After` header when there is one, and
    /// the body.
    Refused { code: u16, retry_after: Option<String>, body: String },
    /// No response at all.
    Failed { error: String },
}

pub enum GetReplyView {
    Body { status: u16, body: Seq<char> },
    Unreadable { status: u16, error: Seq<char> },
    Refused { code: u16, retry_after: Option<Seq<char>>, body: Seq<char> },
    Failed { error: Seq<char> },
}

impl View for GetReply {
    type V = GetReplyView;

    open spec fn view(&self) -> GetReplyView {
        match self {
            GetReply::Body { status, body } => GetReplyView::Body { status: *status, body: body@ },
            GetReply::Unreadable { status, error } => GetReplyView::Unreadable { status: *status, error: error@ },
            GetReply::Refused { code, retry_after, body } => GetReplyView::Refused {
                code: *code,
                retry_after: match retry_after {
                    Some(r) => Some(r@),
                    None => None,
                },
                body: body@,
            },
            GetReply::Failed { error } => GetReplyView::Failed { error: error@ },
        }
    }
}

/// What to do after a reply.
#[derive(Debug)]
pub enum GetStep {
    /// The body came in: the shell reads it as JSON (see `bad_json`).
    Done { status: u16, body: String },
    /// Wait this many seconds, then send the request again.
    Wait { secs: u64 },
    /// Give up with this error.
    Fail { error: String },
}

pub enum GetStepView {
    Done { status: u16, body: Seq<char> },
    Wait { secs: u64 },
    Fail { error: Seq<char> },
}

impl View for GetStep {
    type V = GetStepView;

    open spec fn view(&self) -> GetStepView {
        match self {
            GetStep::Done { status, body } => GetStepView::Done { status: *status, body: body@ },
            GetStep::Wait { secs } => GetStepView::Wait { secs: *secs },
            GetStep::Fail { error } => GetStepView::Fail { error: error@ },
        }
    }
}

/// The wait asked by a rate-limited reply: its `Retry-After` seconds when
/// they read as a number, three seconds otherwise.
pub open spec fn retry_delay(retry_after: Option<Seq<char>>) -> u64 {
    match retry_after {
        Some(r) => match unsigned_text(r) {
            Some(n) => n,
            None => RATE_LIMIT_FALLBACK_SECS,
        },
        None => RATE_LIMIT_FALLBACK_SECS,
    }
}

/// The log lines written for a reply to attempt `attempt` (counted from 0),
/// and what to do next: the body when one came in; another try after the
/// asked wait when the service rate-limits (status 429) and tries are left;
/// an error otherwise.
pub open spec fn get_outcome(attempt: u32, reply: GetReplyView) -> (StrSeq, GetStepView) {
    match reply {
        GetReplyView::Body { status, body } => (
            seq!["  <- "@ + decimal(status as nat), "     "@ + body],
            GetStepView::Done { status, body },
        ),
        GetReplyView::Unreadable { status, error } => (
            seq!["  <- "@ + decimal(status as nat)],
            GetStepView::Fail { error: "HTTP "@ + decimal(status as nat) + ": bad response body: "@ + error },
        ),
        GetReplyView::Refused { code, retry_after, body } => if code == 429 {
            if attempt == RATE_LIMIT_RETRIES {
                (
                    seq!["  <- 429 "@ + body + " (out of retries, giving up)"@],
                    GetStepView::Fail { error: status_error_text(429, body) },
                )
            } else {
                (
                    seq![
                        "  <- 429 "@ + body + " (rate limited, retrying in "@ + decimal(retry_delay(retry_after) as nat)
                            + "s)"@,
                    ],
                    GetStepView::Wait { secs: retry_delay(retry_after) },
                )
            }
        } else {
            (seq!["  <- "@ + decimal(code as nat) + " "@ + body], GetStepView::Fail { error: status_error_text(code, body) })
        },
        GetReplyView::Failed { error } => (seq!["  <- error: "@ + error], GetStepView::Fail { error }),
    }
}

/// What a reply leads to: the lines to log and the next step.
#[derive(Debug)]
pub struct GetOutcome {
    pub log: Vec<String>,
    pub step: GetStep,
}

/// Decides what follows a reply to attempt `attempt` of a rate-limited GET
/// (see `get_outcome`). The last allowed attempt never asks for a wait, so a
/// request is sent at most `RATE_LIMIT_RETRIES + 1` times.
pub fn on_get_reply(attempt: u32, reply: GetReply) -> (r: GetOutcome)
    requires
        attempt <= RATE_LIMIT_RETRIES,
    ensures
        (crate::text::seq_strings(r.log@), r.step@) == get_outcome(attempt, reply@),
        attempt == RATE_LIMIT_RETRIES ==> !(r.step is Wait),
{
    let ghost rv = reply@;
    let mut log: Vec<String> = Vec::new();
    let step = match reply {
        GetReply::Body { status, body } => {
            log.push(join2("  <- ", decimal_string(status as u64).as_str()));
            log.push(join2("     ", body.as_str()));
            GetStep::Done { status, body }
        },
        GetReply::Unreadable { status, error } => {
            let code = decimal_string(status as u64);
            log.push(join2("  <- ", code.as_str()));
            let mut e = join3("HTTP ", code.as_str(), ": bad response body: ");
            e.append(error.as_str());
            GetStep::Fail { error: e }
        },
        GetReply::Refused { code, retry_after, body } => {
            if code == 429 {
                if attempt == RATE_LIMIT_RETRIES {
                    log.push(join3("  <- 429 ", body.as_str(), " (out of retries, giving up)"));
                    GetStep::Fail { error: status_error(429, body.as_str()) }
                } else {
                    let secs = match &retry_after {
                        Some(r) => match parse_unsigned(r.as_str()) {
                            Some(n) => n,
                            None => RATE_LIMIT_FALLBACK_SECS,
                        },
                        None => RATE_LIMIT_FALLBACK_SECS,
                    };
                    let mut line = join3("  <- 429 ", body.as_str(), " (rate limited, retrying in ");
                    line.append(decimal_string(secs).as_str());
                    line.append("s)");
                    log.push(line);
                    GetStep::Wait { secs }
                }
            } else {
                let mut line = join2("  <- ", decimal_string(code as u64).as_str());
                line.append(" ");
                line.append(body.as_str());
                log.push(line);
                GetStep::Fail { error: status_error(code, body.as_str()) }
            }
        },
        GetReply::Failed { error } => {
            log.push(join2("  <- error: ", error.as_str()));
            GetStep::Fail { error }
        },
    };
    proof {
        let want = get_outcome(attempt, rv);
        assert(crate::text::seq_strings(log@) =~= want.0);
    }
    GetOutcome { log, step }
}

} // verus!
