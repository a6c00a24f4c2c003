//! Reading what the remote probes print: the version of the installed
//! service, the three HTTP statuses of the liveness probe, and the verdict
//! drawn from them.

use vstd::prelude::*;
use crate::number::parse_u16;
use crate::number::read_u16;
use crate::text::char_is_digit;
use crate::text::from_chars;
use crate::text::has_prefix;
use crate::text::is_digit;
use crate::text::lines;
use crate::text::push_chars;
use crate::text::rows;
use crate::text::slice;
use crate::text::split_lines;
use crate::text::split_words;
use crate::text::starts_with;
use crate::text::to_chars;
use crate::text::trim;
use crate::text::trimmed;
use crate::text::words;

verus! {

/// Whether an HTTP status is an authentication challenge.
pub open spec fn is_auth_status(status: u16) -> bool {
    status == 401 || status == 403
}

/// Whether an HTTP status shows that the service is up: a success, or an
/// authentication challenge.
pub open spec fn is_liveness_status(status: u16) -> bool {
    200 <= status <= 299 || is_auth_status(status)
}

/// Whether an HTTP status is an authentication challenge (401 or 403).
pub fn is_auth_http_status(status: u16) -> (r: bool)
    ensures
        r == is_auth_status(status),
{
    status == 401 || status == 403
}

/// Whether an HTTP status shows that the service is up.
pub fn is_liveness_http_status(status: u16) -> (r: bool)
    ensures
        r == is_liveness_status(status),
{
    (200 <= status && status <= 299) || is_auth_http_status(status)
}

/// The number after `prefix` on a line of the form `prefix` + number, the
/// number possibly surrounded by white space.
pub open spec fn status_line_value(line: Option<Seq<char>>, prefix: Seq<char>) -> Option<u16> {
    match line {
        Some(l) => if has_prefix(l, prefix) {
            parse_u16(trim(l.skip(prefix.len() as int)))
        } else {
            None
        },
        None => None,
    }
}

fn status_line_chars(line: &Vec<char>, prefix: &Vec<char>) -> (r: Option<u16>)
    ensures
        r == status_line_value(Some(line@), prefix@),
{
    if !starts_with(line, prefix) {
        return None;
    }
    let rest = slice(line, prefix.len(), line.len());
    assert(rest@ =~= line@.skip(prefix.len() as int));
    read_u16(&trimmed(&rest))
}

/// Reads the HTTP status from one line of probe output.
pub fn parse_probe_status_line(line: Option<&str>, prefix: &str) -> (r: Option<u16>)
    ensures
        r == status_line_value(
            match line {
                Some(l) => Some(l@),
                None => None,
            },
            prefix@,
        ),
{
    match line {
        Some(l) => status_line_chars(&to_chars(l), &to_chars(prefix)),
        None => None,
    }
}

/// A word without one leading `v`.
pub open spec fn without_v(t: Seq<char>) -> Seq<char> {
    if t.len() > 0 && t[0] == 'v' {
        t.drop_first()
    } else {
        t
    }
}

/// A word without the commas and parentheses that end it.
pub open spec fn without_closing(t: Seq<char>) -> Seq<char>
    decreases t.len(),
{
    if t.len() > 0 && (t.last() == ',' || t.last() == ')' || t.last() == '(') {
        without_closing(t.drop_last())
    } else {
        t
    }
}

/// Two or more runs of digits joined by single dots.
pub open spec fn is_dotted_number(c: Seq<char>) -> bool {
    &&& c.len() > 0
    &&& forall|i: int| 0 <= i < c.len() ==> is_digit(#[trigger] c[i]) || c[i] == '.'
    &&& c[0] != '.'
    &&& c.last() != '.'
    &&& forall|i: int| 0 <= i < c.len() - 1 ==> !(#[trigger] c[i] == '.' && c[i + 1] == '.')
    &&& exists|i: int| 0 <= i < c.len() && c[i] == '.'
}

/// The version a word spells, if it spells one.
pub open spec fn word_version(t: Seq<char>) -> Option<Seq<char>> {
    let c = without_closing(without_v(t));
    if is_dotted_number(c) {
        Some(c)
    } else {
        None
    }
}

/// The version spelled by the first word that spells one.
pub open spec fn first_version(ws: Seq<Seq<char>>) -> Option<Seq<char>>
    decreases ws.len(),
{
    if ws.len() == 0 {
        None
    } else if word_version(ws[0]) is Some {
        word_version(ws[0])
    } else {
        first_version(ws.drop_first())
    }
}

/// The version that the output of `--version` reports.
pub open spec fn version_token(raw: Seq<char>) -> Option<Seq<char>> {
    first_version(words(raw))
}

fn check_dotted_number(c: &Vec<char>) -> (r: bool)
    ensures
        r == is_dotted_number(c@),
{
    if c.len() == 0 {
        return false;
    }
    if c[0] == '.' || c[c.len() - 1] == '.' {
        return false;
    }
    let mut seen_dot = false;
    let ghost mut dot_at: int = 0;
    let mut i: usize = 0;
    while i < c.len()
        invariant
            i <= c.len(),
            c.len() > 0,
            forall|k: int| 0 <= k < i ==> is_digit(#[trigger] c@[k]) || c@[k] == '.',
            forall|k: int| 0 <= k < i - 1 ==> !(#[trigger] c@[k] == '.' && c@[k + 1] == '.'),
            seen_dot ==> 0 <= dot_at < i && c@[dot_at] == '.',
            !seen_dot ==> forall|k: int| 0 <= k < i ==> c@[k] != '.',
        decreases c.len() - i,
    {
        let ch = c[i];
        if ch == '.' {
            if i > 0 && c[i - 1] == '.' {
                assert(c@[i - 1] == '.' && c@[i - 1 + 1] == '.');
                return false;
            }
            seen_dot = true;
            proof {
                dot_at = i as int;
            }
        } else if !char_is_digit(ch) {
            assert(!(is_digit(c@[i as int]) || c@[i as int] == '.'));
            return false;
        }
        i += 1;
    }
    seen_dot
}

fn word_version_chars(t: &Vec<char>) -> (r: Option<Vec<char>>)
    ensures
        match r {
            Some(v) => word_version(t@) == Some(v@),
            None => word_version(t@) is None,
        },
{
    let start: usize = if t.len() > 0 && t[0] == 'v' {
        1
    } else {
        0
    };
    let body = slice(t, start, t.len());
    assert(body@ =~= without_v(t@));
    let mut end: usize = body.len();
    assert(body@.take(body.len() as int) =~= body@);
    while end > 0 && (body[end - 1] == ',' || body[end - 1] == ')' || body[end - 1] == '(')
        invariant
            end <= body.len(),
            without_closing(body@) == without_closing(body@.take(end as int)),
        decreases end,
    {
        assert(body@.take(end as int).drop_last() =~= body@.take(end - 1));
        end -= 1;
    }
    let candidate = slice(&body, 0, end);
    assert(candidate@ =~= body@.take(end as int));
    if check_dotted_number(&candidate) {
        Some(candidate)
    } else {
        None
    }
}

/// Finds the version in the output of `--version`: the first word that is
/// a dotted number, with an optional leading `v` and with closing commas
/// and parentheses removed.
pub fn parse_version_token(raw: &str) -> (r: Option<String>)
    ensures
        match r {
            Some(v) => version_token(raw@) == Some(v@),
            None => version_token(raw@) is None,
        },
{
    let ws = split_words(&to_chars(raw));
    let mut i: usize = 0;
    assert(rows(ws@).skip(0) =~= rows(ws@));
    while i < ws.len()
        invariant
            i <= ws.len(),
            rows(ws@) == words(raw@),
            version_token(raw@) == first_version(rows(ws@).skip(i as int)),
        decreases ws.len() - i,
    {
        let ghost rest = rows(ws@).skip(i as int);
        assert(rest[0] == ws@[i as int]@);
        assert(rest.drop_first() =~= rows(ws@).skip(i + 1));
        match word_version_chars(&ws[i]) {
            Some(v) => {
                return Some(from_chars(&v));
            },
            None => {},
        }
        i += 1;
    }
    None
}

/// What the liveness probe found.
#[derive(Debug, PartialEq, Eq)]
pub struct ProbeReport {
    /// Status of the system-information endpoint.
    pub info_status: u16,
    /// Status of the login, 0 when none was tried.
    pub auth_status: u16,
    /// Status of the health endpoint.
    pub health_status: u16,
    /// What the system-information endpoint answered, when it answered
    /// with a success.
    pub body: Option<String>,
}

pub struct ProbeReportView {
    pub info_status: u16,
    pub auth_status: u16,
    pub health_status: u16,
    pub body: Option<Seq<char>>,
}

impl View for ProbeReport {
    type V = ProbeReportView;

    open spec fn view(&self) -> ProbeReportView {
        ProbeReportView {
            info_status: self.info_status,
            auth_status: self.auth_status,
            health_status: self.health_status,
            body: crate::text::opt_text(self.body),
        }
    }
}

/// Why the probe did not find a usable service.
#[derive(Clone, Copy, Debug, PartialEq, Eq, Structural)]
pub enum ProbeError {
    /// The service asks for a login and the configured password was refused.
    RemoteAuthRejected { auth_status: u16 },
    /// The service asks for a login and no password is configured.
    RemoteAuthRequired,
    /// Neither endpoint answered.
    RemoteProbeFailed { info_status: u16, health_status: u16 },
}

/// A status line's number, or 0 when the line is missing or malformed.
pub open spec fn status_or_zero(ls: Seq<Seq<char>>, i: int, prefix: Seq<char>) -> u16 {
    let line = if i < ls.len() {
        Some(ls[i])
    } else {
        None
    };
    match status_line_value(line, prefix) {
        Some(n) => n,
        None => 0,
    }
}

/// The lines from the `n`th on; none when there are fewer.
pub open spec fn lines_from(ls: Seq<Seq<char>>, n: int) -> Seq<Seq<char>> {
    if 0 <= n <= ls.len() {
        ls.skip(n)
    } else {
        Seq::empty()
    }
}

/// The lines joined by line feeds.
pub open spec fn join_lines(ls: Seq<Seq<char>>) -> Seq<char>
    decreases ls.len(),
{
    if ls.len() == 0 {
        Seq::empty()
    } else if ls.len() == 1 {
        ls[0]
    } else {
        join_lines(ls.drop_last()) + seq!['\n'] + ls.last()
    }
}

/// The verdict on the three statuses of a probe.
///
/// The service is up when the system-information endpoint answers with a
/// success or an authentication challenge, or else when the health endpoint
/// does. A challenge with a configured password that the login refused is a
/// rejection; a challenge without a configured password needs the health
/// endpoint to be up.
pub open spec fn probe_verdict(
    info: u16,
    auth: u16,
    health: u16,
    has_password: bool,
    body: Seq<char>,
) -> Result<ProbeReportView, ProbeError> {
    let plain = ProbeReportView {
        info_status: info,
        auth_status: auth,
        health_status: health,
        body: None,
    };
    if is_auth_status(info) {
        if has_password {
            if auth != 200 {
                Err(ProbeError::RemoteAuthRejected { auth_status: auth })
            } else {
                Ok(plain)
            }
        } else if is_liveness_status(health) {
            Ok(plain)
        } else {
            Err(ProbeError::RemoteAuthRequired)
        }
    } else if is_liveness_status(info) {
        Ok(
            ProbeReportView {
                info_status: info,
                auth_status: auth,
                health_status: health,
                body: Some(body),
            },
        )
    } else if is_liveness_status(health) {
        Ok(plain)
    } else {
        Err(ProbeError::RemoteProbeFailed { info_status: info, health_status: health })
    }
}

/// What the output of the probe script means: three status lines, then the
/// body of the system-information answer.
pub open spec fn probe_outcome(output: Seq<char>, has_password: bool) -> Result<
    ProbeReportView,
    ProbeError,
> {
    let ls = lines(output);
    probe_verdict(
        status_or_zero(ls, 0, "INFO_STATUS="@),
        status_or_zero(ls, 1, "AUTH_STATUS="@),
        status_or_zero(ls, 2, "HEALTH_STATUS="@),
        has_password,
        join_lines(lines_from(ls, 3)),
    )
}

/// The model of a probe result.
pub open spec fn probe_result_view(r: Result<ProbeReport, ProbeError>) -> Result<
    ProbeReportView,
    ProbeError,
> {
    match r {
        Ok(p) => Ok(p@),
        Err(e) => Err(e),
    }
}

fn status_at(ls: &Vec<Vec<char>>, i: usize, prefix: &str) -> (r: u16)
    ensures
        r == status_or_zero(rows(ls@), i as int, prefix@),
{
    if i < ls.len() {
        assert(rows(ls@)[i as int] == ls@[i as int]@);
        match status_line_chars(&ls[i], &to_chars(prefix)) {
            Some(n) => n,
            None => 0,
        }
    } else {
        0
    }
}

fn joined_from(ls: &Vec<Vec<char>>, from: usize) -> (r: Vec<char>)
    ensures
        r@ == join_lines(lines_from(rows(ls@), from as int)),
{
    let mut out: Vec<char> = Vec::new();
    if from >= ls.len() {
        assert(lines_from(rows(ls@), from as int).len() == 0);
        return out;
    }
    let ghost tail = rows(ls@).skip(from as int);
    let mut i: usize = from;
    assert(tail.take(0) =~= Seq::<Seq<char>>::empty());
    while i < ls.len()
        invariant
            from <= i <= ls.len(),
            from < ls.len(),
            tail == rows(ls@).skip(from as int),
            out@ == join_lines(tail.take(i - from)),
        decreases ls.len() - i,
    {
        let ghost upto = tail.take(i + 1 - from);
        assert(upto.drop_last() =~= tail.take(i - from));
        assert(upto.last() == ls@[i as int]@);
        if i > from {
            out.push('\n');
        }
        push_chars(&mut out, &ls[i]);
        proof {
            if i > from {
                assert(out@ =~= join_lines(upto.drop_last()) + seq!['\n'] + upto.last());
            } else {
                assert(out@ =~= upto[0]);
            }
        }
        i += 1;
    }
    assert(tail.take(tail.len() as int) =~= tail);
    out
}

/// Draws the verdict from the output of the probe script.
pub fn interpret_probe_output(output: &str, has_password: bool) -> (r: Result<
    ProbeReport,
    ProbeError,
>)
    ensures
        probe_result_view(r) == probe_outcome(output@, has_password),
{
    let ls = split_lines(&to_chars(output));
    let info = status_at(&ls, 0, "INFO_STATUS=");
    let auth = status_at(&ls, 1, "AUTH_STATUS=");
    let health = status_at(&ls, 2, "HEALTH_STATUS=");
    if is_auth_http_status(info) {
        if has_password {
            if auth != 200 {
                return Err(ProbeError::RemoteAuthRejected { auth_status: auth });
            }
        } else if !is_liveness_http_status(health) {
            return Err(ProbeError::RemoteAuthRequired);
        }
    } else if is_liveness_http_status(info) {
        let body = joined_from(&ls, 3);
        return Ok(
            ProbeReport {
                info_status: info,
                auth_status: auth,
                health_status: health,
                body: Some(from_chars(&body)),
            },
        );
    } else if !is_liveness_http_status(health) {
        return Err(ProbeError::RemoteProbeFailed { info_status: info, health_status: health });
    }
    Ok(ProbeReport { info_status: info, auth_status: auth, health_status: health, body: None })
}

} // verus!
