//! Changes to what is remembered of one instance: log lines, status,
//! counters. The supervisor applies them to the record of the instance.

use vstd::prelude::*;
use crate::model::MAX_LOG_LINES_PER_INSTANCE;
use crate::model::lemma_texts_push;
use crate::registry::InstanceRuntime;
use crate::registry::RuntimeView;
use crate::status::DesktopSshInstanceStatus;
use crate::status::LogLevel;
use crate::status::StatusDraft;
use crate::status::StatusDraftView;
use crate::status::StatusView;
use crate::status::format_log_line;
use crate::status::level_for_phase;
use crate::status::log_line;
use crate::status::phase_level;
use crate::status::stamped;
use crate::status::status_log_message;
use crate::status::status_message;
use crate::text::texts;

verus! {

/// A log cut to the newest lines that may be kept.
pub open spec fn capped(log: Seq<Seq<char>>) -> Seq<Seq<char>> {
    if log.len() > MAX_LOG_LINES_PER_INSTANCE {
        log.skip(log.len() - MAX_LOG_LINES_PER_INSTANCE)
    } else {
        log
    }
}

/// A record with one more line in its log.
pub open spec fn with_line(r: RuntimeView, line: Seq<char>) -> RuntimeView {
    RuntimeView { log: capped(r.log.push(line)), ..r }
}

/// A record with one more log line, written at a time and a level.
pub open spec fn with_log(r: RuntimeView, now_ms: u64, level: LogLevel, message: Seq<char>)
    -> RuntimeView {
    with_line(r, log_line(now_ms, level, message))
}

/// The time a new status carries: now, unless the status it replaces is
/// newer than that.
pub open spec fn stamp_time(previous: Option<StatusView>, now_ms: u64) -> u64 {
    match previous {
        Some(s) => if s.updated_at_ms > now_ms {
            s.updated_at_ms
        } else {
            now_ms
        },
        None => now_ms,
    }
}

/// The status that a draft becomes in a record.
pub open spec fn next_status(r: RuntimeView, d: StatusDraftView, now_ms: u64) -> StatusView {
    stamped(d, r.id, stamp_time(r.status, now_ms))
}

/// A record with a new status, and with the log line that records it.
pub open spec fn with_status(r: RuntimeView, d: StatusDraftView, now_ms: u64) -> RuntimeView {
    RuntimeView {
        status: Some(next_status(r, d, now_ms)),
        ..with_log(r, now_ms, phase_level(d.phase), status_message(d))
    }
}

/// The time of a status is never before that of the status it replaces,
/// whatever the clock says.
pub proof fn lemma_status_time_never_goes_back(r: RuntimeView, d: StatusDraftView, now_ms: u64)
    ensures
        r.status matches Some(s) ==> s.updated_at_ms <= next_status(r, d, now_ms).updated_at_ms,
        next_status(r, d, now_ms).updated_at_ms >= now_ms,
        with_status(r, d, now_ms).status == Some(next_status(r, d, now_ms)),
{
}

/// Appends a line to the log of a record, dropping the oldest line when
/// the log is full.
pub fn record_line(record: &mut InstanceRuntime, line: String)
    requires
        old(record)@.log.len() <= MAX_LOG_LINES_PER_INSTANCE,
    ensures
        final(record)@ == with_line(old(record)@, line@),
        final(record)@.log.len() <= MAX_LOG_LINES_PER_INSTANCE,
{
    proof {
        lemma_texts_push(record.log@, line);
    }
    record.log.push(line);
    if record.log.len() > MAX_LOG_LINES_PER_INSTANCE {
        let ghost full = texts(record.log@);
        record.log.remove(0);
        assert(texts(record.log@) =~= full.skip(1));
    }
    assert(texts(record.log@) =~= capped(old(record)@.log.push(line@)));
}

/// Appends a message to the log of a record.
pub fn record_log(record: &mut InstanceRuntime, now_ms: u64, level: LogLevel, message: &str)
    requires
        old(record)@.log.len() <= MAX_LOG_LINES_PER_INSTANCE,
    ensures
        final(record)@ == with_log(old(record)@, now_ms, level, message@),
        final(record)@.log.len() <= MAX_LOG_LINES_PER_INSTANCE,
{
    record_line(record, format_log_line(now_ms, level, message));
}

/// Gives a record a new status and logs the change. The time of the new
/// status is never before that of the one it replaces.
pub fn record_status(record: &mut InstanceRuntime, draft: StatusDraft, now_ms: u64) -> (r:
    DesktopSshInstanceStatus)
    requires
        old(record)@.log.len() <= MAX_LOG_LINES_PER_INSTANCE,
    ensures
        final(record)@ == with_status(old(record)@, draft@, now_ms),
        r@ == next_status(old(record)@, draft@, now_ms),
        final(record)@.log.len() <= MAX_LOG_LINES_PER_INSTANCE,
        old(record)@.status matches Some(s) ==> s.updated_at_ms <= r@.updated_at_ms,
{
    let message = status_log_message(&draft);
    record_log(record, now_ms, level_for_phase(draft.phase), message.as_str());
    let at: u64 = match &record.status {
        Some(s) => if s.updated_at_ms > now_ms {
            s.updated_at_ms
        } else {
            now_ms
        },
        None => now_ms,
    };
    let status = DesktopSshInstanceStatus {
        id: record.id.clone(),
        phase: draft.phase,
        detail: draft.detail,
        local_url: draft.local_url,
        local_port: draft.local_port,
        remote_port: draft.remote_port,
        started_by_us: draft.started_by_us,
        retry_attempt: draft.retry_attempt,
        requires_user_action: draft.requires_user_action,
        updated_at_ms: at,
    };
    let copy = status.clone();
    record.status = Some(status);
    copy
}

/// The newest lines of a log: all of them when `limit` is 0 or the log is
/// no longer than `limit`, else the last `limit`.
pub open spec fn log_tail(log: Seq<Seq<char>>, limit: usize) -> Seq<Seq<char>> {
    if limit > 0 && log.len() > limit {
        log.skip(log.len() - limit)
    } else {
        log
    }
}

/// Copies the newest lines of a log.
pub fn tail_of(log: &Vec<String>, limit: usize) -> (r: Vec<String>)
    ensures
        texts(r@) == log_tail(texts(log@), limit),
{
    let start: usize = if limit > 0 && log.len() > limit {
        log.len() - limit
    } else {
        0
    };
    let mut out: Vec<String> = Vec::new();
    let mut i: usize = start;
    assert(texts(out@) =~= texts(log@).subrange(start as int, start as int));
    while i < log.len()
        invariant
            start <= i <= log.len(),
            texts(out@) == texts(log@).subrange(start as int, i as int),
        decreases log.len() - i,
    {
        let line = log[i].clone();
        proof {
            lemma_texts_push(out@, line);
        }
        out.push(line);
        i += 1;
        assert(texts(out@) =~= texts(log@).subrange(start as int, i as int));
    }
    assert(texts(log@).subrange(start as int, log.len() as int) =~= texts(log@).skip(start as int));
    assert(texts(log@).skip(0) =~= texts(log@));
    out
}

/// How many log lines a request gets: 200 when it names no number, and
/// never more than are kept.
pub open spec fn log_limit_of(limit: Option<usize>) -> usize {
    let wanted = match limit {
        Some(n) => n,
        None => 200,
    };
    if wanted < MAX_LOG_LINES_PER_INSTANCE {
        wanted
    } else {
        MAX_LOG_LINES_PER_INSTANCE
    }
}

/// How many log lines a request gets.
pub fn log_limit(limit: Option<usize>) -> (r: usize)
    ensures
        r == log_limit_of(limit),
{
    let wanted: usize = match limit {
        Some(n) => n,
        None => 200,
    };
    if wanted < MAX_LOG_LINES_PER_INSTANCE {
        wanted
    } else {
        MAX_LOG_LINES_PER_INSTANCE
    }
}

} // verus!
