//! The backend's log: entries made from tracing events, kept in a buffer of
//! the most recent ones.
use vstd::prelude::*;

verus! {

/// A log line as the web interface shows it.
#[derive(Debug)]
pub struct LogEntry {
    pub timestamp: String,
    pub level: String,
    pub message: String,
}

/// The number of entries the log keeps.
pub const MAX_LOG_ENTRIES: usize = 200;

/// The log after adding `e` to `s`: the oldest entry leaves when the log is full.
pub open spec fn log_after(s: Seq<LogEntry>, e: LogEntry) -> Seq<LogEntry> {
    if s.len() >= MAX_LOG_ENTRIES {
        s.drop_first().push(e)
    } else {
        s.push(e)
    }
}

/// The log after adding the entries `es` in order to an empty log.
pub open spec fn log_of(es: Seq<LogEntry>) -> Seq<LogEntry>
    decreases es.len(),
{
    if es.len() == 0 {
        Seq::empty()
    } else {
        log_after(log_of(es.drop_last()), es.last())
    }
}

/// Adds an entry to the log, dropping the oldest one when the log is full.
pub fn push_log(logs: &mut Vec<LogEntry>, entry: LogEntry)
    ensures
        final(logs)@ == log_after(old(logs)@, entry),
{
    if logs.len() >= MAX_LOG_ENTRIES {
        logs.remove(0);
        proof {
            assert(logs@ =~= old(logs)@.drop_first());
        }
    }
    logs.push(entry);
}

/// The log keeps the most recent entries: after any number of additions to
/// an empty log it holds the last `MAX_LOG_ENTRIES` of them (all of them if
/// there were fewer), oldest first.
pub proof fn lemma_log_keeps_newest(es: Seq<LogEntry>)
    ensures
        log_of(es) == es.skip(
            if es.len() > MAX_LOG_ENTRIES {
                es.len() - MAX_LOG_ENTRIES
            } else {
                0
            },
        ),
    decreases es.len(),
{
    if es.len() > 0 {
        let dl = es.drop_last();
        lemma_log_keeps_newest(dl);
        let k: int = if dl.len() > MAX_LOG_ENTRIES {
            dl.len() - MAX_LOG_ENTRIES
        } else {
            0
        };
        let k2: int = if es.len() > MAX_LOG_ENTRIES {
            es.len() - MAX_LOG_ENTRIES
        } else {
            0
        };
        if dl.skip(k).len() >= MAX_LOG_ENTRIES {
            assert(dl.skip(k).drop_first().push(es.last()) =~= es.skip(k2));
        } else {
            assert(dl.skip(k).push(es.last()) =~= es.skip(k2));
        }
    } else {
        assert(es.skip(0) =~= es);
    }
}

/// The fields of a tracing event: its message, and every field as a name and
/// its debug text, in the order they were recorded.
#[derive(Debug)]
pub struct EventFields {
    pub message: Option<String>,
    pub kv: Vec<(String, String)>,
}

impl EventFields {
    /// No fields recorded yet.
    pub fn new() -> (f: EventFields)
        ensures
            f.message is None,
            f.kv@.len() == 0,
    {
        EventFields { message: None, kv: Vec::new() }
    }

    /// Records the field `name` with the debug text `value`; the field named
    /// `message` is also the event's message.
    pub fn record_debug(&mut self, name: &str, value: String)
        ensures
            final(self).message == (if name@ == "message"@ {
                Some(value)
            } else {
                old(self).message
            }),
            final(self).kv@.len() == old(self).kv@.len() + 1,
            final(self).kv@.drop_last() == old(self).kv@,
            final(self).kv@.last().0@ == name@,
            final(self).kv@.last().1 == value,
    {
        let n = name.to_owned();
        if n == "message".to_owned() {
            self.message = Some(value.clone());
        }
        self.kv.push((n, value));
        proof {
            assert(self.kv@.drop_last() =~= old(self).kv@);
        }
    }

    /// The log entry of the event: its message, or an empty one.
    pub fn into_entry(self, timestamp: String, level: String) -> (e: LogEntry)
        ensures
            e.timestamp == timestamp,
            e.level == level,
            self.message matches Some(m) ==> e.message == m,
            self.message is None ==> e.message@ == Seq::<char>::empty(),
    {
        let message = match self.message {
            Some(m) => m,
            None => String::new(),
        };
        LogEntry { timestamp, level, message }
    }
}

} // verus!
