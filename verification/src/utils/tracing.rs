//! The record of what a request logged, and the message that is stored of
//! it.

use crate::text::{concat, decimal_digits, decimal_text, integer_text, unsigned_text};
use vstd::prelude::*;

verus! {

/// How much an event matters. The levels are ordered by how much they let
/// through: `Error` the least, `Trace` the most.
#[derive(Clone, Copy, Debug, PartialEq, Eq, Structural)]
pub enum Level {
    Error,
    Warn,
    Info,
    Debug,
    Trace,
}

impl Level {
    /// The place of a level in the order.
    pub open spec fn verbosity(self) -> int {
        match self {
            Level::Error => 1,
            Level::Warn => 2,
            Level::Info => 3,
            Level::Debug => 4,
            Level::Trace => 5,
        }
    }

    /// The name of a level, as it is logged.
    pub open spec fn name(self) -> Seq<char> {
        match self {
            Level::Error => "ERROR"@,
            Level::Warn => "WARN"@,
            Level::Info => "INFO"@,
            Level::Debug => "DEBUG"@,
            Level::Trace => "TRACE"@,
        }
    }

    /// The place of the level in the order.
    pub fn rank(self) -> (rank: u8)
        ensures
            rank == self.verbosity(),
    {
        match self {
            Level::Error => 1,
            Level::Warn => 2,
            Level::Info => 3,
            Level::Debug => 4,
            Level::Trace => 5,
        }
    }

    /// The name of the level.
    pub fn as_str(self) -> (name: &'static str)
        ensures
            name@ == self.name(),
    {
        match self {
            Level::Error => "ERROR",
            Level::Warn => "WARN",
            Level::Info => "INFO",
            Level::Debug => "DEBUG",
            Level::Trace => "TRACE",
        }
    }
}

/// The text that `{:?}` writes for a list of strings.
pub uninterp spec fn debug_text(fields: Seq<Seq<char>>) -> Seq<char>;

/// The texts of a list of strings.
pub open spec fn field_texts(fields: Seq<String>) -> Seq<Seq<char>> {
    Seq::new(fields.len(), |i: int| fields[i]@)
}

/// `format!` with `{:?}` on a list of strings: the same strings give the
/// same text every time.
#[verifier::external_body]
fn debug_fields(fields: &Vec<String>) -> (text: String)
    ensures
        text@ == debug_text(field_texts(fields@)),
{
    format!("{:?}", fields)
}

/// The line that is recorded of an event: its level, its fields and its
/// name, with a blank between them.
pub open spec fn event_line(level: Level, fields: Seq<Seq<char>>, name: Seq<char>) -> Seq<char> {
    level.name() + " "@ + debug_text(fields) + " "@ + name
}

/// The record of the events of one request, down to a level.
pub struct CustomLayer {
    pub events: Vec<String>,
    pub level: Level,
}

impl CustomLayer {
    /// An empty record that takes the events of `level` and of the levels
    /// that matter more.
    pub fn new(level: Level) -> (layer: CustomLayer)
        ensures
            layer.events@ == Seq::<String>::empty(),
            layer.level == level,
    {
        CustomLayer { events: Vec::new(), level }
    }

    /// The lines that were recorded, in their order.
    pub fn get(&self) -> (lines: Vec<String>)
        ensures
            field_texts(lines@) == field_texts(self.events@),
    {
        let mut lines: Vec<String> = Vec::new();
        let mut i: usize = 0;
        while i < self.events.len()
            invariant
                i <= self.events@.len(),
                lines@.len() == i,
                forall|k: int| 0 <= k < i ==> (#[trigger] lines@[k])@ == self.events@[k]@,
            decreases self.events@.len() - i,
        {
            lines.push(self.events[i].clone());
            i = i + 1;
        }
        lines
    }

    /// Takes note of an event: where its level is let through, its line is
    /// added to the record; where not, the record stays as it is.
    pub fn on_event(&mut self, level: Level, visitor: &CustomVisitor, name: &str)
        ensures
            final(self).level == old(self).level,
            if level.verbosity() <= old(self).level.verbosity() {
                field_texts(final(self).events@) == field_texts(old(self).events@).push(
                    event_line(level, field_texts(visitor.0@), name@),
                )
            } else {
                final(self).events == old(self).events
            },
    {
        if level.rank() <= self.level.rank() {
            let line = concat(
                concat(
                    concat(concat(level.as_str(), " ").as_str(), debug_fields(&visitor.0).as_str()).as_str(),
                    " ",
                ).as_str(),
                name,
            );
            self.events.push(line);
        }
    }
}

/// The fields of an event, each as `name: value `, in the order in which
/// they were visited.
pub struct CustomVisitor(pub Vec<String>);

/// A field as it is kept: its name, a colon, its value, and a blank behind
/// each of the two.
pub open spec fn field_entry(field: Seq<char>, value: Seq<char>) -> Seq<char> {
    field + ": "@ + value + " "@
}

impl CustomVisitor {
    /// A visitor that has seen no field.
    pub fn new() -> (visitor: CustomVisitor)
        ensures
            visitor.0@ == Seq::<String>::empty(),
    {
        CustomVisitor(Vec::new())
    }

    /// Keeps a field whose value is the text `value`.
    pub fn record_str(&mut self, field: &str, value: &str)
        ensures
            field_texts(final(self).0@) == field_texts(old(self).0@).push(
                field_entry(field@, value@),
            ),
    {
        let entry = concat(concat(concat(field, ": ").as_str(), value).as_str(), " ");
        self.0.push(entry);
    }

    /// Keeps a field whose value is a signed integer.
    pub fn record_i64(&mut self, field: &str, value: i64)
        ensures
            field_texts(final(self).0@) == field_texts(old(self).0@).push(
                field_entry(field@, decimal_text(value as int)),
            ),
    {
        self.record_str(field, integer_text(value).as_str());
    }

    /// Keeps a field whose value is an unsigned integer.
    pub fn record_u64(&mut self, field: &str, value: u64)
        ensures
            field_texts(final(self).0@) == field_texts(old(self).0@).push(
                field_entry(field@, decimal_digits(value as nat)),
            ),
    {
        self.record_str(field, unsigned_text(value).as_str());
    }

    /// Keeps a field whose value is a truth value.
    pub fn record_bool(&mut self, field: &str, value: bool)
        ensures
            field_texts(final(self).0@) == field_texts(old(self).0@).push(
                field_entry(
                    field@,
                    if value {
                        "true"@
                    } else {
                        "false"@
                    },
                ),
            ),
    {
        let text = if value {
            "true"
        } else {
            "false"
        };
        self.record_str(field, text);
    }
}

/// The minute in which a moment lies: its seconds since the epoch, divided
/// by sixty and rounded towards zero.
pub open spec fn minute_of(unix_timestamp: int) -> int {
    if unix_timestamp >= 0 {
        unix_timestamp / 60
    } else {
        -((-unix_timestamp) / 60)
    }
}

/// What is stored of one request: the lines it logged, when it came, what
/// it asked for and how it was answered. Messages are stored by the minute
/// in which they were made.
pub struct LogMessage {
    pub traces: Vec<String>,
    pub time: i64,
    pub method: String,
    pub path: String,
    pub key: i64,
    pub id: u128,
    pub status: u16,
}

impl LogMessage {
    /// The message of a request that came at `time`, in seconds since the
    /// epoch. A request without a path asked for `/`.
    pub fn new(
        traces: Vec<String>,
        time: i64,
        method: String,
        path: Option<String>,
        id: u128,
        status: u16,
    ) -> (message: LogMessage)
        ensures
            message.traces == traces,
            message.time == time,
            message.method == method,
            message.path@ == (match path {
                Some(path) => path@,
                None => "/"@,
            }),
            message.key == minute_of(time as int),
            message.id == id,
            message.status == status,
    {
        let path = match path {
            Some(path) => path,
            None => "/".to_string(),
        };
        LogMessage { traces, time, method, path, key: time / 60, id, status }
    }

    /// The key by which the message is stored.
    pub fn partition_key(&self) -> (key: i64)
        ensures
            key == self.key,
    {
        self.key
    }
}

} // verus!
