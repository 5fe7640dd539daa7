//! The console: what was received, sent and reported, line by line.

use time::OffsetDateTime;
use time::format_description::well_known::Rfc3339;
use vstd::prelude::*;
use vstd::string::StringExecFns;
use vstd::string::StringSliceAdditionalSpecFns;
use crate::text::{
    blank,
    contains_ignore_ascii_case,
    contains_ignoring_ascii_case,
    is_blank,
    joined,
};

verus! {

/// Where a line of the console came from.
#[derive(Clone, Copy, Debug, PartialEq, Eq, Structural)]
pub enum Direction {
    /// Received from the device.
    Rx,
    /// Sent to the device.
    Tx,
    /// Reported by the session.
    Event,
}

impl Direction {
    /// The mark of the direction in a line.
    pub open spec fn label_text(self) -> Seq<char> {
        match self {
            Direction::Rx => "RX"@,
            Direction::Tx => "TX"@,
            Direction::Event => "EVT"@,
        }
    }

    /// The mark of the direction in a line.
    pub fn label(self) -> (label: &'static str)
        ensures
            label@ == self.label_text(),
    {
        match self {
            Direction::Rx => "RX",
            Direction::Tx => "TX",
            Direction::Event => "EVT",
        }
    }
}

/// How the console shows its lines.
#[derive(Clone, Copy, Debug, PartialEq, Eq, Structural)]
pub enum ConsoleViewMode {
    Text,
    Hex,
    Mixed,
}

/// The upper-case hex digit of a number below 16.
pub open spec fn hex_char(nibble: int) -> char {
    if nibble == 0 {
        '0'
    } else if nibble == 1 {
        '1'
    } else if nibble == 2 {
        '2'
    } else if nibble == 3 {
        '3'
    } else if nibble == 4 {
        '4'
    } else if nibble == 5 {
        '5'
    } else if nibble == 6 {
        '6'
    } else if nibble == 7 {
        '7'
    } else if nibble == 8 {
        '8'
    } else if nibble == 9 {
        '9'
    } else if nibble == 10 {
        'A'
    } else if nibble == 11 {
        'B'
    } else if nibble == 12 {
        'C'
    } else if nibble == 13 {
        'D'
    } else if nibble == 14 {
        'E'
    } else {
        'F'
    }
}

/// The two upper-case hex digits of a byte, the high one first.
pub open spec fn byte_hex(byte: u8) -> Seq<char> {
    seq![hex_char(byte as int / 16), hex_char(byte as int % 16)]
}

/// The bytes of `data` in hex, two upper-case digits each, with a space
/// between each two bytes.
pub open spec fn hex_text(data: Seq<u8>) -> Seq<char> {
    joined(data.map_values(|byte: u8| byte_hex(byte)), " "@)
}

fn nibble_str(nibble: u8) -> (text: &'static str)
    requires
        nibble < 16,
    ensures
        text@ == seq![hex_char(nibble as int)],
{
    proof {
        reveal_strlit("0");
        reveal_strlit("1");
        reveal_strlit("2");
        reveal_strlit("3");
        reveal_strlit("4");
        reveal_strlit("5");
        reveal_strlit("6");
        reveal_strlit("7");
        reveal_strlit("8");
        reveal_strlit("9");
        reveal_strlit("A");
        reveal_strlit("B");
        reveal_strlit("C");
        reveal_strlit("D");
        reveal_strlit("E");
        reveal_strlit("F");
    }
    let text = if nibble == 0 {
        "0"
    } else if nibble == 1 {
        "1"
    } else if nibble == 2 {
        "2"
    } else if nibble == 3 {
        "3"
    } else if nibble == 4 {
        "4"
    } else if nibble == 5 {
        "5"
    } else if nibble == 6 {
        "6"
    } else if nibble == 7 {
        "7"
    } else if nibble == 8 {
        "8"
    } else if nibble == 9 {
        "9"
    } else if nibble == 10 {
        "A"
    } else if nibble == 11 {
        "B"
    } else if nibble == 12 {
        "C"
    } else if nibble == 13 {
        "D"
    } else if nibble == 14 {
        "E"
    } else {
        "F"
    };
    text
}

/// The bytes of `data` in hex: two upper-case digits each, with a space
/// between each two bytes.
pub fn to_hex(data: &[u8]) -> (text: String)
    ensures
        text@ == hex_text(data@),
{
    let mut text = String::new();
    let mut i: usize = 0;
    let ghost pairs = data@.map_values(|byte: u8| byte_hex(byte));
    while i < data.len()
        invariant
            i <= data.len(),
            pairs == data@.map_values(|byte: u8| byte_hex(byte)),
            text@ == joined(pairs.take(i as int), " "@),
        decreases data.len() - i,
    {
        let byte = data[i];
        let ghost before = pairs.take(i as int);
        let ghost after = pairs.take(i + 1);
        assert(after.drop_last() == before);
        if i > 0 {
            text.append(" ");
        }
        text.append(nibble_str(byte / 16));
        text.append(nibble_str(byte % 16));
        i += 1;
    }
    assert(pairs.take(data.len() as int) == pairs);
    text
}

/// The text of a moment in the format of RFC 3339, as
/// `time::OffsetDateTime::format` gives it. The moment is given in
/// nanoseconds since the Unix epoch, in UTC. The text is empty for a moment
/// that the format cannot show.
pub uninterp spec fn rfc3339_text(unix_nanos: i128) -> Seq<char>;

/// Formats a moment with `time::OffsetDateTime::format` and the description
/// `Rfc3339`. The moment is made with
/// `time::OffsetDateTime::from_unix_timestamp_nanos`, which puts it in UTC.
/// The result depends on the moment alone; it is the empty text where
/// either call refuses the moment.
#[verifier::external_body]
fn format_rfc3339(unix_nanos: i128) -> (text: String)
    ensures
        text@ == rfc3339_text(unix_nanos),
{
    match OffsetDateTime::from_unix_timestamp_nanos(unix_nanos) {
        Ok(moment) => moment.format(&Rfc3339).unwrap_or_default(),
        Err(_) => String::new(),
    }
}

/// Reads the wall clock with `time::OffsetDateTime::now_utc` and gives the
/// moment in nanoseconds since the Unix epoch. Nothing is claimed of it.
#[verifier::external_body]
fn now_utc() -> i128 {
    OffsetDateTime::now_utc().unix_timestamp_nanos()
}

/// The text that bytes read as when every malformed UTF-8 sequence in them
/// is read as U+FFFD, as `String::from_utf8_lossy` gives it.
pub uninterp spec fn lossy_text(bytes: Seq<u8>) -> Seq<char>;

/// Decodes bytes with `String::from_utf8_lossy`. The result depends on the
/// bytes alone.
#[verifier::external_body]
fn from_utf8_lossy(data: &[u8]) -> (text: String)
    ensures
        text@ == lossy_text(data@),
{
    String::from_utf8_lossy(data).to_string()
}

/// One line of the console.
#[derive(Clone, Debug)]
pub struct ConsoleEntry {
    /// When the line was recorded: nanoseconds since the Unix epoch, UTC.
    pub timestamp: i128,
    pub direction: Direction,
    /// The payload as text.
    pub text: String,
    /// The payload in hex.
    pub hex: String,
}

/// Mathematical model of a [`ConsoleEntry`].
pub struct ConsoleEntryView {
    pub timestamp: i128,
    pub direction: Direction,
    pub text: Seq<char>,
    pub hex: Seq<char>,
}

impl View for ConsoleEntry {
    type V = ConsoleEntryView;

    open spec fn view(&self) -> ConsoleEntryView {
        ConsoleEntryView {
            timestamp: self.timestamp,
            direction: self.direction,
            text: self.text@,
            hex: self.hex@,
        }
    }
}

/// Whether a line passes the filter: a blank filter passes every line; any
/// other filter passes the lines that hold it, in their text or in their
/// hex form, up to the case of ASCII letters.
pub open spec fn passes(entry: ConsoleEntryView, filter: Seq<char>) -> bool {
    blank(filter) || contains_ignoring_ascii_case(entry.text, filter)
        || contains_ignoring_ascii_case(entry.hex, filter)
}

/// A line as it is written out: the moment in brackets, the mark of the
/// direction, and the text.
pub open spec fn line_text(entry: ConsoleEntryView) -> Seq<char> {
    "["@ + rfc3339_text(entry.timestamp) + "] "@ + entry.direction.label_text() + " "@
        + entry.text
}

impl ConsoleEntry {
    /// The line with the payload `data` in both forms.
    pub fn of_bytes(timestamp: i128, direction: Direction, data: &[u8]) -> (entry: ConsoleEntry)
        ensures
            entry@ == (ConsoleEntryView {
                timestamp,
                direction,
                text: lossy_text(data@),
                hex: hex_text(data@),
            }),
    {
        ConsoleEntry { timestamp, direction, text: from_utf8_lossy(data), hex: to_hex(data) }
    }

    /// Whether the line passes `filter`.
    pub fn matches(&self, filter: &str) -> (shown: bool)
        ensures
            shown == passes(self@, filter@),
    {
        if is_blank(filter) {
            return true;
        }
        contains_ignore_ascii_case(self.text.as_str(), filter) || contains_ignore_ascii_case(
            self.hex.as_str(),
            filter,
        )
    }

    /// The moment of the line in the format of RFC 3339; the empty text
    /// where the format cannot show the moment.
    pub fn moment(&self) -> (text: String)
        ensures
            text@ == rfc3339_text(self.timestamp),
    {
        format_rfc3339(self.timestamp)
    }

    /// The line as it is written out.
    pub fn to_line(&self) -> (line: String)
        ensures
            line@ == line_text(self@),
    {
        let mut line = String::from_str("[");
        let moment = self.moment();
        line.append(moment.as_str());
        line.append("] ");
        line.append(self.direction.label());
        line.append(" ");
        line.append(self.text.as_str());
        line
    }
}

/// The lines of the console, the oldest first, and how they are shown.
#[derive(Clone, Debug)]
pub struct ConsoleBuffer {
    pub entries: Vec<ConsoleEntry>,
    pub show_timestamps: bool,
    pub view_mode: ConsoleViewMode,
    pub filter: String,
}

/// Mathematical model of a [`ConsoleBuffer`].
pub struct ConsoleView {
    pub entries: Seq<ConsoleEntryView>,
    pub show_timestamps: bool,
    pub view_mode: ConsoleViewMode,
    pub filter: Seq<char>,
}

/// The views of a sequence of lines.
pub open spec fn line_views(entries: Seq<ConsoleEntry>) -> Seq<ConsoleEntryView> {
    entries.map_values(|entry: ConsoleEntry| entry@)
}

/// The views of a sequence of borrowed lines.
pub open spec fn shown_views(entries: Seq<&ConsoleEntry>) -> Seq<ConsoleEntryView> {
    entries.map_values(|entry: &ConsoleEntry| entry@)
}

impl View for ConsoleBuffer {
    type V = ConsoleView;

    open spec fn view(&self) -> ConsoleView {
        ConsoleView {
            entries: line_views(self.entries@),
            show_timestamps: self.show_timestamps,
            view_mode: self.view_mode,
            filter: self.filter@,
        }
    }
}

/// The console with one more line at its end.
pub open spec fn recorded(
    console: ConsoleView,
    timestamp: i128,
    direction: Direction,
    text: Seq<char>,
    hex: Seq<char>,
) -> ConsoleView {
    ConsoleView {
        entries: console.entries.push(ConsoleEntryView { timestamp, direction, text, hex }),
        ..console
    }
}

/// The test of a line for passing `filter`.
pub open spec fn passing(filter: Seq<char>) -> spec_fn(ConsoleEntryView) -> bool {
    |entry: ConsoleEntryView| passes(entry, filter)
}

impl Default for ConsoleBuffer {
    fn default() -> (buffer: ConsoleBuffer)
        ensures
            buffer@ == (ConsoleView {
                entries: Seq::empty(),
                show_timestamps: true,
                view_mode: ConsoleViewMode::Mixed,
                filter: Seq::empty(),
            }),
    {
        let buffer = ConsoleBuffer {
            entries: Vec::new(),
            show_timestamps: true,
            view_mode: ConsoleViewMode::Mixed,
            filter: String::new(),
        };
        assert(buffer@.entries =~= Seq::empty());
        buffer
    }
}

impl ConsoleBuffer {
    /// Appends `entry` as the latest line.
    pub fn push_entry(&mut self, entry: ConsoleEntry)
        ensures
            final(self)@ == recorded(
                old(self)@,
                entry.timestamp,
                entry.direction,
                entry.text@,
                entry.hex@,
            ),
    {
        self.entries.push(entry);
        assert(self@.entries =~= old(self)@.entries.push(entry@));
    }

    /// Records bytes that were received, at the present moment.
    pub fn push_rx(&mut self, data: &[u8])
        ensures
            exists|timestamp: i128|
                final(self)@ == #[trigger] recorded(
                    old(self)@,
                    timestamp,
                    Direction::Rx,
                    lossy_text(data@),
                    hex_text(data@),
                ),
    {
        let entry = ConsoleEntry::of_bytes(now_utc(), Direction::Rx, data);
        self.push_entry(entry);
    }

    /// Records bytes that were sent, at the present moment.
    pub fn push_tx(&mut self, data: &[u8])
        ensures
            exists|timestamp: i128|
                final(self)@ == #[trigger] recorded(
                    old(self)@,
                    timestamp,
                    Direction::Tx,
                    lossy_text(data@),
                    hex_text(data@),
                ),
    {
        let entry = ConsoleEntry::of_bytes(now_utc(), Direction::Tx, data);
        self.push_entry(entry);
    }

    /// Records what the session reported, at the present moment. The hex
    /// form is that of the message in UTF-8.
    pub fn push_event(&mut self, message: &str)
        ensures
            exists|timestamp: i128|
                final(self)@ == #[trigger] recorded(
                    old(self)@,
                    timestamp,
                    Direction::Event,
                    message@,
                    hex_text(message.spec_bytes()),
                ),
    {
        let entry = ConsoleEntry {
            timestamp: now_utc(),
            direction: Direction::Event,
            text: String::from_str(message),
            hex: to_hex(message.as_bytes()),
        };
        self.push_entry(entry);
    }

    /// Drops every line; the way the lines are shown stays.
    pub fn clear(&mut self)
        ensures
            final(self)@ == (ConsoleView { entries: Seq::empty(), ..old(self)@ }),
    {
        self.entries.clear();
        assert(self@.entries =~= Seq::empty());
    }

    /// The lines that pass the buffer's filter, in their order.
    pub fn iter(&self) -> (shown: Vec<&ConsoleEntry>)
        ensures
            shown_views(shown@) == self@.entries.filter(passing(self.filter@)),
    {
        let mut shown: Vec<&ConsoleEntry> = Vec::new();
        let mut i: usize = 0;
        while i < self.entries.len()
            invariant
                i <= self.entries.len(),
                shown_views(shown@) == self@.entries.take(i as int).filter(
                    passing(self.filter@),
                ),
            decreases self.entries.len() - i,
        {
            let entry = &self.entries[i];
            let ghost seen = self@.entries.take(i as int);
            proof {
                assert(self@.entries.take(i + 1) =~= seen.push(entry@));
                seen.lemma_filter_push(entry@, passing(self.filter@));
            }
            if entry.matches(self.filter.as_str()) {
                shown.push(entry);
            }
            i += 1;
        }
        assert(self@.entries.take(self.entries.len() as int) =~= self@.entries);
        shown
    }
}

} // verus!
