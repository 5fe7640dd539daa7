//! What the user is about to send: the input line, its interpretation as
//! text or as hex digits, and the history of what was sent.

use std::collections::VecDeque;
use vstd::prelude::*;
use vstd::string::StrSliceExecFns;
use vstd::string::StringSliceAdditionalSpecFns;
use crate::text::{blank, is_blank};

verus! {

/// How the input line is turned into bytes.
#[derive(Clone, Copy, Debug, PartialEq, Eq, Structural)]
pub enum SendMode {
    /// The line is sent as it is, in UTF-8.
    Text,
    /// The line holds hex digits, two for each byte.
    Hex,
}

impl SendMode {
    /// The name shown to the user.
    pub open spec fn label_text(self) -> Seq<char> {
        match self {
            SendMode::Text => "Text"@,
            SendMode::Hex => "Hex"@,
        }
    }

    /// The name shown to the user.
    pub fn label(self) -> (label: &'static str)
        ensures
            label@ == self.label_text(),
    {
        match self {
            SendMode::Text => "Text",
            SendMode::Hex => "Hex",
        }
    }
}

/// One line that was sent.
#[derive(Debug)]
pub struct HistoryEntry {
    pub value: String,
    pub mode: SendMode,
    pub favorited: bool,
}

/// Mathematical model of a [`HistoryEntry`].
pub struct EntryView {
    pub value: Seq<char>,
    pub mode: SendMode,
    pub favorited: bool,
}

impl View for HistoryEntry {
    type V = EntryView;

    open spec fn view(&self) -> EntryView {
        EntryView { value: self.value@, mode: self.mode, favorited: self.favorited }
    }
}

impl Clone for HistoryEntry {
    fn clone(&self) -> (copy: HistoryEntry)
        ensures
            copy@ == self@,
    {
        HistoryEntry { value: self.value.clone(), mode: self.mode, favorited: self.favorited }
    }
}

/// The views of a sequence of entries.
pub open spec fn entry_views(entries: Seq<HistoryEntry>) -> Seq<EntryView> {
    entries.map_values(|entry: HistoryEntry| entry@)
}

/// Why the input line is no payload.
#[derive(Clone, Copy, Debug, PartialEq, Eq, Structural)]
pub enum PayloadError {
    /// The line holds something other than hex digits and ASCII white
    /// space, or an odd number of hex digits.
    InvalidHex,
}

impl PayloadError {
    /// The error in words.
    pub fn message(&self) -> (message: &'static str)
        ensures
            message@ == "invalid hex sequence"@,
    {
        "invalid hex sequence"
    }
}

/// The state of the send panel.
pub struct SendPanelState {
    /// The line being edited.
    pub input: String,
    /// How the line is turned into bytes.
    pub mode: SendMode,
    /// What was sent, the latest first.
    pub history: VecDeque<HistoryEntry>,
    /// How many lines the history keeps.
    pub max_history: usize,
}

/// Mathematical model of a [`SendPanelState`].
pub struct PanelView {
    pub input: Seq<char>,
    pub mode: SendMode,
    pub history: Seq<EntryView>,
    pub max_history: nat,
}

impl View for SendPanelState {
    type V = PanelView;

    open spec fn view(&self) -> PanelView {
        PanelView {
            input: self.input@,
            mode: self.mode,
            history: entry_views(self.history@),
            max_history: self.max_history as nat,
        }
    }
}

/// The panel after the line `value` was sent. A blank line leaves the panel
/// as it is. Any other line goes to the head of the history, not favorited
/// and in the panel's mode; the history is then cut at its end to the
/// length it may have, and the input line is emptied.
pub open spec fn with_history(panel: PanelView, value: Seq<char>) -> PanelView {
    if blank(value) {
        panel
    } else {
        let entry = EntryView { value, mode: panel.mode, favorited: false };
        let extended = seq![entry] + panel.history;
        let kept = if extended.len() <= panel.max_history {
            extended.len()
        } else {
            panel.max_history
        };
        PanelView { input: Seq::empty(), history: extended.take(kept as int), ..panel }
    }
}

/// The panel with the favorite mark of the entry at `index` flipped; the
/// panel as it is where the history has no such entry.
pub open spec fn with_toggled(panel: PanelView, index: int) -> PanelView {
    if 0 <= index < panel.history.len() {
        let entry = panel.history[index];
        PanelView {
            history: panel.history.update(
                index,
                EntryView { favorited: !entry.favorited, ..entry },
            ),
            ..panel
        }
    } else {
        panel
    }
}

/// The test of an entry for being a favorite.
pub open spec fn favorited() -> spec_fn(EntryView) -> bool {
    |entry: EntryView| entry.favorited
}

impl Default for SendPanelState {
    fn default() -> (panel: SendPanelState)
        ensures
            panel@ == (PanelView {
                input: Seq::empty(),
                mode: SendMode::Text,
                history: Seq::empty(),
                max_history: 50,
            }),
    {
        let panel = SendPanelState {
            input: String::new(),
            mode: SendMode::Text,
            history: VecDeque::new(),
            max_history: 50,
        };
        assert(panel@.history =~= Seq::empty());
        panel
    }
}

impl SendPanelState {
    /// An empty panel in text mode that keeps 50 lines of history.
    pub fn new() -> (panel: SendPanelState)
        ensures
            panel@ == (PanelView {
                input: Seq::empty(),
                mode: SendMode::Text,
                history: Seq::empty(),
                max_history: 50,
            }),
    {
        SendPanelState::default()
    }

    /// Records that the line `value` was sent.
    pub fn push_history(&mut self, value: String)
        ensures
            final(self)@ == with_history(old(self)@, value@),
    {
        if is_blank(value.as_str()) {
            return ;
        }
        let entry = HistoryEntry { value, mode: self.mode, favorited: false };
        let ghost extended = seq![entry@] + old(self)@.history;
        self.history.push_front(entry);
        while self.history.len() > self.max_history
            invariant
                self.mode == old(self).mode,
                self.max_history == old(self).max_history,
                self.input == old(self).input,
                self.history@.len() <= extended.len(),
                self.history@.len() == extended.len() || self.history@.len()
                    >= self.max_history,
                entry_views(self.history@) == extended.take(self.history@.len() as int),
            decreases self.history@.len(),
        {
            self.history.pop_back();
        }
        self.input = String::new();
    }

    /// Flips the favorite mark of the entry at `index`, if there is one.
    pub fn toggle_favorite(&mut self, index: usize)
        ensures
            final(self)@ == with_toggled(old(self)@, index as int),
    {
        if index < self.history.len() {
            let ghost before = self.history@;
            let removed = self.history.remove(index);
            match removed {
                Some(entry) => {
                    let toggled = HistoryEntry {
                        value: entry.value,
                        mode: entry.mode,
                        favorited: !entry.favorited,
                    };
                    self.history.insert(index, toggled);
                    assert(entry_views(self.history@) =~= entry_views(before).update(
                        index as int,
                        toggled@,
                    ));
                },
                None => {},
            }
        }
    }

    /// The favorites of the history, in its order.
    pub fn favorites(&self) -> (found: Vec<HistoryEntry>)
        ensures
            entry_views(found@) == self@.history.filter(favorited()),
    {
        let mut found: Vec<HistoryEntry> = Vec::new();
        let mut i: usize = 0;
        while i < self.history.len()
            invariant
                i <= self.history@.len(),
                entry_views(found@) == self@.history.take(i as int).filter(favorited()),
            decreases self.history@.len() - i,
        {
            let entry = &self.history[i];
            let ghost seen = self@.history.take(i as int);
            assert(self@.history.take(i + 1) =~= seen.push(entry@));
            proof {
                seen.lemma_filter_push(entry@, favorited());
            }
            if entry.favorited {
                found.push(entry.clone());
            }
            i += 1;
        }
        assert(self@.history.take(self.history@.len() as int) =~= self@.history);
        found
    }

    /// The bytes that `value` stands for in the panel's mode: its UTF-8
    /// form in text mode, the bytes its hex digits spell in hex mode.
    pub fn parse_payload(&self, value: &str) -> (payload: Result<Vec<u8>, PayloadError>)
        ensures
            match self.mode {
                SendMode::Text => payload is Ok && payload->Ok_0@ == value.spec_bytes(),
                SendMode::Hex => hex_parsed(value@, payload),
            },
    {
        match self.mode {
            SendMode::Text => Ok(value.as_bytes_vec()),
            SendMode::Hex => parse_hex(value),
        }
    }
}

/// Whether `c` is a hex digit, in either case.
pub open spec fn is_hex_digit(c: char) -> bool {
    ('0' <= c && c <= '9') || ('a' <= c && c <= 'f') || ('A' <= c && c <= 'F')
}

/// Whether `c` is ASCII white space: a space, a tab, a line feed, a form
/// feed or a carriage return.
pub open spec fn is_ascii_space(c: char) -> bool {
    c == ' ' || c == '\t' || c == '\n' || c == '\x0C' || c == '\r'
}

/// The number that the hex digit `c` stands for.
pub open spec fn hex_value(c: char) -> int {
    if '0' <= c && c <= '9' {
        c as int - '0' as int
    } else if 'a' <= c && c <= 'f' {
        c as int - 'a' as int + 10
    } else {
        c as int - 'A' as int + 10
    }
}

/// The test of a character for not being ASCII white space.
pub open spec fn not_space() -> spec_fn(char) -> bool {
    |c: char| !is_ascii_space(c)
}

/// The characters of `input` that are not ASCII white space.
pub open spec fn hex_digits(input: Seq<char>) -> Seq<char> {
    input.filter(not_space())
}

/// Whether `input` spells bytes: it holds hex digits and ASCII white space
/// only, and the number of its hex digits is even.
pub open spec fn well_formed_hex(input: Seq<char>) -> bool {
    &&& forall|i: int|
        0 <= i < input.len() ==> is_hex_digit(#[trigger] input[i]) || is_ascii_space(input[i])
    &&& hex_digits(input).len() % 2 == 0
}

/// The bytes that the hex digits `digits` spell, two digits for each byte,
/// the high one first.
pub open spec fn hex_bytes(digits: Seq<char>) -> Seq<u8> {
    Seq::new(
        digits.len() / 2,
        |i: int| (16 * hex_value(digits[2 * i]) + hex_value(digits[2 * i + 1])) as u8,
    )
}

/// `payload` is what parsing `input` as hex gives: the bytes it spells
/// where it is well formed, and the error where it is not.
pub open spec fn hex_parsed(input: Seq<char>, payload: Result<Vec<u8>, PayloadError>) -> bool {
    match payload {
        Ok(bytes) => well_formed_hex(input) && bytes@ == hex_bytes(hex_digits(input)),
        Err(_) => !well_formed_hex(input),
    }
}

/// The number that a hex digit stands for; nothing for another character.
pub fn hex_digit_value(c: char) -> (value: Option<u8>)
    ensures
        value is Some <==> is_hex_digit(c),
        value matches Some(v) ==> v == hex_value(c) && v < 16,
{
    if '0' <= c && c <= '9' {
        Some(c as u8 - '0' as u8)
    } else if 'a' <= c && c <= 'f' {
        Some(c as u8 - 'a' as u8 + 10)
    } else if 'A' <= c && c <= 'F' {
        Some(c as u8 - 'A' as u8 + 10)
    } else {
        None
    }
}

/// Whether `c` is ASCII white space.
pub fn char_is_ascii_space(c: char) -> (space: bool)
    ensures
        space == is_ascii_space(c),
{
    c == ' ' || c == '\t' || c == '\n' || c == '\x0C' || c == '\r'
}

/// Reads `input` as hex digits, two for each byte. ASCII white space may
/// stand anywhere, between the two digits of a byte too.
pub fn parse_hex(input: &str) -> (payload: Result<Vec<u8>, PayloadError>)
    ensures
        hex_parsed(input@, payload),
{
    let mut bytes: Vec<u8> = Vec::new();
    let mut high: Option<u8> = None;
    let chars = input.chars();
    for c in it: chars
        invariant
            it.seq() == input@,
            forall|j: int|
                0 <= j < it.index() ==> is_hex_digit(#[trigger] input@[j]) || is_ascii_space(
                    input@[j],
                ),
            bytes@ == hex_bytes(hex_digits(input@.take(it.index() as int))),
            match high {
                Some(h) => {
                    let digits = hex_digits(input@.take(it.index() as int));
                    digits.len() % 2 == 1 && h == hex_value(digits.last()) && h < 16
                },
                None => hex_digits(input@.take(it.index() as int)).len() % 2 == 0,
            },
    {
        let ghost seen = input@.take(it.index() as int);
        proof {
            assert(input@.take(it.index() + 1) =~= seen.push(c));
            seen.lemma_filter_push(c, not_space());
        }
        match hex_digit_value(c) {
            Some(v) => {
                match high {
                    Some(h) => {
                        bytes.push(h * 16 + v);
                        high = None;
                    },
                    None => {
                        high = Some(v);
                    },
                }
            },
            None => {
                if !char_is_ascii_space(c) {
                    return Err(PayloadError::InvalidHex);
                }
            },
        }
    }
    assert(input@.take(input@.len() as int) =~= input@);
    if high.is_some() {
        return Err(PayloadError::InvalidHex);
    }
    Ok(bytes)
}

} // verus!
