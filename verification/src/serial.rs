//! The settings of a serial line, and their form on the wire to the native
//! serial driver.

use vstd::prelude::*;

verus! {

/// Parity of a serial line.
#[derive(Clone, Copy, Debug, PartialEq, Eq, Structural)]
pub enum Parity {
    Off,
    Even,
    Odd,
}

/// Number of stop bits of a serial line.
#[derive(Clone, Copy, Debug, PartialEq, Eq, Structural)]
pub enum StopBits {
    One,
    Two,
}

/// Flow control of a serial line.
#[derive(Clone, Copy, Debug, PartialEq, Eq, Structural)]
pub enum FlowControl {
    Off,
    RtsCts,
    XonXoff,
}

/// The driver's number for no parity.
pub const RAW_PARITY_NONE: u32 = 0;

/// The driver's number for even parity.
pub const RAW_PARITY_EVEN: u32 = 1;

/// The driver's number for odd parity.
pub const RAW_PARITY_ODD: u32 = 2;

/// The driver's number for no flow control.
pub const RAW_FLOW_NONE: u32 = 0;

/// The driver's number for hardware flow control.
pub const RAW_FLOW_RTS_CTS: u32 = 1;

/// The driver's number for software flow control.
pub const RAW_FLOW_XON_XOFF: u32 = 2;

impl Parity {
    /// The name shown to the user.
    pub open spec fn label_text(self) -> Seq<char> {
        match self {
            Parity::Off => "None"@,
            Parity::Even => "Even"@,
            Parity::Odd => "Odd"@,
        }
    }

    /// The name shown to the user.
    pub fn label(self) -> (label: &'static str)
        ensures
            label@ == self.label_text(),
    {
        match self {
            Parity::Off => "None",
            Parity::Even => "Even",
            Parity::Odd => "Odd",
        }
    }

    /// Every parity, in the order of declaration.
    pub fn variants() -> (all: Vec<Parity>)
        ensures
            all@ == seq![Parity::Off, Parity::Even, Parity::Odd],
    {
        let mut all: Vec<Parity> = Vec::new();
        all.push(Parity::Off);
        all.push(Parity::Even);
        all.push(Parity::Odd);
        all
    }

    /// The driver's number of the parity.
    pub open spec fn raw(self) -> u32 {
        match self {
            Parity::Off => RAW_PARITY_NONE,
            Parity::Even => RAW_PARITY_EVEN,
            Parity::Odd => RAW_PARITY_ODD,
        }
    }

    /// The parity of a driver's number; none where the number is unknown.
    pub open spec fn of_raw(raw: u32) -> Parity {
        if raw == RAW_PARITY_EVEN {
            Parity::Even
        } else if raw == RAW_PARITY_ODD {
            Parity::Odd
        } else {
            Parity::Off
        }
    }
}

impl StopBits {
    /// The name shown to the user.
    pub open spec fn label_text(self) -> Seq<char> {
        match self {
            StopBits::One => "1"@,
            StopBits::Two => "2"@,
        }
    }

    /// The name shown to the user.
    pub fn label(self) -> (label: &'static str)
        ensures
            label@ == self.label_text(),
    {
        match self {
            StopBits::One => "1",
            StopBits::Two => "2",
        }
    }

    /// Every number of stop bits, in the order of declaration.
    pub fn variants() -> (all: Vec<StopBits>)
        ensures
            all@ == seq![StopBits::One, StopBits::Two],
    {
        let mut all: Vec<StopBits> = Vec::new();
        all.push(StopBits::One);
        all.push(StopBits::Two);
        all
    }

    /// The number of stop bits as a number.
    pub open spec fn raw(self) -> u8 {
        match self {
            StopBits::One => 1,
            StopBits::Two => 2,
        }
    }

    /// The stop bits of a number: two for 2, one for every other number.
    pub open spec fn of_raw(raw: u8) -> StopBits {
        if raw == 2 {
            StopBits::Two
        } else {
            StopBits::One
        }
    }
}

impl FlowControl {
    /// The name shown to the user.
    pub open spec fn label_text(self) -> Seq<char> {
        match self {
            FlowControl::Off => "None"@,
            FlowControl::RtsCts => "RTS/CTS"@,
            FlowControl::XonXoff => "XON/XOFF"@,
        }
    }

    /// The name shown to the user.
    pub fn label(self) -> (label: &'static str)
        ensures
            label@ == self.label_text(),
    {
        match self {
            FlowControl::Off => "None",
            FlowControl::RtsCts => "RTS/CTS",
            FlowControl::XonXoff => "XON/XOFF",
        }
    }

    /// Every flow control, in the order of declaration.
    pub fn variants() -> (all: Vec<FlowControl>)
        ensures
            all@ == seq![FlowControl::Off, FlowControl::RtsCts, FlowControl::XonXoff],
    {
        let mut all: Vec<FlowControl> = Vec::new();
        all.push(FlowControl::Off);
        all.push(FlowControl::RtsCts);
        all.push(FlowControl::XonXoff);
        all
    }

    /// The driver's number of the flow control.
    pub open spec fn raw(self) -> u32 {
        match self {
            FlowControl::Off => RAW_FLOW_NONE,
            FlowControl::RtsCts => RAW_FLOW_RTS_CTS,
            FlowControl::XonXoff => RAW_FLOW_XON_XOFF,
        }
    }

    /// The flow control of a driver's number; none where the number is
    /// unknown.
    pub open spec fn of_raw(raw: u32) -> FlowControl {
        if raw == RAW_FLOW_RTS_CTS {
            FlowControl::RtsCts
        } else if raw == RAW_FLOW_XON_XOFF {
            FlowControl::XonXoff
        } else {
            FlowControl::Off
        }
    }
}

/// A serial device that the system offers.
#[derive(Clone, Debug)]
pub struct SerialDevice {
    /// Path of the device node.
    pub path: String,
    /// What the system says of the device.
    pub description: String,
}

/// The settings of a serial line.
#[derive(Clone, Copy, Debug, PartialEq, Eq, Structural)]
pub struct SerialConfig {
    pub baud_rate: u32,
    pub data_bits: u8,
    pub stop_bits: StopBits,
    pub parity: Parity,
    pub flow_control: FlowControl,
    pub rx_buffer_size: u32,
    pub tx_buffer_size: u32,
    pub read_timeout_ms: u32,
    pub write_timeout_ms: u32,
}

/// The settings of a serial line as the native driver takes them: every
/// choice is a number.
#[derive(Clone, Copy, Debug, PartialEq, Eq, Structural)]
pub struct RawSerialConfig {
    pub baud_rate: u32,
    pub data_bits: u8,
    pub stop_bits: u8,
    pub parity: u32,
    pub flow_control: u32,
    pub rx_buffer_size: u32,
    pub tx_buffer_size: u32,
    pub read_timeout_ms: u32,
    pub write_timeout_ms: u32,
}

/// The driver's form of `config`.
pub open spec fn raw_of(config: SerialConfig) -> RawSerialConfig {
    RawSerialConfig {
        baud_rate: config.baud_rate,
        data_bits: config.data_bits,
        stop_bits: config.stop_bits.raw(),
        parity: config.parity.raw(),
        flow_control: config.flow_control.raw(),
        rx_buffer_size: config.rx_buffer_size,
        tx_buffer_size: config.tx_buffer_size,
        read_timeout_ms: config.read_timeout_ms,
        write_timeout_ms: config.write_timeout_ms,
    }
}

/// The settings that the driver's form `raw` stands for. A number that
/// stands for no choice reads as the first choice.
pub open spec fn config_of(raw: RawSerialConfig) -> SerialConfig {
    SerialConfig {
        baud_rate: raw.baud_rate,
        data_bits: raw.data_bits,
        stop_bits: StopBits::of_raw(raw.stop_bits),
        parity: Parity::of_raw(raw.parity),
        flow_control: FlowControl::of_raw(raw.flow_control),
        rx_buffer_size: raw.rx_buffer_size,
        tx_buffer_size: raw.tx_buffer_size,
        read_timeout_ms: raw.read_timeout_ms,
        write_timeout_ms: raw.write_timeout_ms,
    }
}

/// The driver's form of the settings a line has before any are chosen:
/// 115200 baud, 8 data bits, 1 stop bit, no parity, no flow control, buffers
/// of 32 KiB and timeouts of 100 ms.
pub open spec fn default_raw() -> RawSerialConfig {
    RawSerialConfig {
        baud_rate: 115_200,
        data_bits: 8,
        stop_bits: 1,
        parity: RAW_PARITY_NONE,
        flow_control: RAW_FLOW_NONE,
        rx_buffer_size: 32768,
        tx_buffer_size: 32768,
        read_timeout_ms: 100,
        write_timeout_ms: 100,
    }
}

impl SerialConfig {
    /// The driver's form of the settings.
    pub fn to_raw(&self) -> (raw: RawSerialConfig)
        ensures
            raw == raw_of(*self),
    {
        RawSerialConfig {
            baud_rate: self.baud_rate,
            data_bits: self.data_bits,
            stop_bits: match self.stop_bits {
                StopBits::One => 1,
                StopBits::Two => 2,
            },
            parity: match self.parity {
                Parity::Off => RAW_PARITY_NONE,
                Parity::Even => RAW_PARITY_EVEN,
                Parity::Odd => RAW_PARITY_ODD,
            },
            flow_control: match self.flow_control {
                FlowControl::Off => RAW_FLOW_NONE,
                FlowControl::RtsCts => RAW_FLOW_RTS_CTS,
                FlowControl::XonXoff => RAW_FLOW_XON_XOFF,
            },
            rx_buffer_size: self.rx_buffer_size,
            tx_buffer_size: self.tx_buffer_size,
            read_timeout_ms: self.read_timeout_ms,
            write_timeout_ms: self.write_timeout_ms,
        }
    }

    /// The settings that the driver's form `raw` stands for.
    pub fn from_raw(raw: RawSerialConfig) -> (config: SerialConfig)
        ensures
            config == config_of(raw),
    {
        SerialConfig {
            baud_rate: raw.baud_rate,
            data_bits: raw.data_bits,
            stop_bits: if raw.stop_bits == 2 {
                StopBits::Two
            } else {
                StopBits::One
            },
            parity: if raw.parity == RAW_PARITY_EVEN {
                Parity::Even
            } else if raw.parity == RAW_PARITY_ODD {
                Parity::Odd
            } else {
                Parity::Off
            },
            flow_control: if raw.flow_control == RAW_FLOW_RTS_CTS {
                FlowControl::RtsCts
            } else if raw.flow_control == RAW_FLOW_XON_XOFF {
                FlowControl::XonXoff
            } else {
                FlowControl::Off
            },
            rx_buffer_size: raw.rx_buffer_size,
            tx_buffer_size: raw.tx_buffer_size,
            read_timeout_ms: raw.read_timeout_ms,
            write_timeout_ms: raw.write_timeout_ms,
        }
    }
}

impl Default for SerialConfig {
    fn default() -> (config: SerialConfig)
        ensures
            config == config_of(default_raw()),
    {
        SerialConfig::from_raw(default_config_raw())
    }
}

/// The driver's form of the settings a line has before any are chosen.
pub fn default_config_raw() -> (raw: RawSerialConfig)
    ensures
        raw == default_raw(),
{
    RawSerialConfig {
        baud_rate: 115_200,
        data_bits: 8,
        stop_bits: 1,
        parity: RAW_PARITY_NONE,
        flow_control: RAW_FLOW_NONE,
        rx_buffer_size: 32768,
        tx_buffer_size: 32768,
        read_timeout_ms: 100,
        write_timeout_ms: 100,
    }
}

/// The settings a line has before any are chosen.
pub fn default_config() -> (config: SerialConfig)
    ensures
        config == config_of(default_raw()),
{
    SerialConfig::default()
}

/// The test of a character for not being an underscore.
pub open spec fn not_underscore() -> spec_fn(char) -> bool {
    |c: char| c != '_'
}

/// Whether every character of `text` is a decimal digit.
pub open spec fn all_digits(text: Seq<char>) -> bool {
    forall|i: int| 0 <= i < text.len() ==> '0' <= #[trigger] text[i] <= '9'
}

/// The number that the decimal digits `digits` spell.
pub open spec fn digits_value(digits: Seq<char>) -> nat
    decreases digits.len(),
{
    if digits.len() == 0 {
        0
    } else {
        (10 * digits_value(digits.drop_last()) + (digits.last() as nat - '0' as nat)) as nat
    }
}

/// The digits of a baud rate as a user writes it: the text without its
/// underscores and without one plus sign at its head.
pub open spec fn baud_digits(text: Seq<char>) -> Seq<char> {
    let kept = text.filter(not_underscore());
    if kept.len() > 0 && kept[0] == '+' {
        kept.drop_first()
    } else {
        kept
    }
}

/// The baud rate that `text` spells: the number of its digits, where there
/// is at least one, they are digits all, and the number fits 32 bits.
pub open spec fn baud_of(text: Seq<char>) -> Option<u32> {
    let digits = baud_digits(text);
    if digits.len() > 0 && all_digits(digits) && digits_value(digits) <= u32::MAX {
        Some(digits_value(digits) as u32)
    } else {
        None
    }
}

/// A longer run of digits spells no smaller number.
proof fn lemma_digits_value_grows(digits: Seq<char>, length: int)
    requires
        all_digits(digits),
        0 <= length <= digits.len(),
    ensures
        digits_value(digits.take(length)) <= digits_value(digits),
    decreases digits.len() - length,
{
    if length < digits.len() {
        let longer = digits.take(length + 1);
        assert(longer.drop_last() =~= digits.take(length));
        lemma_digits_value_grows(digits, length + 1);
    } else {
        assert(digits.take(length) =~= digits);
    }
}

/// Reads a baud rate as a user writes it. Underscores may stand anywhere
/// and a plus sign may lead; apart from them the text must be decimal
/// digits, at least one, that spell a number of 32 bits.
pub fn parse_baud_rate(text: &str) -> (baud: Option<u32>)
    ensures
        baud == baud_of(text@),
{
    let mut kept: Vec<char> = Vec::new();
    let chars = text.chars();
    for c in it: chars
        invariant
            it.seq() == text@,
            kept@ == text@.take(it.index() as int).filter(not_underscore()),
    {
        proof {
            assert(text@.take(it.index() + 1) =~= text@.take(it.index() as int).push(c));
            text@.take(it.index() as int).lemma_filter_push(c, not_underscore());
        }
        if c != '_' {
            kept.push(c);
        }
    }
    assert(text@.take(text@.len() as int) =~= text@);
    let start: usize = if kept.len() > 0 && kept[0] == '+' {
        1
    } else {
        0
    };
    let ghost digits = baud_digits(text@);
    if start == kept.len() {
        return None;
    }
    let mut value: u32 = 0;
    let mut i: usize = start;
    while i < kept.len()
        invariant
            start <= i <= kept.len(),
            digits == baud_digits(text@),
            digits == kept@.subrange(start as int, kept.len() as int),
            all_digits(digits.take(i - start)),
            value == digits_value(digits.take(i - start)),
        decreases kept.len() - i,
    {
        let c = kept[i];
        let ghost seen = digits.take(i - start);
        let ghost longer = digits.take(i - start + 1);
        proof {
            assert(longer.drop_last() =~= seen);
            assert(longer.last() == c);
        }
        if !('0' <= c && c <= '9') {
            return None;
        }
        let digit: u32 = c as u32 - '0' as u32;
        if value > (u32::MAX - digit) / 10 {
            proof {
                if all_digits(digits) {
                    lemma_digits_value_grows(digits, i - start + 1);
                }
            }
            return None;
        }
        value = value * 10 + digit;
        i += 1;
    }
    assert(digits.take(kept.len() - start) =~= digits);
    Some(value)
}

/// Settings survive the way through the driver's form unchanged.
pub proof fn lemma_raw_round_trip(config: SerialConfig)
    ensures
        config_of(raw_of(config)) == config,
{
}

/// The driver's form survives the way through the settings exactly when
/// each of its numbers stands for a choice.
pub proof fn lemma_raw_round_trip_back(raw: RawSerialConfig)
    ensures
        raw_of(config_of(raw)) == raw <==> {
            &&& 1 <= raw.stop_bits <= 2
            &&& raw.parity <= RAW_PARITY_ODD
            &&& raw.flow_control <= RAW_FLOW_XON_XOFF
        },
{
}

} // verus!
