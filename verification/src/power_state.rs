//! The one status byte of a base station and the power state it stands for.

use vstd::prelude::*;
use vstd::string::StrSliceExecFns;
use vstd::string::StringExecFns;

verus! {

/// What a base station reports in its status byte.
#[derive(Clone, Copy, Debug, PartialEq, Eq, Structural)]
pub enum PowerState {
    Sleep,
    Booting,
    Standby,
    On,
    /// A byte outside the status table, kept as it was read.
    Unknown(u8),
}

/// The status table: the state that a byte read from a station stands for.
pub open spec fn decode(byte: u8) -> PowerState {
    if byte == 0x00 {
        PowerState::Sleep
    } else if byte == 0x01 || byte == 0x08 || byte == 0x09 {
        PowerState::Booting
    } else if byte == 0x02 {
        PowerState::Standby
    } else if byte == 0x0b {
        PowerState::On
    } else {
        PowerState::Unknown(byte)
    }
}

/// The command table: the byte that asks a station to enter a state.
///
/// `On` shares the byte of `Booting`: a station is asked to power up, and
/// reports `On` by itself once it has.
pub open spec fn encode(state: PowerState) -> u8 {
    match state {
        PowerState::Sleep => 0x00,
        PowerState::Booting => 0x01,
        PowerState::Standby => 0x02,
        PowerState::On => 0x01,
        PowerState::Unknown(byte) => byte,
    }
}

/// The lowercase hexadecimal digit of a value below sixteen.
pub open spec fn hex_digit(nibble: u8) -> char {
    "0123456789abcdef"@[nibble as int]
}

/// The tag under which a state is shown to the operator.
pub open spec fn rendering(state: PowerState) -> Seq<char> {
    match state {
        PowerState::Sleep => "SLEEP"@,
        PowerState::Booting => "BOOTING"@,
        PowerState::Standby => "STANDBY"@,
        PowerState::On => "ON"@,
        PowerState::Unknown(byte) => "UNKNOWN(0x"@ + seq![
            hex_digit(byte / 16),
            hex_digit(byte % 16),
        ] + ")"@,
    }
}

impl From<u8> for PowerState {
    fn from(byte: u8) -> (state: PowerState)
        ensures
            state == decode(byte),
    {
        match byte {
            0x00 => PowerState::Sleep,
            0x01 | 0x08 | 0x09 => PowerState::Booting,
            0x02 => PowerState::Standby,
            0x0b => PowerState::On,
            byte => PowerState::Unknown(byte),
        }
    }
}

impl vstd::std_specs::convert::FromSpecImpl<u8> for PowerState {
    open spec fn obeys_from_spec() -> bool {
        true
    }

    open spec fn from_spec(byte: u8) -> PowerState {
        decode(byte)
    }
}

impl From<PowerState> for u8 {
    fn from(state: PowerState) -> (byte: u8)
        ensures
            byte == encode(state),
    {
        match state {
            PowerState::Sleep => 0x00,
            PowerState::Booting => 0x01,
            PowerState::Standby => 0x02,
            PowerState::On => 0x01,
            PowerState::Unknown(byte) => byte,
        }
    }
}

impl vstd::std_specs::convert::FromSpecImpl<PowerState> for u8 {
    open spec fn obeys_from_spec() -> bool {
        true
    }

    open spec fn from_spec(state: PowerState) -> u8 {
        encode(state)
    }
}

impl PowerState {
    /// The state's tag as an owned string: the name in capitals, or
    /// `UNKNOWN(0xhh)` with the byte in two lowercase hexadecimal digits.
    pub fn to_string(&self) -> (text: String)
        ensures
            text@ == rendering(*self),
    {
        match *self {
            PowerState::Sleep => "SLEEP".to_owned(),
            PowerState::Booting => "BOOTING".to_owned(),
            PowerState::Standby => "STANDBY".to_owned(),
            PowerState::On => "ON".to_owned(),
            PowerState::Unknown(byte) => {
                let digits = "0123456789abcdef";
                proof {
                    reveal_strlit("0123456789abcdef");
                }
                let high: usize = (byte / 16) as usize;
                let low: usize = (byte % 16) as usize;
                let mut text = "UNKNOWN(0x".to_owned();
                text.append(digits.substring_char(high, high + 1));
                text.append(digits.substring_char(low, low + 1));
                text.append(")");
                assert(digits@.subrange(high as int, high + 1) + digits@.subrange(
                    low as int,
                    low + 1,
                ) =~= seq![hex_digit(byte / 16), hex_digit(byte % 16)]);
                text
            },
        }
    }
}

/// Every byte decodes to exactly one state, the one that the status table
/// gives it, and an unknown state holds the byte it was decoded from.
pub proof fn decode_follows_table(byte: u8)
    ensures
        decode(byte) is Sleep <==> byte == 0x00,
        decode(byte) is Booting <==> byte == 0x01 || byte == 0x08 || byte == 0x09,
        decode(byte) is Standby <==> byte == 0x02,
        decode(byte) is On <==> byte == 0x0b,
        decode(byte) is Unknown <==> byte > 0x02 && byte != 0x08 && byte != 0x09 && byte != 0x0b,
        decode(byte) is Unknown ==> decode(byte) == PowerState::Unknown(byte),
{
}

/// Encoding what was decoded gives the byte back, except for the three bytes
/// that the command table does not hold: `0x08` and `0x09` (both `Booting`)
/// and `0x0b` (`On`) all come back as the power-up command `0x01`.
pub proof fn encode_after_decode(byte: u8)
    ensures
        byte == 0x08 || byte == 0x09 || byte == 0x0b ==> encode(decode(byte)) == 0x01,
        byte != 0x08 && byte != 0x09 && byte != 0x0b ==> encode(decode(byte)) == byte,
{
}

/// An unknown state encodes to the byte it holds, whatever that byte is.
pub proof fn unknown_keeps_its_byte(byte: u8)
    ensures
        encode(PowerState::Unknown(byte)) == byte,
{
}

} // verus!
