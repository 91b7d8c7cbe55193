//! Mapping a received command line to a command.
use vstd::prelude::*;

verus! {

/// A command received over the serial line.
#[derive(Clone, Copy, Debug, PartialEq, Eq, Structural)]
pub enum InputVariant {
    /// Resume tracking at the stored velocity.
    Track,
    /// Track with a new half-period, in microseconds.
    TrackNewTime(u32),
    /// Stop all motion.
    Hold,
    /// Fast forward; `true` drives the positive direction.
    FastForward(bool),
    /// Persist the current velocity as the default.
    SetDefault,
    /// Report the status.
    Status,
    /// Let the watchdog reset the device.
    Reset,
    /// Anything that is not a command.
    Invalid,
}

pub const ASCII_ZERO: u8 = 48;

pub const ASCII_PLUS: u8 = 43;

pub open spec fn is_digit(b: u8) -> bool {
    ASCII_ZERO <= b && b <= 57
}

pub open spec fn all_digits(s: Seq<u8>) -> bool {
    forall|i: int| 0 <= i < s.len() ==> is_digit(#[trigger] s[i])
}

/// The value of a sequence of decimal digits, most significant first.
pub open spec fn digits_value(s: Seq<u8>) -> nat
    decreases s.len(),
{
    if s.len() == 0 {
        0
    } else {
        digits_value(s.drop_last()) * 10 + (s.last() - ASCII_ZERO) as nat
    }
}

/// The digits of a number's text: what follows an optional leading `+`.
pub open spec fn number_digits(s: Seq<u8>) -> Seq<u8> {
    if s.len() > 0 && s[0] == ASCII_PLUS {
        s.drop_first()
    } else {
        s
    }
}

/// Whether the line is the text of an unsigned 32-bit number: an optional
/// `+`, at least one decimal digit, and a value that fits in 32 bits.
pub open spec fn is_u32_text(s: Seq<u8>) -> bool {
    let d = number_digits(s);
    d.len() > 0 && all_digits(d) && digits_value(d) <= u32::MAX
}

pub open spec fn u32_text_value(s: Seq<u8>) -> u32 {
    digits_value(number_digits(s)) as u32
}

/// The command that a line stands for: a number first, then the first
/// character alone.
pub open spec fn command_of(s: Seq<u8>) -> InputVariant {
    if is_u32_text(s) {
        InputVariant::TrackNewTime(u32_text_value(s))
    } else if s.len() == 0 {
        InputVariant::Invalid
    } else if s[0] == 116 {
        InputVariant::Track
    } else if s[0] == ASCII_PLUS {
        InputVariant::FastForward(true)
    } else if s[0] == 45 {
        InputVariant::FastForward(false)
    } else if s[0] == 104 {
        InputVariant::Hold
    } else if s[0] == 100 {
        InputVariant::SetDefault
    } else if s[0] == 115 {
        InputVariant::Status
    } else if s[0] == 114 {
        InputVariant::Reset
    } else {
        InputVariant::Invalid
    }
}

/// Appending digits never lowers the value of a digit string.
proof fn lemma_prefix_value_le(s: Seq<u8>, k: int)
    requires
        all_digits(s),
        0 <= k <= s.len(),
    ensures
        digits_value(s.take(k)) <= digits_value(s),
    decreases s.len(),
{
    if k < s.len() {
        let t = s.drop_last();
        assert(s.take(k) =~= t.take(k));
        lemma_prefix_value_le(t, k);
    } else {
        assert(s.take(k) =~= s);
    }
}

/// Reads the line as an unsigned 32-bit number, as `str::parse::<u32>` does.
pub fn parse_u32(s: &[u8]) -> (r: Option<u32>)
    ensures
        r == (if is_u32_text(s@) {
            Some(u32_text_value(s@))
        } else {
            None::<u32>
        }),
{
    let start: usize = if s.len() > 0 && s[0] == ASCII_PLUS {
        1
    } else {
        0
    };
    let ghost d = number_digits(s@);
    assert(d =~= s@.subrange(start as int, s@.len() as int));
    if start >= s.len() {
        return None;
    }
    let mut acc: u64 = 0;
    let mut i: usize = start;
    while i < s.len()
        invariant
            start <= i <= s.len(),
            d == s@.subrange(start as int, s@.len() as int),
            d == number_digits(s@),
            all_digits(d.take(i - start)),
            acc == digits_value(d.take(i - start)),
            acc <= u32::MAX,
        decreases s.len() - i,
    {
        let b = s[i];
        let ghost k = i - start;
        assert(d.take(k + 1).drop_last() =~= d.take(k));
        assert(d[k] == b);
        if b < ASCII_ZERO || b > 57 {
            assert(!all_digits(d));
            return None;
        }
        acc = acc * 10 + (b - ASCII_ZERO) as u64;
        assert(all_digits(d.take(k + 1)));
        if acc > u32::MAX as u64 {
            proof {
                if all_digits(d) {
                    lemma_prefix_value_le(d, k + 1);
                }
            }
            return None;
        }
        i = i + 1;
    }
    assert(d.take(i - start) =~= d);
    Some(acc as u32)
}

/// Maps a received line to the command it stands for.
pub fn parse_input(input: &[u8]) -> (r: InputVariant)
    ensures
        r == command_of(input@),
{
    match parse_u32(input) {
        Some(duration) => InputVariant::TrackNewTime(duration),
        None => {
            if input.len() == 0 {
                InputVariant::Invalid
            } else {
                let c = input[0];
                if c == 116 {
                    InputVariant::Track
                } else if c == ASCII_PLUS {
                    InputVariant::FastForward(true)
                } else if c == 45 {
                    InputVariant::FastForward(false)
                } else if c == 104 {
                    InputVariant::Hold
                } else if c == 100 {
                    InputVariant::SetDefault
                } else if c == 115 {
                    InputVariant::Status
                } else if c == 114 {
                    InputVariant::Reset
                } else {
                    InputVariant::Invalid
                }
            }
        },
    }
}

} // verus!
