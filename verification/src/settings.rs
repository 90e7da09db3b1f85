//! Numbers read from the environment, and the settings built from them.
use vstd::prelude::*;

verus! {

/// Whether `c` is an ASCII decimal digit.
pub open spec fn is_digit(c: char) -> bool {
    '0' <= c && c <= '9'
}

/// The value of a run of decimal digits.
pub open spec fn decimal_value(digits: Seq<char>) -> int
    decreases digits.len(),
{
    if digits.len() == 0 {
        0
    } else {
        decimal_value(digits.drop_last()) * 10 + (digits.last() as int - '0' as int)
    }
}

/// The text after an optional leading `+`.
pub open spec fn unsigned_digits(text: Seq<char>) -> Seq<char> {
    if text.len() > 0 && text[0] == '+' { text.drop_first() } else { text }
}

/// Whether every character is an ASCII decimal digit.
pub open spec fn all_digits(s: Seq<char>) -> bool {
    forall|i: int| 0 <= i < s.len() ==> is_digit(#[trigger] s[i])
}

/// The number that std's `FromStr` for an unsigned integer type reads from
/// `text`: an optional `+`, then one or more decimal digits and nothing else,
/// whose value is at most `max`.
pub open spec fn unsigned_value(text: Seq<char>, max: int) -> Option<int> {
    let digits = unsigned_digits(text);
    if digits.len() > 0 && all_digits(digits) && decimal_value(digits) <= max {
        Some(decimal_value(digits))
    } else {
        None
    }
}

/// A run of digits has a value no smaller than that of any of its prefixes.
proof fn lemma_decimal_value_grows(digits: Seq<char>, i: int)
    requires
        0 <= i <= digits.len(),
        forall|k: int| 0 <= k < digits.len() ==> is_digit(#[trigger] digits[k]),
    ensures
        decimal_value(digits.subrange(0, i)) <= decimal_value(digits),
        0 <= decimal_value(digits),
    decreases digits.len(),
{
    if digits.len() > 0 {
        let rest = digits.drop_last();
        assert forall|k: int| 0 <= k < rest.len() implies is_digit(#[trigger] rest[k]) by {
            assert(rest[k] == digits[k]);
        }
        if i == digits.len() {
            assert(digits.subrange(0, i) =~= digits);
            lemma_decimal_value_grows(rest, 0);
        } else {
            assert(digits.subrange(0, i) =~= rest.subrange(0, i));
            lemma_decimal_value_grows(rest, i);
        }
    } else {
        assert(digits.subrange(0, i) =~= digits);
    }
}

/// The value of the first `i + 1` digits, from that of the first `i`.
proof fn lemma_decimal_value_step(digits: Seq<char>, i: int)
    requires
        0 <= i < digits.len(),
    ensures
        decimal_value(digits.subrange(0, i + 1))
            == decimal_value(digits.subrange(0, i)) * 10 + (digits[i] as int - '0' as int),
{
    assert(digits.subrange(0, i + 1).drop_last() =~= digits.subrange(0, i));
}

/// Reads an unsigned decimal number of at most `max` as std's `FromStr`
/// for unsigned integers does: an optional `+`, then one or more ASCII
/// digits and nothing else.
fn parse_unsigned(text: &str, max: u32) -> (n: Option<u32>)
    ensures
        match unsigned_value(text@, max as int) {
            Some(v) => n == Some(v as u32),
            None => n is None,
        },
        unsigned_value(text@, max as int) matches Some(v) ==> 0 <= v <= max,
{
    let len = text.unicode_len();
    let ghost t = text@;
    let start: usize = if len > 0 && text.get_char(0) == '+' { 1 } else { 0 };
    let ghost digits = unsigned_digits(t);
    assert(digits =~= t.subrange(start as int, t.len() as int));
    if start == len {
        return None;
    }
    let mut value: u32 = 0;
    let mut i: usize = start;
    while i < len
        invariant
            len == t.len(),
            t == text@,
            start <= i <= len,
            start < len,
            digits == t.subrange(start as int, len as int),
            digits == unsigned_digits(t),
            forall|k: int| 0 <= k < i - start ==> is_digit(#[trigger] digits[k]),
            value as int == decimal_value(digits.subrange(0, i - start)),
            value <= max,
        decreases len - i,
    {
        let c = text.get_char(i);
        assert(c == digits[i - start]);
        if c < '0' || c > '9' {
            assert(!is_digit(digits[i - start]));
            assert(!all_digits(digits));
            return None;
        }
        let d: u32 = (c as u32) - ('0' as u32);
        proof { lemma_decimal_value_step(digits, i - start); }
        if d > max || value > (max - d) / 10 {
            assert(value * 10 + d > max) by (nonlinear_arith)
                requires
                    d > max || value > (max - d) / 10,
                    d <= max ==> (max - d) / 10 * 10 <= max - d,
                    0 <= d <= 9,
            ;
            proof {
                assert(d as int == digits[i - start] as int - '0' as int);
                assert(decimal_value(digits.subrange(0, i - start + 1)) > max);
                if all_digits(digits) {
                    lemma_decimal_value_grows(digits, i - start + 1);
                    assert(decimal_value(digits) > max);
                }
            }
            return None;
        }
        assert(value * 10 + d <= max) by (nonlinear_arith)
            requires
                value <= (max - d) / 10,
                d <= max,
        ;
        value = value * 10 + d;
        i = i + 1;
    }
    assert(digits.subrange(0, len - start) =~= digits);
    proof { lemma_decimal_value_grows(digits, 0); }
    Some(value)
}

/// Reads a 16-bit number as `<u16 as FromStr>::from_str` does.
fn parse_u16(text: &str) -> (n: Option<u16>)
    ensures
        match unsigned_value(text@, u16::MAX as int) {
            Some(v) => n == Some(v as u16),
            None => n is None,
        },
{
    match parse_unsigned(text, 65535) {
        Some(v) => Some(v as u16),
        None => None,
    }
}

/// Reads a 32-bit number as `<u32 as FromStr>::from_str` does.
fn parse_u32(text: &str) -> (n: Option<u32>)
    ensures
        match unsigned_value(text@, u32::MAX as int) {
            Some(v) => n == Some(v as u32),
            None => n is None,
        },
{
    parse_unsigned(text, u32::MAX)
}

/// The 16-bit number that an environment value holds; an unset value or one
/// that is not such a number gives `None`.
pub fn u16_setting(value: Option<&str>) -> (n: Option<u16>)
    ensures
        match value {
            None => n is None,
            Some(text) => match unsigned_value(text@, u16::MAX as int) {
                Some(v) => n == Some(v as u16),
                None => n is None,
            },
        },
{
    match value {
        Some(text) => parse_u16(text),
        None => None,
    }
}

/// The 32-bit number that an environment value holds; an unset value or one
/// that is not such a number gives `None`.
pub fn u32_setting(value: Option<&str>) -> (n: Option<u32>)
    ensures
        match value {
            None => n is None,
            Some(text) => match unsigned_value(text@, u32::MAX as int) {
                Some(v) => n == Some(v as u32),
                None => n is None,
            },
        },
{
    match value {
        Some(text) => parse_u32(text),
        None => None,
    }
}

/// The port to listen on: the configured one, or `default` when none is
/// configured or it is not a port number.
pub fn listen_port(value: Option<&str>, default: u16) -> (port: u16)
    ensures
        port == (match u16_value(value) {
            Some(p) => p,
            None => default,
        }),
        value matches Some(t) ==> (t@.len() > 0 && all_digits(t@) && decimal_value(t@) <= 65535
            ==> port as int == decimal_value(t@)),
        value is None ==> port == default,
{
    proof {
        if let Some(t) = value {
            if t@.len() > 0 && all_digits(t@) && decimal_value(t@) <= 65535 {
                lemma_u16_value_reads_decimal(t);
            }
        }
    }
    match u16_setting(value) {
        Some(p) => p,
        None => default,
    }
}

/// The 16-bit number that an environment value holds, if any.
pub open spec fn u16_value(value: Option<&str>) -> Option<u16> {
    match value {
        None => None,
        Some(text) => match unsigned_value(text@, u16::MAX as int) {
            Some(v) => Some(v as u16),
            None => None,
        },
    }
}

/// The 32-bit number that an environment value holds, if any.
pub open spec fn u32_value(value: Option<&str>) -> Option<u32> {
    match value {
        None => None,
        Some(text) => match unsigned_value(text@, u32::MAX as int) {
            Some(v) => Some(v as u32),
            None => None,
        },
    }
}

/// How the TCP/IP stack behind the WireGuard device is set up; `None`
/// keeps the stack's own default.
#[derive(Debug, Clone, Copy, PartialEq, Eq)]
pub struct StackSettings {
    /// The MTU, set without the stack's own check.
    pub mtu: Option<u16>,
    /// How many bytes TCP may have in flight unacknowledged.
    pub max_unacked_bytes: Option<u32>,
    /// Whether packets carry a packet-information header.
    pub packet_information: bool,
}

/// The stack settings from the values of the unacknowledged-bytes and MTU
/// variables: a value that holds a number overrides the default; packets
/// never carry a packet-information header.
pub fn ip_stack_settings(max_unacked_bytes: Option<&str>, mtu: Option<&str>) -> (s: StackSettings)
    ensures
        s.max_unacked_bytes == u32_value(max_unacked_bytes),
        s.mtu == u16_value(mtu),
        !s.packet_information,
        max_unacked_bytes matches Some(t) ==> (t@.len() > 0 && all_digits(t@) && decimal_value(t@) <= 4294967295
            ==> s.max_unacked_bytes == Some(decimal_value(t@) as u32) && 0 <= decimal_value(t@)),
        mtu matches Some(t) ==> (t@.len() > 0 && all_digits(t@) && decimal_value(t@) <= 65535
            ==> s.mtu == Some(decimal_value(t@) as u16) && 0 <= decimal_value(t@)),
        max_unacked_bytes is None ==> s.max_unacked_bytes is None,
        mtu is None ==> s.mtu is None,
{
    proof {
        if let Some(t) = max_unacked_bytes {
            if t@.len() > 0 && all_digits(t@) && decimal_value(t@) <= 4294967295 {
                lemma_u32_value_reads_decimal(t);
            }
        }
        if let Some(t) = mtu {
            if t@.len() > 0 && all_digits(t@) && decimal_value(t@) <= 65535 {
                lemma_u16_value_reads_decimal(t);
            }
        }
    }
    StackSettings {
        mtu: u16_setting(mtu),
        max_unacked_bytes: u32_setting(max_unacked_bytes),
        packet_information: false,
    }
}

/// Every run of decimal digits whose value fits in 16 bits is read as that
/// number: a port such as 40000 is taken, not replaced by the default.
pub proof fn lemma_u16_value_reads_decimal(text: &str)
    requires
        text@.len() > 0,
        all_digits(text@),
        decimal_value(text@) <= 65535,
    ensures
        u16_value(Some(text)) == Some(decimal_value(text@) as u16),
        0 <= decimal_value(text@),
{
    assert(is_digit(text@[0]));
    assert(unsigned_digits(text@) == text@);
    lemma_decimal_value_grows(text@, 0);
}

/// Every run of decimal digits whose value fits in 32 bits is read as that
/// number: a window of 1048576 bytes is taken, not ignored.
pub proof fn lemma_u32_value_reads_decimal(text: &str)
    requires
        text@.len() > 0,
        all_digits(text@),
        decimal_value(text@) <= 4294967295,
    ensures
        u32_value(Some(text)) == Some(decimal_value(text@) as u32),
        0 <= decimal_value(text@),
{
    assert(is_digit(text@[0]));
    assert(unsigned_digits(text@) == text@);
    lemma_decimal_value_grows(text@, 0);
}

/// A run of digits whose value does not fit is no number: the default stays.
pub proof fn lemma_u16_value_rejects_overflow(text: &str)
    requires
        text@.len() > 0,
        all_digits(text@),
        decimal_value(text@) > 65535,
    ensures
        u16_value(Some(text)) is None,
{
    assert(is_digit(text@[0]));
    assert(unsigned_digits(text@) == text@);
}

} // verus!
