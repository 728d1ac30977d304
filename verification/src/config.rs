//! Resolution of the listening port from the optional `PORT` environment
//! value: absent means the default port, a string that parses as an
//! unsigned 16-bit integer means that port, anything else is a fatal
//! configuration error. Also the text of the bound address announced in
//! the startup log line: all interfaces at the resolved port.

use vstd::prelude::*;

verus! {

/// The port used when no `PORT` environment value is present.
pub const DEFAULT_PORT: u16 = 3000;

/// A fatal configuration error: the process must stop before binding.
#[derive(Clone, Copy, Debug, PartialEq, Eq, Structural)]
pub enum ConfigError {
    /// The `PORT` value does not parse as an unsigned 16-bit integer.
    InvalidPort,
}

impl ConfigError {
    /// The diagnostic message reported when the process aborts.
    pub fn message(&self) -> (m: &'static str)
        ensures
            m@ == "failed to convert to number"@,
    {
        "failed to convert to number"
    }
}

/// Whether `c` is one of the ten ASCII decimal digits.
pub open spec fn is_ascii_digit(c: char) -> bool {
    '0' as int <= c as int && c as int <= '9' as int
}

/// The numeric value of an ASCII decimal digit.
pub open spec fn digit_value(c: char) -> int {
    c as int - '0' as int
}

/// Whether every character of `s` is an ASCII decimal digit.
pub open spec fn all_ascii_digits(s: Seq<char>) -> bool {
    forall|i: int| 0 <= i < s.len() ==> is_ascii_digit(#[trigger] s[i])
}

/// The value of a sequence of ASCII decimal digits read in base ten.
pub open spec fn decimal_value(s: Seq<char>) -> int
    decreases s.len(),
{
    if s.len() == 0 {
        0
    } else {
        decimal_value(s.drop_last()) * 10 + digit_value(s.last())
    }
}

/// The digit portion of a decimal string: everything after an optional
/// leading `+` sign.
pub open spec fn decimal_digits(s: Seq<char>) -> Seq<char> {
    if s.len() > 0 && s[0] == '+' {
        s.skip(1)
    } else {
        s
    }
}

/// The strings accepted by an unsigned decimal parser: an optional
/// leading `+` sign followed by at least one ASCII digit.
pub open spec fn is_decimal_string(s: Seq<char>) -> bool {
    decimal_digits(s).len() > 0 && all_ascii_digits(decimal_digits(s))
}

/// Whether `s` parses as an unsigned 16-bit integer: it follows the
/// decimal grammar and its value fits in 16 bits.
pub open spec fn parses_to_u16(s: Seq<char>) -> bool {
    is_decimal_string(s) && decimal_value(decimal_digits(s)) <= u16::MAX
}

/// Appending one digit multiplies the value by ten and adds the digit.
proof fn lemma_decimal_value_push(s: Seq<char>, c: char)
    ensures
        decimal_value(s.push(c)) == decimal_value(s) * 10 + digit_value(c),
{
    assert(s.push(c).drop_last() =~= s);
    assert(s.push(c).last() == c);
}

/// Parse `s` as an unsigned 16-bit decimal integer, `None` exactly on
/// the strings that such a parse rejects.
pub fn parse_u16(s: &str) -> (r: Option<u16>)
    ensures
        r is Some <==> parses_to_u16(s@),
        r matches Some(p) ==> p as int == decimal_value(decimal_digits(s@)),
{
    let n: usize = s.unicode_len();
    let start: usize = if n > 0 && s.get_char(0) == '+' {
        1
    } else {
        0
    };
    if n == start {
        assert(decimal_digits(s@).len() == 0);
        return None;
    }
    proof {
        assert(decimal_digits(s@) =~= s@.subrange(start as int, n as int));
    }
    let mut i: usize = start;
    let mut value: u32 = 0;
    let mut over = false;
    while i < n
        invariant
            start <= i <= n,
            start < n,
            n == s@.len(),
            decimal_digits(s@) == s@.subrange(start as int, n as int),
            all_ascii_digits(s@.subrange(start as int, i as int)),
            !over ==> value as int == decimal_value(s@.subrange(start as int, i as int))
                && value <= u16::MAX,
            over ==> decimal_value(s@.subrange(start as int, i as int)) > u16::MAX,
        decreases n - i,
    {
        let c = s.get_char(i);
        let u = c as u32;
        if u < '0' as u32 || u > '9' as u32 {
            proof {
                assert(decimal_digits(s@)[i - start] == s@[i as int]);
                assert(!is_ascii_digit(decimal_digits(s@)[i - start]));
            }
            return None;
        }
        let ghost seen = s@.subrange(start as int, i as int);
        proof {
            assert(s@.subrange(start as int, i + 1) =~= seen.push(s@[i as int]));
            lemma_decimal_value_push(seen, s@[i as int]);
        }
        if !over {
            value = value * 10 + (u - '0' as u32);
            if value > u16::MAX as u32 {
                over = true;
            }
        }
        i += 1;
    }
    if over {
        None
    } else {
        Some(value as u16)
    }
}

/// Whether `s` is the canonical decimal text of `n`: at least one ASCII
/// digit, no leading zero, reading back to `n`.
pub open spec fn is_decimal_text_of(s: Seq<char>, n: int) -> bool {
    &&& s.len() > 0
    &&& all_ascii_digits(s)
    &&& decimal_value(s) == n
    &&& (s.len() == 1 || s[0] != '0')
}

/// One ASCII digit as a string.
fn digit_text(d: u16) -> (r: &'static str)
    requires
        d < 10,
    ensures
        r@.len() == 1,
        is_ascii_digit(r@[0]),
        digit_value(r@[0]) == d as int,
{
    proof {
        reveal_strlit("0");
        reveal_strlit("1");
        reveal_strlit("2");
        reveal_strlit("3");
        reveal_strlit("4");
        reveal_strlit("5");
        reveal_strlit("6");
        reveal_strlit("7");
        reveal_strlit("8");
        reveal_strlit("9");
    }
    match d {
        0 => "0",
        1 => "1",
        2 => "2",
        3 => "3",
        4 => "4",
        5 => "5",
        6 => "6",
        7 => "7",
        8 => "8",
        _ => "9",
    }
}

/// Render `n` as its canonical decimal text.
pub fn port_text(n: u16) -> (r: String)
    ensures
        is_decimal_text_of(r@, n as int),
    decreases n,
{
    if n < 10 {
        let r = String::from_str(digit_text(n));
        proof {
            assert(r@.drop_last() =~= Seq::<char>::empty());
            assert(decimal_value(Seq::<char>::empty()) == 0);
            assert(r@.last() == r@[0]);
        }
        r
    } else {
        let high = port_text(n / 10);
        let low = digit_text(n % 10);
        let r = high.concat(low);
        proof {
            assert(r@ =~= high@.push(low@[0]));
            lemma_decimal_value_push(high@, low@[0]);
            if high@.len() == 1 {
                assert(high@.drop_last() =~= Seq::<char>::empty());
                assert(decimal_value(Seq::<char>::empty()) == 0);
                assert(decimal_value(high@) == digit_value(high@.last()));
                assert(high@.last() == high@[0]);
            }
            assert(high@[0] != '0');
            assert(r@[0] == high@[0]);
            assert(all_ascii_digits(r@)) by {
                assert forall|i: int| 0 <= i < r@.len() implies is_ascii_digit(
                    #[trigger] r@[i],
                ) by {
                    if i < high@.len() {
                        assert(r@[i] == high@[i]);
                    } else {
                        assert(r@[i] == low@[0]);
                    }
                }
            }
        }
        r
    }
}

/// The text of the startup log line's address: all interfaces, written
/// `0.0.0.0`, at the given port in canonical decimal.
pub fn bind_address_text(port: u16) -> (r: String)
    ensures
        r@.len() > 8,
        r@.subrange(0, 8) == "0.0.0.0:"@,
        is_decimal_text_of(r@.skip(8), port as int),
{
    let prefix = String::from_str("0.0.0.0:");
    let digits = port_text(port);
    let r = prefix.concat(digits.as_str());
    proof {
        reveal_strlit("0.0.0.0:");
        assert(r@.subrange(0, 8) =~= "0.0.0.0:"@);
        assert(r@.skip(8) =~= digits@);
    }
    r
}

/// The decimal text of a port parses back to that very port: the
/// startup log line names exactly the port that was resolved.
pub proof fn lemma_port_text_round_trip(s: Seq<char>, port: u16)
    requires
        is_decimal_text_of(s, port as int),
    ensures
        parses_to_u16(s),
        decimal_value(decimal_digits(s)) == port,
{
    assert(is_ascii_digit(s[0]));
    assert(s[0] != '+');
    assert(decimal_digits(s) == s);
}

/// Resolve the listening port from the optional `PORT` environment
/// value: absent means the default, a string that parses as an unsigned
/// 16-bit integer means that value, anything else is rejected.
pub fn resolve_port(env_value: Option<String>) -> (r: Result<u16, ConfigError>)
    ensures
        env_value is None ==> r == Ok::<u16, ConfigError>(DEFAULT_PORT),
        env_value matches Some(s) ==> {
            &&& parses_to_u16(s@) ==> (r matches Ok(p) && p as int == decimal_value(
                decimal_digits(s@),
            ))
            &&& !parses_to_u16(s@) ==> r == Err::<u16, ConfigError>(ConfigError::InvalidPort)
        },
{
    match env_value {
        None => Ok(DEFAULT_PORT),
        Some(s) => match parse_u16(s.as_str()) {
            Some(p) => Ok(p),
            None => Err(ConfigError::InvalidPort),
        },
    }
}

} // verus!
