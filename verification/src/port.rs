//! The listening port: parsing the `PORT` setting, with a default.
//!
//! The host reads the environment; this module decides what port the raw
//! setting denotes, the way `str::parse::<u16>` would: an optional leading
//! `'+'`, then at least one decimal digit, and a value that fits in sixteen
//! bits.  Anything else falls back to the default port.

use vstd::prelude::*;

verus! {

/// The port used when the setting is absent or malformed.
pub const DEFAULT_PORT: u16 = 6969;

/// A decimal digit character.
pub open spec fn is_dec_digit(c: char) -> bool {
    c == '0' || c == '1' || c == '2' || c == '3' || c == '4' || c == '5' || c == '6' || c == '7'
        || c == '8' || c == '9'
}

/// The value of a decimal digit character (zero for anything else).
pub open spec fn digit_val(c: char) -> nat {
    if c == '1' {
        1
    } else if c == '2' {
        2
    } else if c == '3' {
        3
    } else if c == '4' {
        4
    } else if c == '5' {
        5
    } else if c == '6' {
        6
    } else if c == '7' {
        7
    } else if c == '8' {
        8
    } else if c == '9' {
        9
    } else {
        0
    }
}

/// The number a digit string denotes, most significant digit first.
pub open spec fn digits_val(s: Seq<char>) -> nat
    decreases s.len(),
{
    if s.len() == 0 {
        0
    } else {
        digits_val(s.drop_last()) * 10 + digit_val(s.last())
    }
}

/// Whether every character is a decimal digit.
pub open spec fn all_digits(s: Seq<char>) -> bool {
    forall|i: int| 0 <= i < s.len() ==> is_dec_digit(s[i])
}

/// The setting with an optional leading `'+'` removed.
pub open spec fn unsigned_part(s: Seq<char>) -> Seq<char> {
    if s.len() > 0 && s[0] == '+' {
        s.skip(1)
    } else {
        s
    }
}

/// Whether `str::parse::<u16>` accepts `s`.
pub open spec fn parses_as_u16(s: Seq<char>) -> bool {
    &&& unsigned_part(s).len() > 0
    &&& all_digits(unsigned_part(s))
    &&& digits_val(unsigned_part(s)) <= u16::MAX
}

/// The port a present setting denotes.
pub open spec fn port_of(s: Seq<char>) -> u16 {
    if parses_as_u16(s) {
        digits_val(unsigned_part(s)) as u16
    } else {
        DEFAULT_PORT
    }
}

/// A prefix of a digit string never denotes more than the whole string.
proof fn lemma_digits_val_prefix_le(s: Seq<char>, j: int)
    requires
        0 <= j <= s.len(),
    ensures
        digits_val(s.take(j)) <= digits_val(s),
    decreases s.len() - j,
{
    if j < s.len() {
        assert(s.take(j + 1).drop_last() =~= s.take(j));
        assert(s.take(j + 1).last() == s[j]);
        lemma_digits_val_prefix_le(s, j + 1);
    } else {
        assert(s.take(j) =~= s);
    }
}

/// Decides the listening port from the raw `PORT` setting.
pub fn port_from_text(text: Option<&str>) -> (r: u16)
    ensures
        text is None ==> r == DEFAULT_PORT,
        text matches Some(t) ==> r == port_of(t@),
{
    let t = match text {
        None => {
            return DEFAULT_PORT;
        },
        Some(t) => t,
    };
    let n = t.unicode_len();
    let start: usize = if n > 0 && t.get_char(0) == '+' {
        1
    } else {
        0
    };
    let ghost u = unsigned_part(t@);
    proof {
        assert(t@.skip(0) =~= t@);
        assert(u =~= t@.skip(start as int));
    }
    if start == n {
        return DEFAULT_PORT;
    }
    let mut acc: u32 = 0;
    let mut i: usize = start;
    while i < n
        invariant
            text == Some(t),
            start <= i <= n,
            n == t@.len(),
            start < n,
            u == unsigned_part(t@),
            u == t@.skip(start as int),
            acc <= u16::MAX,
            acc == digits_val(u.take((i - start) as int)),
            all_digits(u.take((i - start) as int)),
        decreases n - i,
    {
        let c = t.get_char(i);
        let d: u32 = if c == '0' {
            0
        } else if c == '1' {
            1
        } else if c == '2' {
            2
        } else if c == '3' {
            3
        } else if c == '4' {
            4
        } else if c == '5' {
            5
        } else if c == '6' {
            6
        } else if c == '7' {
            7
        } else if c == '8' {
            8
        } else if c == '9' {
            9
        } else {
            proof {
                assert(u[(i - start) as int] == t@[i as int]);
                assert(!all_digits(u));
            }
            return DEFAULT_PORT;
        };
        proof {
            assert(u.take((i - start) as int + 1).drop_last() =~= u.take((i - start) as int));
            assert(u.take((i - start) as int + 1).last() == t@[i as int]);
        }
        acc = acc * 10 + d;
        if acc > u16::MAX as u32 {
            proof {
                lemma_digits_val_prefix_le(u, (i - start) as int + 1);
            }
            return DEFAULT_PORT;
        }
        i = i + 1;
    }
    proof {
        assert(u.take((n - start) as int) =~= u);
    }
    acc as u16
}

} // verus!
