//! Character-level helpers: whitespace scanning and decimal numerals.

use vstd::prelude::*;

verus! {

/// Whitespace for command splitting: the ASCII space and control whitespace.
pub open spec fn is_space(c: char) -> bool {
    c == ' ' || c == '\t' || c == '\n' || c == '\r'
}

/// Executable mirror of `is_space`.
pub fn is_space_char(c: char) -> (r: bool)
    ensures
        r == is_space(c),
{
    c == ' ' || c == '\t' || c == '\n' || c == '\r'
}

/// Index of the first position at or after `i` whose character's spaceness
/// equals `want_space`; `s.len()` if there is none.
pub open spec fn seek(s: Seq<char>, i: int, want_space: bool) -> int
    decreases s.len() - i,
{
    if i < 0 || i >= s.len() {
        s.len() as int
    } else if is_space(s[i]) == want_space {
        i
    } else {
        seek(s, i + 1, want_space)
    }
}

/// What `seek` finds: the first matching position, with nothing matching
/// before it.
pub proof fn lemma_seek_props(s: Seq<char>, i: int, w: bool)
    requires
        0 <= i <= s.len(),
    ensures
        i <= seek(s, i, w) <= s.len(),
        seek(s, i, w) < s.len() ==> is_space(s[seek(s, i, w)]) == w,
        forall|j: int| i <= j < seek(s, i, w) ==> is_space(s[j]) != w,
    decreases s.len() - i,
{
    if i < s.len() && is_space(s[i]) != w {
        lemma_seek_props(s, i + 1, w);
    }
}

/// First index at or after `from` whose spaceness equals `want_space`.
pub fn seek_from(s: &str, from: usize, want_space: bool) -> (r: usize)
    requires
        from <= s@.len(),
    ensures
        r == seek(s@, from as int, want_space),
{
    let n = s.unicode_len();
    let mut i = from;
    while i < n
        invariant
            from <= i <= n,
            n == s@.len(),
            seek(s@, from as int, want_space) == seek(s@, i as int, want_space),
        decreases n - i,
    {
        if is_space_char(s.get_char(i)) == want_space {
            return i;
        }
        i = i + 1;
    }
    i
}

/// The character for a decimal digit value below ten.
pub open spec fn dec_digit(d: nat) -> char {
    if d == 0 {
        '0'
    } else if d == 1 {
        '1'
    } else if d == 2 {
        '2'
    } else if d == 3 {
        '3'
    } else if d == 4 {
        '4'
    } else if d == 5 {
        '5'
    } else if d == 6 {
        '6'
    } else if d == 7 {
        '7'
    } else if d == 8 {
        '8'
    } else {
        '9'
    }
}

/// The usual decimal numeral of `n`, most significant digit first, with no
/// leading zeros (a single `'0'` for zero).
pub open spec fn dec_digits(n: nat) -> Seq<char>
    decreases n,
{
    if n < 10 {
        seq![dec_digit(n)]
    } else {
        dec_digits(n / 10).push(dec_digit(n % 10))
    }
}

/// A numeral is never empty, and has at least two digits for `n >= 10`.
pub proof fn lemma_dec_digits_len(n: nat)
    ensures
        dec_digits(n).len() >= 1,
        n >= 10 ==> dec_digits(n).len() >= 2,
    decreases n,
{
    if n >= 10 {
        vstd::arithmetic::div_mod::lemma_div_decreases(n as int, 10);
        vstd::arithmetic::div_mod::lemma_div_pos_is_pos(n as int, 10);
        lemma_dec_digits_len(n / 10);
    }
}

/// Distinct digit values below ten have distinct characters.
proof fn lemma_dec_digit_injective(a: nat, b: nat)
    requires
        a < 10,
        b < 10,
        dec_digit(a) == dec_digit(b),
    ensures
        a == b,
{
}

/// Distinct numbers have distinct numerals.
pub proof fn lemma_dec_digits_injective(a: nat, b: nat)
    requires
        dec_digits(a) == dec_digits(b),
    ensures
        a == b,
    decreases a,
{
    vstd::arithmetic::div_mod::lemma_mod_bound(a as int, 10);
    vstd::arithmetic::div_mod::lemma_mod_bound(b as int, 10);
    if a < 10 && b < 10 {
        assert(dec_digits(a)[0] == dec_digit(a));
        assert(dec_digits(b)[0] == dec_digit(b));
        lemma_dec_digit_injective(a, b);
    } else if a < 10 && b >= 10 {
        lemma_dec_digits_len(b / 10);
        assert(dec_digits(b).len() >= 2);
    } else if a >= 10 && b < 10 {
        lemma_dec_digits_len(a / 10);
        assert(dec_digits(a).len() >= 2);
    } else {
        let da = dec_digits(a / 10);
        let db = dec_digits(b / 10);
        assert(da.push(dec_digit(a % 10)).last() == dec_digit(a % 10));
        assert(db.push(dec_digit(b % 10)).last() == dec_digit(b % 10));
        lemma_dec_digit_injective(a % 10, b % 10);
        assert(da.push(dec_digit(a % 10)).drop_last() =~= da);
        assert(db.push(dec_digit(b % 10)).drop_last() =~= db);
        vstd::arithmetic::div_mod::lemma_div_decreases(a as int, 10);
        lemma_dec_digits_injective(a / 10, b / 10);
        vstd::arithmetic::div_mod::lemma_fundamental_div_mod(a as int, 10);
        vstd::arithmetic::div_mod::lemma_fundamental_div_mod(b as int, 10);
    }
}

/// The one-character string for a digit value below ten.
pub fn digit_str(d: u64) -> (r: &'static str)
    requires
        d < 10,
    ensures
        r@ =~= seq![dec_digit(d as nat)],
{
    proof {
        reveal_strlit("0");
        reveal_strlit("1");
        reveal_strlit("2");
        reveal_strlit("3");
        reveal_strlit("4");
        reveal_strlit("5");
        reveal_strlit("6");
        reveal_strlit("7");
        reveal_strlit("8");
        reveal_strlit("9");
    }
    if d == 0 {
        "0"
    } else if d == 1 {
        "1"
    } else if d == 2 {
        "2"
    } else if d == 3 {
        "3"
    } else if d == 4 {
        "4"
    } else if d == 5 {
        "5"
    } else if d == 6 {
        "6"
    } else if d == 7 {
        "7"
    } else if d == 8 {
        "8"
    } else {
        "9"
    }
}

/// Renders `n` as its decimal numeral.
pub fn u64_to_dec(n: u64) -> (s: String)
    ensures
        s@ == dec_digits(n as nat),
    decreases n,
{
    proof {
        vstd::arithmetic::div_mod::lemma_mod_bound(n as int, 10);
    }
    let d = n % 10;
    if n < 10 {
        proof {
            vstd::arithmetic::div_mod::lemma_small_mod(n as nat, 10);
        }
        digit_str(d).to_owned()
    } else {
        let rest = u64_to_dec(n / 10);
        let r = rest.concat(digit_str(d));
        proof {
            assert(r@ =~= dec_digits((n / 10) as nat).push(dec_digit((n % 10) as nat)));
        }
        r
    }
}

} // verus!
