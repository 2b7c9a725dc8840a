//! Small verified text utilities the rest of the library builds on:
//! string equality, searching for the last occurrence of a character,
//! trimming surrounding whitespace, and rendering a `u8` in decimal.

use vstd::prelude::*;

verus! {

/// Character-for-character string equality.
pub fn str_eq(a: &str, b: &str) -> (r: bool)
    ensures
        r == (a@ == b@),
{
    let alen = a.unicode_len();
    let blen = b.unicode_len();
    if alen != blen {
        return false;
    }
    let mut i: usize = 0;
    while i < alen
        invariant
            alen == a@.len(),
            alen == b@.len(),
            i <= alen,
            forall|j: int| 0 <= j < i ==> a@[j] == b@[j],
        decreases alen - i,
    {
        if a.get_char(i) != b.get_char(i) {
            return false;
        }
        i += 1;
    }
    proof {
        assert(a@ =~= b@);
    }
    true
}

/// Index of the last occurrence of `c` in `s`, if any.
pub fn last_char_index(s: &str, c: char) -> (r: Option<usize>)
    ensures
        match r {
            Some(i) => i < s@.len() && s@[i as int] == c && (forall|j: int|
                i < j < s@.len() ==> s@[j] != c),
            None => forall|j: int| 0 <= j < s@.len() ==> s@[j] != c,
        },
{
    let len = s.unicode_len();
    let mut found: Option<usize> = None;
    let mut i: usize = 0;
    while i < len
        invariant
            len == s@.len(),
            i <= len,
            match found {
                Some(k) => k < i && s@[k as int] == c && (forall|j: int|
                    k < j < i ==> s@[j] != c),
                None => forall|j: int| 0 <= j < i ==> s@[j] != c,
            },
        decreases len - i,
    {
        if s.get_char(i) == c {
            found = Some(i);
        }
        i += 1;
    }
    found
}

/// The whitespace characters that probe output is trimmed of.
pub open spec fn is_space(c: char) -> bool {
    c == ' ' || c == '\t' || c == '\n' || c == '\r'
}

/// `s` with leading and trailing whitespace removed.
pub open spec fn trim_spec(s: Seq<char>) -> Seq<char>
    decreases s.len(),
{
    if s.len() == 0 {
        s
    } else if is_space(s.first()) {
        trim_spec(s.drop_first())
    } else if is_space(s.last()) {
        trim_spec(s.drop_last())
    } else {
        s
    }
}

/// A string of nothing but whitespace trims to the empty string.
proof fn lemma_trim_all_space(s: Seq<char>)
    requires
        forall|j: int| 0 <= j < s.len() ==> is_space(s[j]),
    ensures
        trim_spec(s) == Seq::<char>::empty(),
    decreases s.len(),
{
    if s.len() == 0 {
        assert(trim_spec(s) =~= Seq::<char>::empty());
    } else {
        lemma_trim_all_space(s.drop_first());
    }
}

/// A subrange whose first and last characters are not whitespace, and which
/// is bounded by whitespace on both sides, is exactly the trimmed string.
proof fn lemma_trim_subrange(s: Seq<char>, from: int, to: int)
    requires
        0 <= from <= to <= s.len(),
        forall|j: int| 0 <= j < from ==> is_space(s[j]),
        forall|j: int| to <= j < s.len() ==> is_space(s[j]),
        from < to ==> !is_space(s[from]) && !is_space(s[to - 1]),
    ensures
        trim_spec(s) == s.subrange(from, to),
    decreases s.len(),
{
    if from == to {
        lemma_trim_all_space(s);
        assert(s.subrange(from, to) =~= Seq::<char>::empty());
    } else if is_space(s.first()) {
        assert(from > 0);
        assert(s.drop_first().subrange(from - 1, to - 1) =~= s.subrange(from, to));
        lemma_trim_subrange(s.drop_first(), from - 1, to - 1);
    } else if is_space(s.last()) {
        assert(to < s.len());
        assert(s.drop_last().subrange(from, to) =~= s.subrange(from, to));
        lemma_trim_subrange(s.drop_last(), from, to);
    } else {
        assert(from == 0 && to == s.len());
        assert(trim_spec(s) =~= s.subrange(from, to));
    }
}

/// Whether `c` counts as whitespace for trimming.
fn is_space_char(c: char) -> (r: bool)
    ensures
        r == is_space(c),
{
    c == ' ' || c == '\t' || c == '\n' || c == '\r'
}

/// Removes leading and trailing whitespace from `s`.
pub fn trim(s: &str) -> (r: &str)
    ensures
        r@ == trim_spec(s@),
{
    let len = s.unicode_len();
    let mut from: usize = 0;
    while from < len && is_space_char(s.get_char(from))
        invariant
            len == s@.len(),
            from <= len,
            forall|j: int| 0 <= j < from ==> is_space(s@[j]),
        decreases len - from,
    {
        from += 1;
    }
    let mut to: usize = len;
    while to > from && is_space_char(s.get_char(to - 1))
        invariant
            len == s@.len(),
            from <= to <= len,
            forall|j: int| 0 <= j < from ==> is_space(s@[j]),
            forall|j: int| to <= j < len ==> is_space(s@[j]),
        decreases to,
    {
        to -= 1;
    }
    proof {
        lemma_trim_subrange(s@, from as int, to as int);
    }
    s.substring_char(from, to)
}

/// One decimal digit as a character.
pub open spec fn digit_char(d: int) -> char {
    if d == 0 {
        '0'
    } else if d == 1 {
        '1'
    } else if d == 2 {
        '2'
    } else if d == 3 {
        '3'
    } else if d == 4 {
        '4'
    } else if d == 5 {
        '5'
    } else if d == 6 {
        '6'
    } else if d == 7 {
        '7'
    } else if d == 8 {
        '8'
    } else {
        '9'
    }
}

/// The decimal rendering of a `u8`, without leading zeros.
pub open spec fn decimal_str(n: u8) -> Seq<char> {
    if n < 10 {
        seq![digit_char(n as int)]
    } else if n < 100 {
        seq![digit_char(n as int / 10), digit_char(n as int % 10)]
    } else {
        seq![
            digit_char(n as int / 100),
            digit_char((n as int / 10) % 10),
            digit_char(n as int % 10),
        ]
    }
}

/// Renders `n` in decimal.
pub fn u8_to_string(n: u8) -> (r: String)
    ensures
        r@ == decimal_str(n),
{
    proof {
        reveal_strlit("0123456789");
    }
    let digits = "0123456789";
    proof {
        assert(forall|d: int| 0 <= d < 10 ==> digits@[d] == digit_char(d)) by {
            assert(digits@[0] == '0');
            assert(digits@[1] == '1');
            assert(digits@[2] == '2');
            assert(digits@[3] == '3');
            assert(digits@[4] == '4');
            assert(digits@[5] == '5');
            assert(digits@[6] == '6');
            assert(digits@[7] == '7');
            assert(digits@[8] == '8');
            assert(digits@[9] == '9');
        }
    }
    let mut s = String::new();
    if n >= 100 {
        let d = (n / 100) as usize;
        s.append(digits.substring_char(d, d + 1));
        proof {
            assert(s@ =~= seq![digit_char(n as int / 100)]);
        }
    }
    if n >= 10 {
        let d = ((n / 10) % 10) as usize;
        s.append(digits.substring_char(d, d + 1));
    }
    let d = (n % 10) as usize;
    s.append(digits.substring_char(d, d + 1));
    proof {
        assert(s@ =~= decimal_str(n));
    }
    s
}

} // verus!
