//! Verified text helpers: first-occurrence search, prefix tests, the
//! composite `"name (direction)"` key used for line selection buttons,
//! and parsing of the polling-interval minutes a user picks.

use vstd::prelude::*;
use vstd::string::StrSliceExecFns;
use vstd::string::StringExecFns;

verus! {

/// `i` is the first index at which `c` occurs in `s`.
pub open spec fn is_first_index_of(s: Seq<char>, c: char, i: int) -> bool {
    &&& 0 <= i < s.len()
    &&& s[i] == c
    &&& forall|j: int| 0 <= j < i ==> s[j] != c
}

/// Index of the first occurrence of `c` in `s`, if any.
pub fn find_first(s: &str, c: char) -> (r: Option<usize>)
    ensures
        match r {
            Some(i) => is_first_index_of(s@, c, i as int),
            None => forall|j: int| 0 <= j < s@.len() ==> s@[j] != c,
        },
{
    let n: usize = s.unicode_len();
    let mut i: usize = 0;
    while i < n
        invariant
            n == s@.len(),
            0 <= i <= n,
            forall|j: int| 0 <= j < i ==> s@[j] != c,
        decreases n - i,
    {
        if s.get_char(i) == c {
            return Some(i);
        }
        i = i + 1;
    }
    None
}

/// Character-for-character equality of two string slices.
pub fn str_eq(a: &str, b: &str) -> (r: bool)
    ensures
        r == (a@ == b@),
{
    let na: usize = a.unicode_len();
    let nb: usize = b.unicode_len();
    if na != nb {
        return false;
    }
    let mut i: usize = 0;
    while i < na
        invariant
            na == a@.len(),
            na == b@.len(),
            0 <= i <= na,
            forall|j: int| 0 <= j < i ==> a@[j] == b@[j],
        decreases na - i,
    {
        if a.get_char(i) != b.get_char(i) {
            return false;
        }
        i = i + 1;
    }
    proof {
        assert(a@ =~= b@);
    }
    true
}

/// Does `s` start with `p`?
pub fn str_starts_with(s: &str, p: &str) -> (r: bool)
    ensures
        r == p@.is_prefix_of(s@),
{
    let np: usize = p.unicode_len();
    let ns: usize = s.unicode_len();
    if np > ns {
        return false;
    }
    let mut i: usize = 0;
    while i < np
        invariant
            np == p@.len(),
            ns == s@.len(),
            np <= ns,
            0 <= i <= np,
            forall|j: int| 0 <= j < i ==> p@[j] == s@[j],
        decreases np - i,
    {
        if p.get_char(i) != s.get_char(i) {
            assert(!p@.is_prefix_of(s@)) by {
                if p@.is_prefix_of(s@) {
                    assert(p@[i as int] == s@.subrange(0, p@.len() as int)[i as int]);
                }
            }
            return false;
        }
        i = i + 1;
    }
    proof {
        assert(p@ =~= s@.subrange(0, p@.len() as int));
    }
    true
}

/// The composite key a line-selection button carries: `"name (direction)"`.
pub open spec fn composite_key_spec(name: Seq<char>, direction: Seq<char>) -> Seq<char> {
    name + " ("@ + direction + ")"@
}

/// Builds the composite `"name (direction)"` key for one departure.
pub fn composite_key(name: &str, direction: &str) -> (r: String)
    ensures
        r@ == composite_key_spec(name@, direction@),
{
    let mut r: String = name.to_owned();
    r.append(" (");
    r.append(direction);
    r.append(")");
    r
}

/// What splitting a composite key yields: the text before the first `'('`
/// with its trailing separator character dropped, and the text between the
/// first `'('` and the final character. Keys without a `'('`, with the
/// `'('` first, or ending in the `'('` are malformed.
pub open spec fn split_composite_spec(s: Seq<char>) -> Option<(Seq<char>, Seq<char>)> {
    if exists|i: int| is_first_index_of(s, '(', i) {
        let i = choose|i: int| is_first_index_of(s, '(', i);
        if 1 <= i && i + 2 <= s.len() {
            Some((s.subrange(0, i - 1), s.subrange(i + 1, s.len() - 1)))
        } else {
            None
        }
    } else {
        None
    }
}

/// Recovers `(name, direction)` from a composite selection key.
pub fn split_composite(s: &str) -> (r: Option<(String, String)>)
    ensures
        match r {
            Some(pair) => split_composite_spec(s@) == Some((pair.0@, pair.1@)),
            None => split_composite_spec(s@) is None,
        },
{
    let n: usize = s.unicode_len();
    match find_first(s, '(') {
        Some(i) => {
            proof {
                let w = choose|w: int| is_first_index_of(s@, '(', w);
                assert(w == i as int);
            }
            if 1 <= i && n >= 2 && i <= n - 2 {
                let name: String = s.substring_char(0, i - 1).to_owned();
                let direction: String = s.substring_char(i + 1, n - 1).to_owned();
                Some((name, direction))
            } else {
                None
            }
        },
        None => None,
    }
}

/// Splitting undoes building, provided the line name itself contains
/// no `'('`: the first `'('` of the key is the one the builder added.
pub proof fn lemma_composite_key_round_trip(name: Seq<char>, direction: Seq<char>)
    requires
        forall|j: int| 0 <= j < name.len() ==> name[j] != '(',
    ensures
        split_composite_spec(composite_key_spec(name, direction)) == Some((name, direction)),
{
    let s = composite_key_spec(name, direction);
    reveal_strlit(" (");
    reveal_strlit(")");
    let i = name.len() + 1;
    assert(s[i as int] == '(');
    assert(forall|j: int| 0 <= j < i ==> s[j] != '(') by {
        assert(forall|j: int| 0 <= j < name.len() ==> s[j] == name[j]);
        assert(s[name.len() as int] == ' ');
    }
    assert(is_first_index_of(s, '(', i as int));
    let w = choose|w: int| is_first_index_of(s, '(', w);
    assert(w == i as int);
    assert(s.subrange(0, i - 1) =~= name);
    assert(s.subrange(i as int + 1, s.len() - 1) =~= direction);
}

/// A station name as the feed reports it, cut at the first comma: the
/// text before it, or the whole text when it has no comma.
pub open spec fn before_comma_spec(s: Seq<char>) -> Seq<char> {
    if exists|i: int| is_first_index_of(s, ',', i) {
        s.subrange(0, choose|i: int| is_first_index_of(s, ',', i))
    } else {
        s
    }
}

/// Cuts a feed's station name at its first comma.
pub fn name_before_comma(s: &str) -> (r: String)
    ensures
        r@ == before_comma_spec(s@),
{
    match find_first(s, ',') {
        Some(i) => {
            proof {
                let w = choose|w: int| is_first_index_of(s@, ',', w);
                assert(w == i as int);
            }
            s.substring_char(0, i).to_owned()
        },
        None => s.to_owned(),
    }
}

/// Is `c` a decimal digit?
pub open spec fn is_digit(c: char) -> bool {
    48 <= c as u32 <= 57
}

pub open spec fn all_digits(s: Seq<char>) -> bool {
    forall|j: int| 0 <= j < s.len() ==> is_digit(#[trigger] s[j])
}

/// Value of a decimal digit string, most significant digit first.
pub open spec fn digits_value(s: Seq<char>) -> int
    decreases s.len(),
{
    if s.len() == 0 {
        0
    } else {
        digits_value(s.drop_last()) * 10 + (s.last() as u32 - 48)
    }
}

pub proof fn lemma_digits_value_nonneg(s: Seq<char>)
    requires
        all_digits(s),
    ensures
        digits_value(s) >= 0,
    decreases s.len(),
{
    if s.len() > 0 {
        assert(all_digits(s.drop_last()));
        lemma_digits_value_nonneg(s.drop_last());
    }
}

/// A digit string is worth at least any of its prefixes.
pub proof fn lemma_digits_value_prefix_le(s: Seq<char>, i: int)
    requires
        all_digits(s),
        0 <= i <= s.len(),
    ensures
        digits_value(s.subrange(0, i)) <= digits_value(s),
    decreases s.len() - i,
{
    if i < s.len() {
        let t = s.subrange(0, i + 1);
        assert(t.drop_last() =~= s.subrange(0, i));
        assert(all_digits(s.subrange(0, i)));
        lemma_digits_value_nonneg(s.subrange(0, i));
        assert(digits_value(t) == digits_value(s.subrange(0, i)) * 10 + (s[i] as u32 - 48));
        lemma_digits_value_prefix_le(s, i + 1);
    } else {
        assert(s.subrange(0, i) =~= s);
    }
}

/// If some prefix of `s` is already worth more than `u32::MAX`, the whole
/// digit string is: the spec below therefore rejects `s`.
proof fn lemma_value_large_when_prefix_large(s: Seq<char>, i: int, prefix_value: int)
    requires
        0 <= i <= s.len(),
        all_digits(s.subrange(0, i)),
        digits_value(s.subrange(0, i)) == prefix_value,
        prefix_value > u32::MAX,
    ensures
        parse_minutes_spec(s) is None,
{
    if all_digits(s) && digits_value(s) <= u32::MAX {
        lemma_digits_value_prefix_le(s, i);
    }
}

/// The number of minutes a selection button encodes: the whole string must
/// be one or more decimal digits and the value must fit in a `u32`.
pub open spec fn parse_minutes_spec(s: Seq<char>) -> Option<u32> {
    if s.len() > 0 && all_digits(s) && digits_value(s) <= u32::MAX {
        Some(digits_value(s) as u32)
    } else {
        None
    }
}

/// Parses the polling-interval selection.
pub fn parse_minutes(s: &str) -> (r: Option<u32>)
    ensures
        r == parse_minutes_spec(s@),
{
    let n: usize = s.unicode_len();
    if n == 0 {
        return None;
    }
    let mut acc: u32 = 0;
    let mut i: usize = 0;
    while i < n
        invariant
            n == s@.len(),
            0 <= i <= n,
            all_digits(s@.subrange(0, i as int)),
            acc == digits_value(s@.subrange(0, i as int)),
        decreases n - i,
    {
        let c: char = s.get_char(i);
        let v: u32 = c as u32;
        if v < 48 || v > 57 {
            proof {
                assert(!is_digit(s@[i as int]));
            }
            return None;
        }
        let d: u32 = v - 48;
        proof {
            assert(s@.subrange(0, i as int + 1).drop_last() =~= s@.subrange(0, i as int));
            assert(all_digits(s@.subrange(0, i as int + 1)));
            assert(digits_value(s@.subrange(0, i as int + 1)) == acc * 10 + d);
        }
        let acc10: u32 = match acc.checked_mul(10) {
            Some(x) => x,
            None => {
                proof {
                    lemma_value_large_when_prefix_large(s@, i as int + 1, acc * 10 + d);
                }
                return None;
            },
        };
        acc = match acc10.checked_add(d) {
            Some(x) => x,
            None => {
                proof {
                    lemma_value_large_when_prefix_large(s@, i as int + 1, acc * 10 + d);
                }
                return None;
            },
        };
        i = i + 1;
    }
    proof {
        assert(s@.subrange(0, n as int) =~= s@);
    }
    Some(acc)
}

} // verus!
