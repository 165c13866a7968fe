//! Delimited text and decimal numbers.
//!
//! Configuration strings and account names carry lists of decimal numbers
//! between delimiter characters. The functions here cut such text into fields
//! and read a field as a number, with the grammar `[+-]? digit+`.

use vstd::prelude::*;

verus! {

/// Whether the character is one of `0` to `9`.
pub open spec fn is_digit(c: char) -> bool {
    '0' <= c && c <= '9'
}

/// The number a digit stands for.
pub open spec fn digit_value(c: char) -> int {
    c as int - '0' as int
}

/// Whether every character is a digit.
pub open spec fn all_digits(s: Seq<char>) -> bool {
    forall|i: int| 0 <= i < s.len() ==> is_digit(#[trigger] s[i])
}

/// The number that a run of digits spells.
pub open spec fn digits_value(s: Seq<char>) -> int
    decreases s.len(),
{
    if s.len() == 0 {
        0
    } else {
        digits_value(s.drop_last()) * 10 + digit_value(s.last())
    }
}

/// The integer that a field spells: an optional sign, then one or more
/// digits. Anything else spells no number.
pub open spec fn decimal_value(s: Seq<char>) -> Option<int> {
    if s.len() == 0 {
        None
    } else if s[0] == '-' {
        if s.len() > 1 && all_digits(s.drop_first()) {
            Some(-digits_value(s.drop_first()))
        } else {
            None
        }
    } else if s[0] == '+' {
        if s.len() > 1 && all_digits(s.drop_first()) {
            Some(digits_value(s.drop_first()))
        } else {
            None
        }
    } else if all_digits(s) {
        Some(digits_value(s))
    } else {
        None
    }
}

/// The field read as a 32-bit number; a number out of range reads as none.
pub open spec fn i32_value(s: Seq<char>) -> Option<i32> {
    match decimal_value(s) {
        Some(v) => if i32::MIN <= v <= i32::MAX {
            Some(v as i32)
        } else {
            None
        },
        None => None,
    }
}

/// The field read as a 64-bit number; a number out of range reads as none.
pub open spec fn i64_value(s: Seq<char>) -> Option<i64> {
    match decimal_value(s) {
        Some(v) => if i64::MIN <= v <= i64::MAX {
            Some(v as i64)
        } else {
            None
        },
        None => None,
    }
}

/// The fields of a text: the stretches between delimiters, in order. A text
/// without delimiter is one field; a delimiter at either end bounds an empty
/// field.
pub open spec fn split(s: Seq<char>, sep: char) -> Seq<Seq<char>>
    decreases s.len(),
{
    if s.len() == 0 {
        seq![Seq::<char>::empty()]
    } else {
        let before = split(s.drop_last(), sep);
        if s.last() == sep {
            before.push(Seq::<char>::empty())
        } else {
            before.drop_last().push(before.last().push(s.last()))
        }
    }
}

/// The characters of each field.
pub open spec fn fields_view(fields: Seq<Vec<char>>) -> Seq<Seq<char>> {
    Seq::new(fields.len(), |i: int| fields[i]@)
}

/// A text has at least one field.
pub proof fn lemma_split_nonempty(s: Seq<char>, sep: char)
    ensures
        split(s, sep).len() >= 1,
    decreases s.len(),
{
    if s.len() > 0 {
        lemma_split_nonempty(s.drop_last(), sep);
    }
}

/// The characters of a text.
pub fn chars_of(s: &str) -> (chars: Vec<char>)
    ensures
        chars@ == s@,
{
    let mut chars: Vec<char> = Vec::new();
    for c in it: s.chars()
        invariant
            it.seq() == s@,
            chars@ == s@.subrange(0, it.index() as int),
    {
        chars.push(c);
        assert(chars@ =~= s@.subrange(0, it.index() + 1));
    }
    assert(chars@ =~= s@);
    chars
}

/// Cuts a text into its fields.
pub fn split_chars(chars: &Vec<char>, sep: char) -> (fields: Vec<Vec<char>>)
    ensures
        fields_view(fields@) == split(chars@, sep),
{
    let mut fields: Vec<Vec<char>> = Vec::new();
    let mut current: Vec<char> = Vec::new();
    let n = chars.len();
    let mut i: usize = 0;
    proof {
        assert(chars@.subrange(0, 0) =~= Seq::<char>::empty());
        assert(fields_view(fields@).push(current@) =~= split(chars@.subrange(0, 0), sep));
    }
    while i < n
        invariant
            n == chars@.len(),
            i <= n,
            fields_view(fields@).push(current@) == split(chars@.subrange(0, i as int), sep),
        decreases n - i,
    {
        let c = chars[i];
        let ghost prefix = chars@.subrange(0, i as int);
        let ghost longer = chars@.subrange(0, i + 1);
        let ghost before = fields_view(fields@).push(current@);
        proof {
            assert(longer.drop_last() =~= prefix);
            assert(longer.last() == c);
            assert(before.drop_last() =~= fields_view(fields@));
            assert(before.last() == current@);
        }
        if c == sep {
            let ghost old_fields = fields@;
            fields.push(current);
            current = Vec::new();
            proof {
                assert(fields_view(fields@) =~= fields_view(old_fields).push(before.last()));
                assert(fields_view(fields@) =~= before);
            }
        } else {
            current.push(c);
        }
        i = i + 1;
    }
    proof {
        assert(chars@.subrange(0, n as int) =~= chars@);
    }
    let ghost old_fields = fields@;
    let ghost last = current@;
    fields.push(current);
    proof {
        assert(fields_view(fields@) =~= fields_view(old_fields).push(last));
    }
    fields
}

/// Reads a run of digits as a number, up to `limit`.
///
/// Returns the number when every character is a digit and the number is at
/// most `limit`, else none.
fn parse_digits(chars: &Vec<char>, start: usize, limit: u128) -> (r: Option<u128>)
    requires
        start <= chars@.len(),
        limit <= u64::MAX,
    ensures
        r == if all_digits(chars@.subrange(start as int, chars@.len() as int)) && digits_value(
            chars@.subrange(start as int, chars@.len() as int),
        ) <= limit {
            Some(digits_value(chars@.subrange(start as int, chars@.len() as int)) as u128)
        } else {
            None
        },
{
    let n = chars.len();
    let mut acc: u128 = 0;
    let mut over: bool = false;
    let mut i: usize = start;
    proof {
        assert(chars@.subrange(start as int, start as int) =~= Seq::<char>::empty());
    }
    while i < n
        invariant
            n == chars@.len(),
            start <= i <= n,
            limit <= u64::MAX,
            all_digits(chars@.subrange(start as int, i as int)),
            digits_value(chars@.subrange(start as int, i as int)) >= 0,
            !over ==> acc == digits_value(chars@.subrange(start as int, i as int)) && acc
                <= limit,
            over ==> digits_value(chars@.subrange(start as int, i as int)) > limit,
        decreases n - i,
    {
        let c = chars[i];
        let ghost prefix = chars@.subrange(start as int, i as int);
        let ghost longer = chars@.subrange(start as int, i + 1);
        let ghost whole = chars@.subrange(start as int, n as int);
        proof {
            assert(longer.drop_last() =~= prefix);
            assert(longer.last() == c);
            assert(whole[i - start] == c);
        }
        if !(c >= '0' && c <= '9') {
            assert(!all_digits(whole));
            return None;
        }
        let d: u128 = (c as u32 - '0' as u32) as u128;
        assert(d == digit_value(c));
        assert(all_digits(longer)) by {
            assert forall|k: int| 0 <= k < longer.len() implies is_digit(#[trigger] longer[k]) by {
                if k < prefix.len() {
                    assert(longer[k] == prefix[k]);
                }
            }
        }
        if !over {
            let next: u128 = acc * 10 + d;
            if next > limit {
                over = true;
            } else {
                acc = next;
            }
        }
        i = i + 1;
    }
    proof {
        assert(chars@.subrange(start as int, n as int) =~= chars@.subrange(
            start as int,
            i as int,
        ));
    }
    if over {
        None
    } else {
        Some(acc)
    }
}

/// Reads a field as a 32-bit number.
pub fn parse_i32(chars: &Vec<char>) -> (r: Option<i32>)
    ensures
        r == i32_value(chars@),
{
    if chars.len() == 0 {
        return None;
    }
    let first = chars[0];
    proof {
        assert(chars@.subrange(0, chars@.len() as int) =~= chars@);
        assert(chars@.subrange(1, chars@.len() as int) =~= chars@.drop_first());
        if all_digits(chars@) {
            lemma_digits_nonnegative(chars@);
        }
        if all_digits(chars@.drop_first()) {
            lemma_digits_nonnegative(chars@.drop_first());
        }
    }
    if first == '-' {
        if chars.len() == 1 {
            return None;
        }
        match parse_digits(chars, 1, 2147483648) {
            Some(m) => {
                let wide: i64 = m as i64;
                Some((0 - wide) as i32)
            },
            None => None,
        }
    } else if first == '+' {
        if chars.len() == 1 {
            return None;
        }
        match parse_digits(chars, 1, 2147483647) {
            Some(m) => Some(m as i32),
            None => None,
        }
    } else {
        match parse_digits(chars, 0, 2147483647) {
            Some(m) => Some(m as i32),
            None => None,
        }
    }
}

/// Reads a field as a 64-bit number.
pub fn parse_i64(chars: &Vec<char>) -> (r: Option<i64>)
    ensures
        r == i64_value(chars@),
{
    if chars.len() == 0 {
        return None;
    }
    let first = chars[0];
    proof {
        assert(chars@.subrange(0, chars@.len() as int) =~= chars@);
        assert(chars@.subrange(1, chars@.len() as int) =~= chars@.drop_first());
        if all_digits(chars@) {
            lemma_digits_nonnegative(chars@);
        }
        if all_digits(chars@.drop_first()) {
            lemma_digits_nonnegative(chars@.drop_first());
        }
    }
    if first == '-' {
        if chars.len() == 1 {
            return None;
        }
        match parse_digits(chars, 1, 9223372036854775808) {
            Some(m) => {
                if m == 9223372036854775808 {
                    Some(i64::MIN)
                } else {
                    let wide: i64 = m as i64;
                    Some(0 - wide)
                }
            },
            None => None,
        }
    } else if first == '+' {
        if chars.len() == 1 {
            return None;
        }
        match parse_digits(chars, 1, 9223372036854775807) {
            Some(m) => Some(m as i64),
            None => None,
        }
    } else {
        match parse_digits(chars, 0, 9223372036854775807) {
            Some(m) => Some(m as i64),
            None => None,
        }
    }
}

/// A run of digits spells a number that is not negative.
pub proof fn lemma_digits_nonnegative(s: Seq<char>)
    requires
        all_digits(s),
    ensures
        digits_value(s) >= 0,
    decreases s.len(),
{
    if s.len() > 0 {
        assert(all_digits(s.drop_last())) by {
            assert forall|k: int| 0 <= k < s.drop_last().len() implies is_digit(
                #[trigger] s.drop_last()[k],
            ) by {
                assert(s.drop_last()[k] == s[k]);
            }
        }
        lemma_digits_nonnegative(s.drop_last());
        assert(is_digit(s[s.len() - 1]));
    }
}

/// Whether two texts are the same.
pub fn str_equal(a: &str, b: &str) -> (same: bool)
    ensures
        same == (a@ == b@),
{
    let x = chars_of(a);
    let y = chars_of(b);
    if x.len() != y.len() {
        return false;
    }
    let n = x.len();
    let mut i: usize = 0;
    while i < n
        invariant
            x@ == a@,
            y@ == b@,
            n == x@.len(),
            n == y@.len(),
            i <= n,
            forall|k: int| 0 <= k < i ==> x@[k] == y@[k],
        decreases n - i,
    {
        if x[i] != y[i] {
            assert(a@[i as int] != b@[i as int]);
            return false;
        }
        i = i + 1;
    }
    assert(x@ =~= y@);
    true
}

} // verus!
