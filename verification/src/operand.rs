//! Validating and sanitizing operand text.
//!
//! An operand line is trimmed and run through a character filter: every
//! character must be an ASCII digit, except that at most one `.` and at most
//! one `-` may appear anywhere. Text that fails the filter, or is empty, is
//! replaced by the literal `0`.

use vstd::prelude::*;
use crate::text::chars_of;
use crate::text::trim_chars;
use crate::text::trim_spec;

verus! {

/// A character the operand filter accepts: an ASCII digit, `.`, or `-`.
pub open spec fn is_operand_char(c: char) -> bool {
    c == '.' || c == '-' || ('0' <= c && c <= '9')
}

/// Occurrences of `c` in `s`.
pub open spec fn count_char(s: Seq<char>, c: char) -> nat
    decreases s.len(),
{
    if s.len() == 0 {
        0
    } else {
        count_char(s.drop_last(), c) + if s.last() == c {
            1nat
        } else {
            0nat
        }
    }
}

/// The operand character filter: only digits, dots and minus signs, with at
/// most one dot and at most one minus sign.
pub open spec fn valid_characters_spec(s: Seq<char>) -> bool {
    &&& forall|i: int| 0 <= i < s.len() ==> is_operand_char(s[i])
    &&& count_char(s, '.') <= 1
    &&& count_char(s, '-') <= 1
}

/// Text that may stand as an operand: nonempty and passing the filter.
pub open spec fn valid_operand_text(t: Seq<char>) -> bool {
    t.len() > 0 && valid_characters_spec(t)
}

/// Whether a raw operand line is accepted as entered: its trimmed text is
/// nonempty and passes the character filter.
pub open spec fn operand_ok_spec(l: Seq<char>) -> bool {
    valid_operand_text(trim_spec(l))
}

/// The operand text that evaluation uses: the trimmed line if it is
/// accepted, and the literal `0` otherwise.
pub open spec fn sanitize_spec(l: Seq<char>) -> Seq<char> {
    if operand_ok_spec(l) {
        trim_spec(l)
    } else {
        seq!['0']
    }
}

/// Runs the character filter over a vector of characters.
pub fn valid_chars_vec(v: &Vec<char>) -> (b: bool)
    ensures
        b == valid_characters_spec(v@),
{
    let n = v.len();
    let mut ok = true;
    let mut dots: usize = 0;
    let mut minus: usize = 0;
    let mut i: usize = 0;
    while i < n
        invariant
            i <= n,
            n == v@.len(),
            dots <= i,
            minus <= i,
            dots == count_char(v@.subrange(0, i as int), '.'),
            minus == count_char(v@.subrange(0, i as int), '-'),
            ok == (forall|k: int| 0 <= k < i ==> is_operand_char(v@[k])),
        decreases n - i,
    {
        let c = v[i];
        if c == '.' {
            dots = dots + 1;
        } else if c == '-' {
            minus = minus + 1;
        } else if !(c >= '0' && c <= '9') {
            ok = false;
        }
        i = i + 1;
        proof {
            assert(v@.subrange(0, i as int).drop_last() =~= v@.subrange(0, i - 1));
            assert(v@.subrange(0, i as int).last() == v@[i - 1]);
        }
    }
    proof {
        assert(v@.subrange(0, n as int) =~= v@);
    }
    ok && dots <= 1 && minus <= 1
}

/// The operand character filter on a string.
pub fn valid_characters(my_string: &str) -> (b: bool)
    ensures
        b == valid_characters_spec(my_string@),
{
    let v = chars_of(my_string);
    valid_chars_vec(&v)
}

/// Trims a raw operand line and applies the filter; a rejected or empty
/// line becomes the literal `0`. Returns the text to evaluate and whether
/// the line was accepted as entered.
pub fn sanitize_operand(line: &str) -> (r: (Vec<char>, bool))
    ensures
        r.0@ == sanitize_spec(line@),
        r.1 == operand_ok_spec(line@),
        valid_operand_text(r.0@),
{
    let v = chars_of(line);
    let t = trim_chars(&v);
    let ok = if t.len() == 0 {
        false
    } else {
        valid_chars_vec(&t)
    };
    if ok {
        (t, true)
    } else {
        let mut z: Vec<char> = Vec::new();
        z.push('0');
        proof {
            assert(z@ =~= seq!['0']);
            lemma_zero_text_valid();
        }
        (z, false)
    }
}

/// The substitute operand `0` passes the filter.
proof fn lemma_zero_text_valid()
    ensures
        valid_operand_text(seq!['0']),
{
    assert(seq!['0'].drop_last() =~= Seq::<char>::empty());
    assert(seq!['0'].last() == '0');
    assert(count_char(Seq::<char>::empty(), '.') == 0);
    assert(count_char(Seq::<char>::empty(), '-') == 0);
    assert(count_char(seq!['0'], '.') == 0);
    assert(count_char(seq!['0'], '-') == 0);
    assert(seq!['0'][0] == '0');
}

/// The filter in plain terms: empty text never stands as an operand; a
/// second dot, a second minus sign, or any character outside the digit,
/// dot and minus alphabet is rejected; and text made of that alphabet with
/// at most one dot and one minus sign is accepted.
pub proof fn lemma_operand_filter(s: Seq<char>)
    ensures
        !valid_operand_text(Seq::<char>::empty()),
        count_char(s, '.') >= 2 ==> !valid_characters_spec(s),
        count_char(s, '-') >= 2 ==> !valid_characters_spec(s),
        (exists|i: int| 0 <= i < s.len() && !is_operand_char(s[i])) ==> !valid_characters_spec(s),
        ((forall|i: int| 0 <= i < s.len() ==> is_operand_char(s[i])) && count_char(s, '.') <= 1
            && count_char(s, '-') <= 1) ==> valid_characters_spec(s),
{
}

} // verus!
