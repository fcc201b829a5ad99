//! Verified text handling: parsing integers from decimal text,
//! splitting a string into whitespace-separated words, and the
//! lexicographic order on strings.

use vstd::prelude::*;

use crate::value::{vseq, StackError, StackErrorSpec, Value, ValueSpec};

verus! {

/// Whether `c` is a decimal digit.
pub open spec fn is_digit(c: char) -> bool {
    48 <= c as u32 && c as u32 <= 57
}

/// The numeric value of a decimal digit.
pub open spec fn digit_val(c: char) -> int {
    c as u32 - 48
}

/// Whether every character of `s` is a decimal digit.
pub open spec fn all_digits(s: Seq<char>) -> bool {
    forall|i: int| 0 <= i < s.len() ==> is_digit(#[trigger] s[i])
}

/// The value of a digit string, most significant digit first.
pub open spec fn digits_val(s: Seq<char>) -> int
    decreases s,
{
    if s.len() == 0 {
        0
    } else {
        digits_val(s.drop_last()) * 10 + digit_val(s.last())
    }
}

/// The digits of a decimal numeral, with any leading sign removed.
pub open spec fn decimal_body(s: Seq<char>) -> Seq<char> {
    if s.len() > 0 && (s[0] == '-' || s[0] == '+') {
        s.skip(1)
    } else {
        s
    }
}

/// Whether the numeral carries a minus sign.
pub open spec fn decimal_negative(s: Seq<char>) -> bool {
    s.len() > 0 && s[0] == '-'
}

/// Whether `s` is a decimal numeral: an optional sign followed by at
/// least one digit.
pub open spec fn is_decimal(s: Seq<char>) -> bool {
    decimal_body(s).len() > 0 && all_digits(decimal_body(s))
}

/// The signed value of a decimal numeral.
pub open spec fn decimal_val(s: Seq<char>) -> int {
    if decimal_negative(s) {
        -digits_val(decimal_body(s))
    } else {
        digits_val(decimal_body(s))
    }
}

/// What `parseInteger` leaves for a string operand: the integer it
/// spells when it is a decimal numeral in range, and the `Overflow`
/// error value otherwise.
pub open spec fn spec_parse_int(s: Seq<char>) -> ValueSpec {
    if is_decimal(s) && i128::MIN <= decimal_val(s) <= i128::MAX {
        ValueSpec::Integer(decimal_val(s))
    } else {
        ValueSpec::Error(StackErrorSpec::Overflow)
    }
}

/// A digit string has a value of at least zero.
proof fn digits_val_nonneg(s: Seq<char>)
    requires
        all_digits(s),
    ensures
        digits_val(s) >= 0,
    decreases s,
{
    if s.len() > 0 {
        assert(all_digits(s.drop_last()));
        digits_val_nonneg(s.drop_last());
        assert(is_digit(s.last()));
    }
}

/// Extending a digit string can only grow its value.
proof fn digits_val_monotonic(s: Seq<char>, i: int, j: int)
    requires
        all_digits(s),
        0 <= i <= j <= s.len(),
    ensures
        digits_val(s.take(i)) <= digits_val(s.take(j)),
    decreases j - i,
{
    if i < j {
        digits_val_monotonic(s, i, j - 1);
        let p = s.take(j);
        assert(p.drop_last() =~= s.take(j - 1));
        assert(all_digits(p)) by {
            assert(forall|k: int| 0 <= k < p.len() ==> p[k] == s[k] && is_digit(#[trigger] s[k]));
        }
        digits_val_nonneg(p.drop_last());
        assert(is_digit(p.last()));
        assert(digits_val(p) == digits_val(p.drop_last()) * 10 + digit_val(p.last()));
        assert(digits_val(p.drop_last()) * 10 >= digits_val(p.drop_last())) by {
            digits_val_nonneg(p.drop_last());
        }
    } else {
        assert(s.take(i) =~= s.take(j));
    }
}

/// Parses decimal text into an exact integer, or the `Overflow` error
/// value when the text is not a numeral or its value does not fit.
pub fn parse_integer(s: &String) -> (r: Value)
    ensures
        r@ == spec_parse_int(s@),
{
    let st: &str = s.as_str();
    let n = st.unicode_len();
    if n == 0 {
        return Value::Error(StackError::Overflow);
    }
    let c0 = st.get_char(0);
    let neg = c0 == '-';
    let has_sign = neg || c0 == '+';
    let start: usize = if has_sign {
        1
    } else {
        0
    };
    let ghost body = decimal_body(s@);
    proof {
        assert(body =~= s@.skip(start as int));
    }
    if start >= n {
        // a bare sign has no digits
        return Value::Error(StackError::Overflow);
    }
    // `acc` carries the negated value of the digits read so far, so
    // that the most negative integer is reachable.
    let mut acc: i128 = 0;
    let mut i: usize = start;
    while i < n
        invariant
            st@ == s@,
            start <= i <= n,
            n == s@.len(),
            start == (if has_sign { 1int } else { 0int }),
            body == decimal_body(s@),
            neg == decimal_negative(s@),
            body == s@.skip(start as int),
            all_digits(body.take(i - start)),
            acc == -digits_val(body.take(i - start)),
        decreases n - i,
    {
        let c = st.get_char(i);
        let cv = c as u32;
        if !(48 <= cv && cv <= 57) {
            proof {
                assert(body[i - start] == s@[i as int]);
                assert(!is_digit(body[i - start]));
                assert(!all_digits(body));
            }
            return Value::Error(StackError::Overflow);
        }
        let d = (cv - 48) as i128;
        let ghost pre = body.take(i - start);
        let ghost ext = body.take(i + 1 - start);
        proof {
            assert(ext.drop_last() =~= pre);
            assert(ext.last() == s@[i as int]);
            assert(digits_val(ext) == digits_val(pre) * 10 + digit_val(ext.last()));
            assert(all_digits(ext)) by {
                assert(forall|k: int| 0 <= k < ext.len() - 1 ==> ext[k] == pre[k]);
                assert(is_digit(ext.last()));
            }
        }
        let shifted = match acc.checked_mul(10) {
            Some(x) => x,
            None => {
                proof {
                    digits_val_nonneg(pre);
                    assert(digits_val(ext) > (i128::MAX as int) + 1);
                    overflow_escape(body, i + 1 - start, neg, s@);
                }
                return Value::Error(StackError::Overflow);
            },
        };
        acc = match shifted.checked_sub(d) {
            Some(x) => x,
            None => {
                proof {
                    digits_val_nonneg(pre);
                    assert(digits_val(ext) > (i128::MAX as int) + 1);
                    overflow_escape(body, i + 1 - start, neg, s@);
                }
                return Value::Error(StackError::Overflow);
            },
        };
        i = i + 1;
    }
    proof {
        assert(body.take(n - start) =~= body);
    }
    if neg {
        proof {
            assert(decimal_val(s@) == acc as int);
        }
        Value::Integer(acc)
    } else if acc == i128::MIN {
        proof {
            assert(decimal_val(s@) == -(acc as int));
            assert(decimal_val(s@) > i128::MAX);
        }
        Value::Error(StackError::Overflow)
    } else {
        proof {
            assert(decimal_val(s@) == -(acc as int));
        }
        Value::Integer(-acc)
    }
}

/// When even a prefix of the digits is already out of range, the whole
/// numeral is out of range.
proof fn overflow_escape(body: Seq<char>, k: int, neg: bool, s: Seq<char>)
    requires
        body == decimal_body(s),
        neg == decimal_negative(s),
        0 <= k <= body.len(),
        all_digits(body.take(k)),
        digits_val(body.take(k)) > (i128::MAX as int) + 1,
    ensures
        !(is_decimal(s) && i128::MIN <= decimal_val(s) <= i128::MAX),
{
    if is_decimal(s) {
        digits_val_monotonic(body, k, body.len() as int);
        assert(body.take(body.len() as int) =~= body);
    }
}

/// Whether `c` separates words: the characters with the Unicode
/// White_Space property (the blanks of the Basic Latin and Latin-1
/// rows, the Ogham space mark, the typographic spaces, the line and
/// paragraph separators, and the ideographic space).
pub open spec fn is_space(c: char) -> bool {
    let u = c as u32;
    (9 <= u && u <= 13) || u == 32 || u == 0x85 || u == 0xa0 || u == 0x1680 || (0x2000 <= u && u
        <= 0x200a) || u == 0x2028 || u == 0x2029 || u == 0x202f || u == 0x205f || u == 0x3000
}

/// Whether `c` separates words.
pub fn is_space_char(c: char) -> (r: bool)
    ensures
        r == is_space(c),
{
    let u = c as u32;
    (9 <= u && u <= 13) || u == 32 || u == 0x85 || u == 0xa0 || u == 0x1680 || (0x2000 <= u && u
        <= 0x200a) || u == 0x2028 || u == 0x2029 || u == 0x202f || u == 0x205f || u == 0x3000
}

/// The position just past the word starting at `i`: the first blank
/// position at or after `i`, or the end of the string.
pub open spec fn word_end(s: Seq<char>, i: int) -> int
    decreases s.len() - i,
    when 0 <= i <= s.len()
{
    if i >= s.len() || is_space(s[i]) {
        i
    } else {
        word_end(s, i + 1)
    }
}

pub proof fn word_end_bounds(s: Seq<char>, i: int)
    requires
        0 <= i <= s.len(),
    ensures
        i <= word_end(s, i) <= s.len(),
    decreases s.len() - i,
{
    if !(i >= s.len() || is_space(s[i])) {
        word_end_bounds(s, i + 1);
    }
}

/// The maximal blank-free runs of `s` starting at or after `i`, in
/// order.
pub open spec fn words_from(s: Seq<char>, i: int) -> Seq<Seq<char>>
    decreases s.len() - i,
    when 0 <= i <= s.len()
{
    if i >= s.len() {
        Seq::empty()
    } else if is_space(s[i]) {
        words_from(s, i + 1)
    } else {
        let j = word_end(s, i);
        proof {
            word_end_bounds(s, i + 1);
        }
        seq![s.subrange(i, j)] + words_from(s, j)
    }
}

/// The words of `s` as string values.
pub open spec fn word_values(ws: Seq<Seq<char>>) -> Seq<ValueSpec> {
    ws.map_values(|w: Seq<char>| ValueSpec::String(w))
}

/// What `words` leaves for a string operand: the list of its maximal
/// blank-free runs, in order.
pub open spec fn spec_words(s: Seq<char>) -> ValueSpec {
    ValueSpec::List(word_values(words_from(s, 0)))
}

/// Splits a string into its whitespace-separated words.
pub fn split_words(s: &String) -> (r: Value)
    ensures
        r@ == spec_words(s@),
{
    let st: &str = s.as_str();
    let n = st.unicode_len();
    let mut acc: Vec<Value> = Vec::new();
    collect_words(st, 0, n, &mut acc);
    proof {
        assert(vseq(acc@) =~= word_values(words_from(s@, 0)));
    }
    Value::List(acc)
}

/// Appends the words of `s` at or after position `i` to `acc`.
fn collect_words(s: &str, i: usize, n: usize, acc: &mut Vec<Value>)
    requires
        n == s@.len(),
        i <= n,
    ensures
        vseq(final(acc)@) == vseq(old(acc)@) + word_values(words_from(s@, i as int)),
    decreases n - i,
{
    broadcast use crate::value::vseq_len, crate::value::vseq_index;

    if i == n {
        proof {
            assert(vseq(acc@) =~= vseq(acc@) + word_values(words_from(s@, i as int)));
        }
        return ;
    }
    let c = s.get_char(i);
    if is_space_char(c) {
        collect_words(s, i + 1, n, acc);
        return ;
    }
    proof {
        word_end_bounds(s@, i as int + 1);
    }
    let j = find_word_end(s, i, n);
    let w = s.substring_char(i, j);
    let word = Value::String(w.to_owned());
    let ghost before = acc@;
    acc.push(word);
    collect_words(s, j, n, acc);
    proof {
        let ws = words_from(s@, i as int);
        let rest = words_from(s@, j as int);
        assert(ws == seq![s@.subrange(i as int, j as int)] + rest);
        assert(vseq(before.push(word)) =~= vseq(before) + seq![word@]);
        assert(word_values(ws) =~= seq![word@] + word_values(rest));
        assert(vseq(acc@) =~= vseq(before) + word_values(ws));
    }
}

/// The position just past the word starting at `j`, found by walking
/// to the first blank position.
fn find_word_end(s: &str, j: usize, n: usize) -> (r: usize)
    requires
        n == s@.len(),
        j <= n,
    ensures
        r == word_end(s@, j as int),
        j <= r <= n,
    decreases n - j,
{
    proof {
        word_end_bounds(s@, j as int);
    }
    if j == n {
        return j;
    }
    let c = s.get_char(j);
    if is_space_char(c) {
        j
    } else {
        find_word_end(s, j + 1, n)
    }
}

/// The strict lexicographic order on character sequences, decided
/// from position `i` on.
pub open spec fn lex_lt_from(a: Seq<char>, b: Seq<char>, i: int) -> bool
    decreases a.len() - i,
    when 0 <= i
{
    if i >= b.len() {
        false
    } else if i >= a.len() {
        true
    } else if a[i] as u32 != b[i] as u32 {
        (a[i] as u32) < (b[i] as u32)
    } else {
        lex_lt_from(a, b, i + 1)
    }
}

/// The strict lexicographic order on character sequences, by code
/// point, with a proper prefix ordered before its extensions.
pub open spec fn lex_lt(a: Seq<char>, b: Seq<char>) -> bool {
    lex_lt_from(a, b, 0)
}

fn lex_lt_exec(a: &str, b: &str, i: usize, na: usize, nb: usize) -> (r: bool)
    requires
        na == a@.len(),
        nb == b@.len(),
        i <= na,
        i <= nb,
    ensures
        r == lex_lt_from(a@, b@, i as int),
    decreases na - i,
{
    if i >= nb {
        false
    } else if i >= na {
        true
    } else {
        let ca = a.get_char(i) as u32;
        let cb = b.get_char(i) as u32;
        if ca != cb {
            ca < cb
        } else {
            lex_lt_exec(a, b, i + 1, na, nb)
        }
    }
}

/// Decides the lexicographic order on two string slices.
pub fn str_lt(a: &str, b: &str) -> (r: bool)
    ensures
        r == lex_lt(a@, b@),
{
    let na = a.unicode_len();
    let nb = b.unicode_len();
    lex_lt_exec(a, b, 0, na, nb)
}

/// Decides the lexicographic order on two strings.
pub fn string_lt(a: &String, b: &String) -> (r: bool)
    ensures
        r == lex_lt(a@, b@),
{
    let sa: &str = a.as_str();
    let sb: &str = b.as_str();
    let na = sa.unicode_len();
    let nb = sb.unicode_len();
    lex_lt_exec(sa, sb, 0, na, nb)
}


/// Two characters with the same code point are the same character.
proof fn char_eq_from_u32(c1: char, c2: char)
    requires
        c1 as u32 == c2 as u32,
    ensures
        c1 == c2,
{
}

/// From any position reached with equal prefixes, the lexicographic
/// order holds in at most one direction, and in neither direction
/// only when the remainders are the same.
pub proof fn lex_lt_from_asym(x: Seq<char>, y: Seq<char>, i: int)
    requires
        0 <= i <= x.len(),
        i <= y.len(),
    ensures
        !(lex_lt_from(x, y, i) && lex_lt_from(y, x, i)),
        (!lex_lt_from(x, y, i) && !lex_lt_from(y, x, i)) ==> x.len() == y.len() && (forall|j: int|
            i <= j < x.len() ==> x[j] == y[j]),
    decreases x.len() - i,
{
    if i < x.len() && i < y.len() && x[i] as u32 == y[i] as u32 {
        char_eq_from_u32(x[i], y[i]);
        lex_lt_from_asym(x, y, i + 1);
    }
}

/// The lexicographic order is a strict order: it never relates both
/// ways, and two unequal strings relate one way or the other.
pub proof fn lex_lt_asym(x: Seq<char>, y: Seq<char>)
    ensures
        !(lex_lt(x, y) && lex_lt(y, x)),
        (!lex_lt(x, y) && !lex_lt(y, x)) ==> x == y,
{
    lex_lt_from_asym(x, y, 0);
    if !lex_lt(x, y) && !lex_lt(y, x) {
        assert(x =~= y);
    }
}

} // verus!
