//! Parsing the book-id argument.
//!
//! A book id is a positive integer. The argument is read the way a signed
//! 32-bit parse followed by a positivity check reads it: an optional leading
//! `'+'`, then decimal digits, with a value in `1..=2147483647`. Anything
//! else — an empty string, a stray character, a `'-'` (no negative value is
//! positive), zero, or a value past the cap — is a usage error.

use vstd::prelude::*;
use vstd::string::StrSliceExecFns;

verus! {

/// The largest accepted book id (the signed 32-bit maximum).
pub const MAX_BOOK_ID: usize = 2147483647;

pub open spec fn is_dec_digit(c: char) -> bool {
    '0' as int <= c as int && c as int <= '9' as int
}

pub open spec fn digit_val(c: char) -> int {
    c as int - '0' as int
}

pub open spec fn all_digits(s: Seq<char>) -> bool {
    forall|i: int| 0 <= i < s.len() ==> is_dec_digit(#[trigger] s[i])
}

/// The numeric value of a digit string, most significant digit first.
pub open spec fn dec_val(s: Seq<char>) -> int
    decreases s.len(),
{
    if s.len() == 0 {
        0
    } else {
        dec_val(s.drop_last()) * 10 + digit_val(s.last())
    }
}

/// The argument with an optional leading `'+'` removed.
pub open spec fn digits_part(s: Seq<char>) -> Seq<char> {
    if s.len() > 0 && s[0] == '+' {
        s.drop_first()
    } else {
        s
    }
}

/// The book id an argument denotes, if it denotes one.
pub open spec fn book_id_of(s: Seq<char>) -> Option<usize> {
    let t = digits_part(s);
    if t.len() > 0 && all_digits(t) && 0 < dec_val(t) <= MAX_BOOK_ID as int {
        Some(dec_val(t) as usize)
    } else {
        None
    }
}

proof fn lemma_dec_val_nonneg(s: Seq<char>)
    requires
        all_digits(s),
    ensures
        dec_val(s) >= 0,
    decreases s.len(),
{
    if s.len() > 0 {
        assert(all_digits(s.drop_last()));
        lemma_dec_val_nonneg(s.drop_last());
    }
}

/// Appending digits never shrinks the value: the value of the whole digit
/// string is at least the value of any of its prefixes.
proof fn lemma_dec_val_ge_prefix(s: Seq<char>, k: int)
    requires
        all_digits(s),
        0 <= k <= s.len(),
    ensures
        dec_val(s) >= dec_val(s.take(k)),
    decreases s.len() - k,
{
    if k == s.len() {
        assert(s.take(k) =~= s);
    } else {
        assert(s.take(k + 1).drop_last() =~= s.take(k));
        assert(s.take(k + 1).last() == s[k]);
        assert(all_digits(s.take(k)));
        lemma_dec_val_nonneg(s.take(k));
        assert(dec_val(s.take(k + 1)) == dec_val(s.take(k)) * 10 + digit_val(s[k]));
        lemma_dec_val_ge_prefix(s, k + 1);
    }
}

/// The decimal numeral of a number reads back as that number: formatting
/// with [`crate::numeral::dec_seq`] and parsing with [`dec_val`] are
/// inverse, so the book id a valid argument names is the one that appears
/// in the page URLs and file paths built for it.
pub proof fn lemma_numeral_round_trip(n: nat)
    ensures
        all_digits(crate::numeral::dec_seq(n)),
        dec_val(crate::numeral::dec_seq(n)) == n,
    decreases n,
{
    let s = crate::numeral::dec_seq(n);
    if n < 10 {
        assert(s == seq![crate::numeral::dec_digit(n as int)]);
        assert(s.drop_last() =~= Seq::<char>::empty());
        assert(dec_val(Seq::<char>::empty()) == 0);
        assert(is_dec_digit(s[0]) && digit_val(s[0]) == n);
    } else {
        lemma_numeral_round_trip(n / 10);
        let p = crate::numeral::dec_seq(n / 10);
        let c = crate::numeral::dec_digit((n % 10) as int);
        assert(s == p + seq![c]);
        assert(s.drop_last() =~= p);
        assert(s.last() == c);
        assert(is_dec_digit(c) && digit_val(c) == n % 10);
        assert forall|i: int| 0 <= i < s.len() implies is_dec_digit(#[trigger] s[i]) by {
            if i < p.len() {
                assert(s[i] == p[i]);
            } else {
                assert(s[i] == c);
            }
        }
        assert(dec_val(s) == dec_val(p) * 10 + digit_val(c));
    }
}

/// Parses the book-id argument; `None` is a usage error.
pub fn parse_book_id(s: &str) -> (r: Option<usize>)
    ensures
        r == book_id_of(s@),
{
    let len = s.unicode_len();
    if len == 0 {
        return None;
    }
    let first = s.get_char(0);
    let start: usize = if first == '+' {
        1
    } else {
        0
    };
    let ghost t = digits_part(s@);
    proof {
        assert(t =~= s@.subrange(start as int, len as int));
    }
    if start == len {
        return None;
    }
    let mut i: usize = start;
    let mut acc: u64 = 0;
    while i < len
        invariant
            start <= i <= len,
            len == s@.len(),
            start == 0 || start == 1,
            t == s@.subrange(start as int, len as int),
            t == digits_part(s@),
            all_digits(s@.subrange(start as int, i as int)),
            acc as int == dec_val(s@.subrange(start as int, i as int)),
            acc <= MAX_BOOK_ID as u64,
        decreases len - i,
    {
        let c = s.get_char(i);
        let cv = c as u32;
        if cv < 48 || cv > 57 {
            assert(t[i - start] == c);
            assert(!is_dec_digit(c));
            return None;
        }
        let d = (cv - 48) as u64;
        let next = acc * 10 + d;
        proof {
            assert(s@.subrange(start as int, (i + 1) as int).drop_last() =~= s@.subrange(
                start as int,
                i as int,
            ));
            assert(s@.subrange(start as int, (i + 1) as int).last() == s@[i as int]);
            assert(next as int == dec_val(s@.subrange(start as int, (i + 1) as int)));
        }
        if next > MAX_BOOK_ID as u64 {
            if !all_digits_exec(s, start, len) {
                return None;
            }
            proof {
                assert(s@.subrange(start as int, (i + 1) as int) =~= t.take((i + 1 - start) as int));
                lemma_dec_val_ge_prefix(t, (i + 1 - start) as int);
                assert(dec_val(t) > MAX_BOOK_ID as int);
            }
            return None;
        }
        acc = next;
        i = i + 1;
    }
    proof {
        assert(s@.subrange(start as int, len as int) =~= t);
    }
    if acc == 0 {
        return None;
    }
    proof {
        assert(0 < dec_val(t) <= MAX_BOOK_ID as int);
    }
    Some(acc as usize)
}

/// Checks that every character of `s` in `[from, to)` is a decimal digit.
fn all_digits_exec(s: &str, from: usize, to: usize) -> (r: bool)
    requires
        from <= to <= s@.len(),
    ensures
        r == all_digits(s@.subrange(from as int, to as int)),
{
    let mut i: usize = from;
    while i < to
        invariant
            from <= i <= to <= s@.len(),
            forall|j: int| from <= j < i ==> is_dec_digit(#[trigger] s@[j]),
        decreases to - i,
    {
        let c = s.get_char(i);
        let cv = c as u32;
        if cv < 48 || cv > 57 {
            assert(s@.subrange(from as int, to as int)[i - from] == s@[i as int]);
            return false;
        }
        i = i + 1;
    }
    proof {
        assert forall|j: int| 0 <= j < to - from implies is_dec_digit(
            #[trigger] s@.subrange(from as int, to as int)[j],
        ) by {
            assert(s@.subrange(from as int, to as int)[j] == s@[j + from]);
        }
    }
    true
}

} // verus!
