//! Dot-separated segments of a text, and the scan that reads one segment as a
//! component.

use crate::decimal::{
    all_digits, component, component_max, digits_value, is_digit, lemma_digits_value_push,
    unsigned_part,
};
use vstd::prelude::*;

verus! {

/// The number of characters of `s` before its first `.`; all of them where
/// it has none.
pub open spec fn segment_len(s: Seq<char>) -> nat
    decreases s.len(),
{
    if s.len() == 0 || s[0] == '.' {
        0
    } else {
        1 + segment_len(s.drop_first())
    }
}

/// The text of `s` before its first `.`.
pub open spec fn first_segment(s: Seq<char>) -> Seq<char> {
    s.take(segment_len(s) as int)
}

/// The text of `s` after its first `.`; empty where it has none.
pub open spec fn later_segments(s: Seq<char>) -> Seq<char> {
    if segment_len(s) < s.len() {
        s.skip(segment_len(s) as int + 1)
    } else {
        Seq::empty()
    }
}

/// `s` holds no `.`.
pub open spec fn dot_free(s: Seq<char>) -> bool {
    forall|i: int| 0 <= i < s.len() ==> #[trigger] s[i] != '.'
}

/// The first segment ends where the first `.` stands, or at the end.
pub proof fn lemma_segment_len_is(s: Seq<char>, k: int)
    requires
        0 <= k <= s.len(),
        dot_free(s.take(k)),
        k < s.len() ==> s[k] == '.',
    ensures
        segment_len(s) == k,
    decreases k,
{
    if k == 0 {
    } else {
        assert(s.take(k)[0] == s[0]);
        let rest = s.drop_first();
        assert forall|i: int| 0 <= i < k - 1 implies #[trigger] rest.take(k - 1)[i] != '.' by {
            assert(rest.take(k - 1)[i] == s.take(k)[i + 1]);
        }
        lemma_segment_len_is(rest, k - 1);
    }
}

/// Reads the segment of `text` that starts at `start` as a component.
/// Returns the component and the place where the segment ends: that of the
/// next `.`, or the length of `text`.
pub fn scan_component(text: &Vec<char>, start: usize) -> (found: (u32, usize))
    requires
        start <= text.len(),
    ensures
        found.1 == start + segment_len(text@.skip(start as int)),
        found.1 <= text.len(),
        found.0 == component(first_segment(text@.skip(start as int))),
{
    let len = text.len();
    let mut from = start;
    if start < len && text[start] == '+' {
        from = start + 1;
    }
    let mut i = from;
    let mut fits = true;
    let mut value: u64 = 0;
    assert(text@.subrange(from as int, i as int) =~= Seq::<char>::empty());
    while i < len && text[i] != '.'
        invariant
            len == text.len(),
            start <= from <= i <= len,
            from == start || from == start + 1,
            forall|j: int| start <= j < i ==> text@[j] != '.',
            fits <==> all_digits(text@.subrange(from as int, i as int)) && digits_value(
                text@.subrange(from as int, i as int),
            ) <= component_max(),
            fits ==> value == digits_value(text@.subrange(from as int, i as int)),
        decreases len - i,
    {
        let c = text[i];
        let ghost before = text@.subrange(from as int, i as int);
        let ghost after = text@.subrange(from as int, i as int + 1);
        proof {
            assert(after =~= before.push(c));
            lemma_digits_value_push(before, c);
            assert(all_digits(after) ==> all_digits(before)) by {
                if all_digits(after) {
                    assert forall|j: int| 0 <= j < before.len() implies is_digit(
                        #[trigger] before[j],
                    ) by {
                        assert(before[j] == after[j]);
                    }
                }
            }
            assert(all_digits(before) && is_digit(c) ==> all_digits(after));
            assert(all_digits(after) ==> is_digit(c)) by {
                if all_digits(after) {
                    assert(after[after.len() - 1] == c);
                }
            }
        }
        if fits && c >= '0' && c <= '9' {
            let longer: u64 = value * 10 + (c as u8 - 48) as u64;
            if longer <= u32::MAX as u64 {
                value = longer;
            } else {
                fits = false;
            }
        } else {
            fits = false;
        }
        i = i + 1;
    }
    proof {
        let rest = text@.skip(start as int);
        let k = i - start;
        assert forall|j: int| 0 <= j < k implies #[trigger] rest.take(k)[j] != '.' by {
            assert(rest.take(k)[j] == text@[start + j]);
        }
        lemma_segment_len_is(rest, k);
        let segment = first_segment(rest);
        assert(segment =~= text@.subrange(start as int, i as int));
        assert(unsigned_part(segment) =~= text@.subrange(from as int, i as int)) by {
            if from == start + 1 {
                assert(segment[0] == '+');
            } else if i > start {
                assert(segment[0] == text@[start as int]);
            }
        }
    }
    let number: u32 = if fits && i > from {
        value as u32
    } else {
        0
    };
    (number, i)
}

} // verus!
