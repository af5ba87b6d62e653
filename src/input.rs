use vstd::prelude::*;

use crate::decimal::{all_digits, is_digit};

verus! {

/// The decimal digits of `s`, in order, with every other character left out.
pub open spec fn digits_of(s: Seq<char>) -> Seq<char>
    decreases s.len(),
{
    if s.len() == 0 {
        Seq::empty()
    } else if is_digit(s.last()) {
        digits_of(s.drop_last()).push(s.last())
    } else {
        digits_of(s.drop_last())
    }
}

/// Screens text typed into a numeric date field. `None` lets text made of
/// digits alone through as it is; otherwise the result is the text with
/// every non-digit removed, to be inserted in its place.
pub fn screen_digit_input(text: &str) -> (r: Option<String>)
    ensures
        r is None <==> all_digits(text@),
        r matches Some(t) ==> t@ == digits_of(text@),
{
    let n = text.unicode_len();
    let mut out = String::new();
    let mut clean = true;
    let mut i: usize = 0;
    while i < n
        invariant
            n == text@.len(),
            i <= n,
            out@ == digits_of(text@.subrange(0, i as int)),
            clean == all_digits(text@.subrange(0, i as int)),
        decreases n - i,
    {
        let c = text.get_char(i);
        let ghost pre = text@.subrange(0, i as int);
        let ghost next = text@.subrange(0, i + 1);
        assert(next.drop_last() =~= pre);
        assert(next.last() == c);
        if '0' <= c && c <= '9' {
            let piece = text.substring_char(i, i + 1);
            assert(piece@ =~= seq![c]);
            out.append(piece);
            assert(out@ =~= digits_of(pre).push(c));
            if clean {
                assert forall|j: int| 0 <= j < next.len() implies is_digit(#[trigger] next[j]) by {
                    if j < pre.len() {
                        assert(next[j] == pre[j]);
                    }
                }
            } else {
                assert(!all_digits(next)) by {
                    let k = choose|k: int| 0 <= k < pre.len() && !is_digit(#[trigger] pre[k]);
                    assert(next[k] == pre[k]);
                }
            }
        } else {
            clean = false;
            assert(!is_digit(next[i as int]));
        }
        i = i + 1;
    }
    assert(text@.subrange(0, n as int) =~= text@);
    if clean {
        None
    } else {
        Some(out)
    }
}

} // verus!
