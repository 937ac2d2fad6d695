//! What trimming, splitting into lines and ordering do to a text.

use vstd::prelude::*;

use crate::selection::lemma_first_position;
use crate::text::{
    is_white_space, lines_of, precedes_or_equals, trimmed, trimmed_end, trimmed_start,
};

verus! {

/// Whether a text is nothing but white space.
pub open spec fn is_blank(s: Seq<char>) -> bool {
    forall|i: int| 0 <= i < s.len() ==> is_white_space(#[trigger] s[i])
}

proof fn lemma_start_cut_off(s: Seq<char>) -> (cut: Seq<char>)
    ensures
        s == cut + trimmed_start(s),
        is_blank(cut),
        trimmed_start(s).len() > 0 ==> !is_white_space(trimmed_start(s).first()),
    decreases s.len(),
{
    if s.len() > 0 && is_white_space(s.first()) {
        let rest = lemma_start_cut_off(s.drop_first());
        let cut = seq![s.first()] + rest;
        assert(s =~= cut + trimmed_start(s)) by {
            assert(s =~= seq![s.first()] + s.drop_first());
        }
        cut
    } else {
        assert(s =~= Seq::<char>::empty() + s);
        Seq::empty()
    }
}

proof fn lemma_end_cut_off(s: Seq<char>) -> (cut: Seq<char>)
    ensures
        s == trimmed_end(s) + cut,
        is_blank(cut),
        trimmed_end(s).len() > 0 ==> !is_white_space(trimmed_end(s).last()),
        trimmed_end(s).len() > 0 ==> trimmed_end(s).first() == s.first(),
    decreases s.len(),
{
    if s.len() > 0 && is_white_space(s.last()) {
        let rest = lemma_end_cut_off(s.drop_last());
        let cut = rest.push(s.last());
        assert(s =~= trimmed_end(s) + cut) by {
            assert(s =~= s.drop_last().push(s.last()));
        }
        if trimmed_end(s).len() > 0 {
            assert(s.drop_last().first() == s.first());
        }
        cut
    } else {
        assert(s =~= s + Seq::<char>::empty());
        Seq::empty()
    }
}

/// Trimming cuts off nothing but white space, in front and behind, and leaves none
/// there.
pub proof fn law_trimming_cuts_off_white_space(s: Seq<char>)
    ensures
        exists|before: Seq<char>, behind: Seq<char>|
            #[trigger] is_blank(before) && #[trigger] is_blank(behind) && s == before + trimmed(s)
                + behind,
        trimmed(s).len() > 0 ==> !is_white_space(trimmed(s).first()) && !is_white_space(
            trimmed(s).last(),
        ),
{
    let before = lemma_start_cut_off(s);
    let behind = lemma_end_cut_off(trimmed_start(s));
    assert(s =~= before + trimmed(s) + behind);
}

/// A line feed ends a line, together with a carriage return right before it. What
/// comes behind the last line feed is a line where it is anything at all.
pub proof fn law_what_the_lines_of_a_text_are(line: Seq<char>, rest: Seq<char>)
    requires
        !line.contains('\n'),
    ensures
        lines_of(line + seq!['\n'] + rest) == seq![
            if line.len() > 0 && line[line.len() - 1] == '\r' {
                line.take(line.len() - 1)
            } else {
                line
            },
        ] + lines_of(rest),
        line.len() > 0 ==> lines_of(line) == seq![line],
        lines_of(Seq::empty()).len() == 0,
{
    let feed = |c: char| c == '\n';
    let s = line + seq!['\n'] + rest;
    assert forall|j: int| 0 <= j < line.len() implies !feed(#[trigger] line[j]) by {
        assert(line.contains(line[j]));
    }
    assert forall|j: int| 0 <= j < line.len() implies !feed(#[trigger] s[j]) by {
        assert(s[j] == line[j]);
    }
    lemma_first_position(s, feed, line.len() as int);
    lemma_first_position(line, feed, line.len() as int);
    assert(s.take(line.len() as int) =~= line);
    assert(s.skip(line.len() as int + 1) =~= rest);
    if line.len() > 0 {
        assert(line.drop_last() =~= line.take(line.len() - 1));
    }
}

/// Whether two texts agree up to the place `k`, where `a` has the smaller character.
pub open spec fn differs_at(a: Seq<char>, b: Seq<char>, k: int) -> bool {
    &&& 0 <= k < a.len()
    &&& k < b.len()
    &&& a.take(k) == b.take(k)
    &&& a[k] < b[k]
}

/// In the order of texts one comes before another, or is equal to it, exactly where it
/// is a beginning of the other or has the smaller character at the first place where
/// they differ.
pub proof fn law_how_texts_are_ordered(a: Seq<char>, b: Seq<char>)
    ensures
        precedes_or_equals(a, b) <==> a.is_prefix_of(b) || exists|k: int| differs_at(a, b, k),
    decreases a.len(),
{
    if a.len() == 0 {
        assert(b.subrange(0, 0) =~= a);
    } else if b.len() > 0 {
        if a.first() != b.first() {
            if a.is_prefix_of(b) {
                assert(a[0] == b.subrange(0, a.len() as int)[0]);
            }
            if a.first() < b.first() {
                assert(a.take(0) =~= b.take(0));
                assert(differs_at(a, b, 0));
            }
            assert forall|k: int| #[trigger] differs_at(a, b, k) implies a.first() < b.first() by {
                if k > 0 {
                    assert(a.take(k)[0] == b.take(k)[0]);
                }
            }
        } else {
            let x = a.drop_first();
            let y = b.drop_first();
            law_how_texts_are_ordered(x, y);
            if x.is_prefix_of(y) {
                assert(a =~= b.subrange(0, a.len() as int)) by {
                    assert forall|i: int| 0 < i < a.len() implies a[i] == b[i] by {
                        assert(x[i - 1] == y.subrange(0, x.len() as int)[i - 1]);
                    }
                }
            }
            if a.is_prefix_of(b) {
                assert(x =~= y.subrange(0, x.len() as int)) by {
                    assert forall|i: int| 0 <= i < x.len() implies x[i] == y[i] by {
                        assert(a[i + 1] == b.subrange(0, a.len() as int)[i + 1]);
                    }
                }
            }
            assert forall|k: int| #[trigger] differs_at(x, y, k) implies differs_at(
                a,
                b,
                k + 1,
            ) by {
                assert(a.take(k + 1) =~= b.take(k + 1)) by {
                    assert forall|i: int| 0 < i < k + 1 implies a[i] == b[i] by {
                        assert(x.take(k)[i - 1] == y.take(k)[i - 1]);
                    }
                }
            }
            assert forall|k: int| #[trigger] differs_at(a, b, k) implies differs_at(
                x,
                y,
                k - 1,
            ) by {
                assert(k > 0);
                assert(x.take(k - 1) =~= y.take(k - 1)) by {
                    assert forall|i: int| 0 <= i < k - 1 implies x[i] == y[i] by {
                        assert(a.take(k)[i + 1] == b.take(k)[i + 1]);
                    }
                }
            }
            if exists|k: int| differs_at(x, y, k) {
                let k = choose|k: int| differs_at(x, y, k);
                assert(differs_at(a, b, k + 1));
            }
            if exists|k: int| differs_at(a, b, k) {
                let k = choose|k: int| differs_at(a, b, k);
                assert(differs_at(x, y, k - 1));
            }
        }
    } else {
        assert(!a.is_prefix_of(b));
    }
}

} // verus!
