//! Operations on text, stated over sequences of characters.

use vstd::prelude::*;
use vstd::string::*;

use crate::selection::{first_position, lemma_first_position};

verus! {

/// The characters with the Unicode property `White_Space`.
pub open spec fn is_white_space(c: char) -> bool {
    ||| '\u{9}' <= c <= '\u{d}'
    ||| c == ' '
    ||| c == '\u{85}'
    ||| c == '\u{a0}'
    ||| c == '\u{1680}'
    ||| '\u{2000}' <= c <= '\u{200a}'
    ||| c == '\u{2028}'
    ||| c == '\u{2029}'
    ||| c == '\u{202f}'
    ||| c == '\u{205f}'
    ||| c == '\u{3000}'
}

/// `s` without its leading white space.
pub open spec fn trimmed_start(s: Seq<char>) -> Seq<char>
    decreases s.len(),
{
    if s.len() > 0 && is_white_space(s.first()) {
        trimmed_start(s.drop_first())
    } else {
        s
    }
}

/// `s` without its trailing white space.
pub open spec fn trimmed_end(s: Seq<char>) -> Seq<char>
    decreases s.len(),
{
    if s.len() > 0 && is_white_space(s.last()) {
        trimmed_end(s.drop_last())
    } else {
        s
    }
}

/// `s` without leading and trailing white space.
pub open spec fn trimmed(s: Seq<char>) -> Seq<char> {
    trimmed_end(trimmed_start(s))
}

proof fn lemma_trimmed_start(s: Seq<char>)
    ensures
        trimmed_start(s).len() > 0 ==> !is_white_space(trimmed_start(s).first()),
    decreases s.len(),
{
    if s.len() > 0 && is_white_space(s.first()) {
        lemma_trimmed_start(s.drop_first());
    }
}

proof fn lemma_trimmed_end(s: Seq<char>)
    ensures
        trimmed_end(s).is_prefix_of(s),
        trimmed_end(s).len() > 0 ==> !is_white_space(trimmed_end(s).last()),
        trimmed_end(s).len() > 0 ==> trimmed_end(s).first() == s.first(),
    decreases s.len(),
{
    if s.len() > 0 && is_white_space(s.last()) {
        lemma_trimmed_end(s.drop_last());
        let t = trimmed_end(s);
        assert(s.drop_last().subrange(0, t.len() as int) =~= s.subrange(0, t.len() as int));
        if t.len() > 0 {
            assert(t.first() == s.drop_last().first());
        }
    } else {
        assert(s.subrange(0, s.len() as int) =~= s);
    }
}

/// Text without surrounding white space stays as it is.
pub proof fn lemma_trimmed_idempotent(s: Seq<char>)
    ensures
        trimmed(trimmed(s)) == trimmed(s),
{
    let t = trimmed_start(s);
    lemma_trimmed_start(s);
    lemma_trimmed_end(t);
    assert(trimmed_start(trimmed_end(t)) == trimmed_end(t));
    assert(trimmed_end(trimmed_end(t)) == trimmed_end(t));
}

/// `str::trim` removes leading and trailing white space, where white space is
/// the Unicode property `White_Space`.
pub assume_specification[ str::trim ](s: &str) -> (res: &str)
    ensures
        res@ == trimmed(s@),
;

/// `String::push` appends one character to the end of the string.
pub assume_specification[ String::push ](s: &mut String, c: char)
    ensures
        final(s)@ == old(s)@.push(c),
;

/// The characters of a string, in order.
pub fn chars(s: &str) -> (res: Vec<char>)
    ensures
        res@ == s@,
{
    let mut res: Vec<char> = Vec::new();
    for c in it: s.chars()
        invariant
            res@ == it.seq().take(it.index()),
            it.seq() == s@,
    {
        res.push(c);
    }
    res
}

/// Whether `s` begins with `prefix`.
pub fn starts_with(s: &str, prefix: &str) -> (res: bool)
    ensures
        res == prefix@.is_prefix_of(s@),
{
    let whole: Vec<char> = chars(s);
    let head: Vec<char> = chars(prefix);
    if head.len() > whole.len() {
        return false;
    }
    let mut i: usize = 0;
    while i < head.len()
        invariant
            i <= head.len() <= whole.len(),
            forall|j: int| 0 <= j < i ==> head@[j] == whole@[j],
            whole@ == s@,
            head@ == prefix@,
        decreases head.len() - i,
    {
        if head[i] != whole[i] {
            assert(prefix@[i as int] != s@.subrange(0, prefix@.len() as int)[i as int]);
            return false;
        }
        i += 1;
    }
    true
}

/// Whether `c` occurs in `s`.
pub fn contains_char(s: &str, c: char) -> (res: bool)
    ensures
        res == s@.contains(c),
{
    let whole: Vec<char> = chars(s);
    let mut i: usize = 0;
    while i < whole.len()
        invariant
            i <= whole.len(),
            forall|j: int| 0 <= j < i ==> whole@[j] != c,
            whole@ == s@,
        decreases whole.len() - i,
    {
        if whole[i] == c {
            assert(s@[i as int] == c);
            return true;
        }
        i += 1;
    }
    false
}

/// Whether two strings hold the same characters.
pub fn same(a: &str, b: &str) -> (res: bool)
    ensures
        res == (a@ == b@),
{
    let left: Vec<char> = chars(a);
    let right: Vec<char> = chars(b);
    if left.len() != right.len() {
        return false;
    }
    let mut i: usize = 0;
    while i < left.len()
        invariant
            i <= left.len() == right.len(),
            forall|j: int| 0 <= j < i ==> left@[j] == right@[j],
            left@ == a@,
            right@ == b@,
        decreases left.len() - i,
    {
        if left[i] != right[i] {
            return false;
        }
        i += 1;
    }
    assert(a@ =~= b@);
    true
}

/// An owned string with the characters of `s`.
pub fn owned(s: &str) -> (res: String)
    ensures
        res@ == s@,
{
    String::from_str(s)
}

/// `a` followed by `b`.
pub fn joined(a: &str, b: &str) -> (res: String)
    ensures
        res@ == a@ + b@,
{
    let mut res: String = String::from_str(a);
    res.append(b);
    res
}

/// A string of `n` times the character `c`.
pub fn repeated(c: char, n: usize) -> (res: String)
    ensures
        res@ == Seq::new(n as nat, |i: int| c),
{
    let mut res: String = String::new();
    let mut i: usize = 0;
    while i < n
        invariant
            i <= n,
            res@ =~= Seq::new(i as nat, |j: int| c),
        decreases n - i,
    {
        res.push(c);
        i += 1;
    }
    res
}

/// The string made of the given characters.
fn from_chars(v: &Vec<char>) -> (res: String)
    ensures
        res@ == v@,
{
    let mut res: String = String::new();
    let mut i: usize = 0;
    while i < v.len()
        invariant
            i <= v.len(),
            res@ =~= v@.take(i as int),
        decreases v.len() - i,
    {
        res.push(v[i]);
        i += 1;
    }
    assert(v@.take(v@.len() as int) =~= v@);
    res
}

/// Lexicographic order by code point.
pub open spec fn precedes_or_equals(a: Seq<char>, b: Seq<char>) -> bool
    decreases a.len(),
{
    if a.len() == 0 {
        true
    } else if b.len() == 0 {
        false
    } else if a.first() != b.first() {
        a.first() < b.first()
    } else {
        precedes_or_equals(a.drop_first(), b.drop_first())
    }
}

/// Whether `a` comes before `b`, or is equal to it, in the order of code points.
pub fn in_order(a: &str, b: &str) -> (res: bool)
    ensures
        res == precedes_or_equals(a@, b@),
{
    let left: Vec<char> = chars(a);
    let right: Vec<char> = chars(b);
    let mut i: usize = 0;
    assert(a@.skip(0) =~= a@);
    assert(b@.skip(0) =~= b@);
    while i < left.len() && i < right.len()
        invariant
            i <= left.len(),
            i <= right.len(),
            precedes_or_equals(a@, b@) == precedes_or_equals(a@.skip(i as int), b@.skip(i as int)),
            left@ == a@,
            right@ == b@,
        decreases left.len() - i,
    {
        if left[i] != right[i] {
            return left[i] < right[i];
        }
        assert(a@.skip(i as int).drop_first() =~= a@.skip(i + 1));
        assert(b@.skip(i as int).drop_first() =~= b@.skip(i + 1));
        i += 1;
    }
    i == left.len()
}

/// The order of code points is total.
pub proof fn lemma_order_total(a: Seq<char>, b: Seq<char>)
    ensures
        precedes_or_equals(a, b) || precedes_or_equals(b, a),
    decreases a.len(),
{
    if a.len() > 0 && b.len() > 0 && a.first() == b.first() {
        lemma_order_total(a.drop_first(), b.drop_first());
    }
}

/// The order of code points is transitive.
pub proof fn lemma_order_transitive(a: Seq<char>, b: Seq<char>, c: Seq<char>)
    requires
        precedes_or_equals(a, b),
        precedes_or_equals(b, c),
    ensures
        precedes_or_equals(a, c),
    decreases a.len(),
{
    if a.len() > 0 && b.len() > 0 && c.len() > 0 && a.first() == b.first() && b.first()
        == c.first() {
        lemma_order_transitive(a.drop_first(), b.drop_first(), c.drop_first());
    }
}

/// Two strings that come before each other are equal.
pub proof fn lemma_order_antisymmetric(a: Seq<char>, b: Seq<char>)
    requires
        precedes_or_equals(a, b),
        precedes_or_equals(b, a),
    ensures
        a == b,
    decreases a.len(),
{
    if a.len() > 0 && b.len() > 0 {
        lemma_order_antisymmetric(a.drop_first(), b.drop_first());
        assert(a =~= seq![a.first()] + a.drop_first());
        assert(b =~= seq![b.first()] + b.drop_first());
    } else {
        assert(a =~= b);
    }
}

/// The position of the first line feed, or the length where there is none.
pub open spec fn first_line_feed(s: Seq<char>) -> int {
    first_position(s, |c: char| c == '\n')
}

/// A line without the carriage return that belongs to its line ending.
pub open spec fn without_carriage_return(line: Seq<char>) -> Seq<char> {
    if line.len() > 0 && line.last() == '\r' {
        line.drop_last()
    } else {
        line
    }
}

/// The lines of a text. A line ends with a line feed, or with a carriage return
/// and a line feed; neither belongs to the line. The ending of the last line is
/// optional.
pub open spec fn lines_of(s: Seq<char>) -> Seq<Seq<char>>
    decreases s.len(),
{
    if s.len() == 0 {
        Seq::empty()
    } else {
        let n = first_line_feed(s);
        if n < 0 || n >= s.len() {
            seq![s]
        } else {
            seq![without_carriage_return(s.take(n))] + lines_of(s.skip(n + 1))
        }
    }
}

/// The lines of `text`.
pub fn split_lines(text: &str) -> (res: Vec<String>)
    ensures
        res.deep_view() == lines_of(text@),
{
    let all: Vec<char> = chars(text);
    let mut res: Vec<String> = Vec::new();
    let mut line: Vec<char> = Vec::new();
    let mut i: usize = 0;
    let ghost mut start: int = 0;
    assert(text@.skip(0) =~= text@);
    assert(res.deep_view() =~= Seq::<Seq<char>>::empty());
    assert(Seq::<Seq<char>>::empty() + lines_of(text@) =~= lines_of(text@));
    while i < all.len()
        invariant
            all@ == text@,
            0 <= start <= i <= all.len(),
            line@ =~= text@.subrange(start, i as int),
            forall|j: int| start <= j < i ==> text@[j] != '\n',
            lines_of(text@) == res.deep_view() + lines_of(text@.skip(start)),
        decreases all.len() - i,
    {
        let c: char = all[i];
        if c == '\n' {
            let ghost rest = text@.skip(start);
            let ghost before = res.deep_view();
            proof {
                lemma_first_position(rest, |c: char| c == '\n', i - start);
                assert(rest.take(i - start) =~= line@);
                assert(rest.skip(i - start + 1) =~= text@.skip(i + 1));
            }
            if line.len() > 0 && line[line.len() - 1] == '\r' {
                line.pop();
            }
            let finished: String = from_chars(&line);
            assert(finished@ =~= without_carriage_return(rest.take(i - start)));
            res.push(finished);
            assert(res.deep_view() =~= before.push(finished@));
            assert(before.push(finished@) + lines_of(text@.skip(i + 1)) =~= before + (seq![
                finished@,
            ] + lines_of(text@.skip(i + 1))));
            line.clear();
            proof {
                start = i + 1;
            }
        } else {
            line.push(c);
        }
        i += 1;
    }
    let ghost rest = text@.skip(start);
    if line.len() > 0 {
        let ghost before = res.deep_view();
        proof {
            lemma_first_position(rest, |c: char| c == '\n', rest.len() as int);
            assert(line@ =~= rest);
        }
        let finished: String = from_chars(&line);
        res.push(finished);
        assert(res.deep_view() =~= before + seq![finished@]);
    } else {
        assert(rest =~= Seq::<char>::empty());
        assert(res.deep_view() + Seq::<Seq<char>>::empty() =~= res.deep_view());
    }
    res
}

} // verus!
