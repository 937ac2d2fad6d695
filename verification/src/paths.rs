//! Paths as sequences of components.

use vstd::prelude::*;

use crate::selection::{first_position, lemma_first_position, lemma_first_position_is_first};

verus! {

/// Picks the separators.
pub open spec fn is_slash() -> spec_fn(char) -> bool {
    |c: char| c == '/'
}

/// What stands before, between and behind the slashes.
pub open spec fn segments(s: Seq<char>) -> Seq<Seq<char>>
    decreases s.len(),
{
    let n = first_position(s, is_slash());
    if 0 <= n < s.len() {
        seq![s.take(n)] + segments(s.skip(n + 1))
    } else {
        seq![s]
    }
}

/// Picks the segments that name something: neither nothing nor a lone dot.
pub open spec fn is_name() -> spec_fn(Seq<char>) -> bool {
    |part: Seq<char>| part.len() > 0 && part != seq!['.']
}

/// The segments that name something.
pub open spec fn names(s: Seq<char>) -> Seq<Seq<char>> {
    segments(s).filter(is_name())
}

/// What a path starts with: the root, or a lone dot.
pub open spec fn path_head(s: Seq<char>) -> Seq<Seq<char>> {
    if s.len() > 0 && s[0] == '/' {
        seq![seq!['/']]
    } else if segments(s)[0] == seq!['.'] {
        seq![seq!['.']]
    } else {
        Seq::empty()
    }
}

/// The components of a path. Repeated slashes, a slash at the end, and lone dots
/// behind the beginning do not count.
pub open spec fn path_parts(s: Seq<char>) -> Seq<Seq<char>> {
    path_head(s) + names(s)
}

/// The parts with a slash between each two.
pub open spec fn joined_by_slash(parts: Seq<Seq<char>>) -> Seq<char>
    decreases parts.len(),
{
    if parts.len() == 0 {
        Seq::empty()
    } else if parts.len() == 1 {
        parts[0]
    } else {
        parts[0] + seq!['/'] + joined_by_slash(parts.drop_first())
    }
}

/// The plainest spelling of a path with the given components.
pub open spec fn path_text(parts: Seq<Seq<char>>) -> Seq<char> {
    if parts.len() > 0 && parts[0] == seq!['/'] {
        seq!['/'] + joined_by_slash(parts.drop_first())
    } else {
        joined_by_slash(parts)
    }
}

/// Whether Unix and Windows read a path alike: it has no backslash, and starts neither
/// with a drive nor with a server. A colon makes a drive in the second place only.
pub open spec fn is_portable_path(s: Seq<char>) -> bool {
    &&& !s.contains('\\')
    &&& !(s.len() >= 2 && s[1] == ':')
    &&& !(s.len() >= 2 && s[0] == '/' && s[1] == '/')
}

/// Whether a path is spelled in the plainest way.
pub open spec fn is_plain_path(s: Seq<char>) -> bool {
    s == path_text(path_parts(s))
}

/// The components that lead from `base` to `path`. There are some, or none are
/// needed, where the components of `base` are the first ones of `path`.
pub open spec fn relative_parts(path: Seq<char>, base: Seq<char>) -> Option<Seq<Seq<char>>> {
    if path_parts(base).is_prefix_of(path_parts(path)) {
        Some(path_parts(path).skip(path_parts(base).len() as int))
    } else {
        None
    }
}

/// Whether `way` is a piece of `path`, as it is spelled there.
pub open spec fn is_piece_of(way: Seq<char>, path: Seq<char>) -> bool {
    exists|i: int, j: int|
        0 <= i <= j <= path.len() && way == #[trigger] path.subrange(i, j)
}

/// Whether `relative` leads from `base` to `path`, and there is no way where it is
/// nothing. The way is a piece of the path. To a path in its plainest spelling it is
/// spelled so too.
pub open spec fn leads_to(
    path: Seq<char>,
    base: Seq<char>,
    relative: Option<Seq<char>>,
) -> bool {
    match relative_parts(path, base) {
        Some(parts) => {
            &&& relative matches Some(way) && path_parts(way) == parts && is_piece_of(way, path)
            &&& is_plain_path(path) ==> relative == Some(path_text(parts))
        },
        None => relative is None,
    }
}

proof fn lemma_segments_of_joined(a: Seq<char>, b: Seq<char>)
    ensures
        segments(a + seq!['/'] + b) == segments(a) + segments(b),
    decreases a.len(),
{
    let s = a + seq!['/'] + b;
    let n = first_position(a, is_slash());
    lemma_first_position_is_first(a, is_slash());
    assert forall|j: int| 0 <= j < n implies !is_slash()(#[trigger] s[j]) by {
        assert(!is_slash()(a[j]));
    }
    if n < a.len() {
        assert(is_slash()(a[n]));
        assert(s[n] == a[n]);
        lemma_first_position(s, is_slash(), n);
        assert(s.take(n) =~= a.take(n));
        assert(s.skip(n + 1) =~= a.skip(n + 1) + seq!['/'] + b);
        lemma_segments_of_joined(a.skip(n + 1), b);
        assert(segments(a) + segments(b) =~= seq![a.take(n)] + (segments(a.skip(n + 1)) + segments(
            b,
        )));
    } else {
        assert(s[n] == '/');
        lemma_first_position(s, is_slash(), n);
        assert(s.take(n) =~= a);
        assert(s.skip(n + 1) =~= b);
    }
}

proof fn lemma_segments_nonempty(s: Seq<char>)
    ensures
        segments(s).len() > 0,
{
}

proof fn lemma_names_of_joined(a: Seq<char>, b: Seq<char>)
    ensures
        names(a + seq!['/'] + b) == names(a) + names(b),
{
    lemma_segments_of_joined(a, b);
    Seq::filter_distributes_over_add(segments(a), segments(b), is_name());
}

proof fn lemma_head_of_joined(a: Seq<char>, b: Seq<char>)
    requires
        a.len() > 0,
    ensures
        path_head(a + seq!['/'] + b) == path_head(a),
{
    let s = a + seq!['/'] + b;
    lemma_segments_of_joined(a, b);
    lemma_segments_nonempty(a);
    assert(s[0] == a[0]);
    assert(segments(s)[0] == segments(a)[0]);
}

/// A path that goes on behind another one has the components of both. What comes
/// behind may not start with a slash or with a lone dot.
pub proof fn lemma_parts_of_joined(a: Seq<char>, b: Seq<char>)
    requires
        a.len() > 0,
        path_head(b).len() == 0,
    ensures
        path_parts(a + seq!['/'] + b) == path_parts(a) + path_parts(b),
{
    lemma_names_of_joined(a, b);
    lemma_head_of_joined(a, b);
    assert(path_head(a) + (names(a) + names(b)) =~= path_parts(a) + path_parts(b));
}

/// A path without components is empty.
pub proof fn lemma_no_parts(s: Seq<char>)
    requires
        path_parts(s).len() == 0,
    ensures
        s.len() == 0,
{
    if s.len() > 0 {
        let first = segments(s)[0];
        lemma_first_position_is_first(s, is_slash());
        assert(s[0] != '/');
        assert(!is_slash()(s[0]));
        let n = first_position(s, is_slash());
        if n < s.len() {
            assert(first == s.take(n));
        }
        assert(first.len() > 0);
        assert(is_name()(first));
        segments(s).lemma_filter_contains(is_name(), 0);
    }
}

proof fn lemma_names_of_one(part: Seq<char>)
    requires
        !part.contains('/'),
        !is_name()(part),
    ensures
        names(part) == Seq::<Seq<char>>::empty(),
{
    let none = Seq::<Seq<char>>::empty();
    assert forall|j: int| 0 <= j < part.len() implies !is_slash()(#[trigger] part[j]) by {
        assert(part.contains(part[j]));
    }
    lemma_first_position(part, is_slash(), part.len() as int);
    assert(none.filter(is_name()) =~= none) by {
        reveal(Seq::filter);
    }
    none.lemma_filter_push(part, is_name());
    assert(none.push(part) =~= seq![part]);
}

/// A segment without a name in front does not count among the names.
proof fn lemma_names_behind(part: Seq<char>, b: Seq<char>)
    requires
        !part.contains('/'),
        !is_name()(part),
    ensures
        names(part + seq!['/'] + b) == names(b),
{
    lemma_names_of_one(part);
    lemma_names_of_joined(part, b);
    assert(Seq::<Seq<char>>::empty() + names(b) =~= names(b));
}

proof fn lemma_same_names_same_parts(a: Seq<char>, b: Seq<char>, c: Seq<char>)
    requires
        a.len() > 0,
        names(b) == names(c),
    ensures
        path_parts(a + seq!['/'] + b) == path_parts(a + seq!['/'] + c),
{
    lemma_names_of_joined(a, b);
    lemma_names_of_joined(a, c);
    lemma_head_of_joined(a, b);
    lemma_head_of_joined(a, c);
}

/// How a path is spelled does not matter: a slash at its end, a slash that is
/// repeated and a lone dot between two slashes leave its components as they are.
pub proof fn law_spelling_does_not_change_a_path(a: Seq<char>, b: Seq<char>)
    requires
        a.len() > 0,
    ensures
        path_parts(a + seq!['/']) == path_parts(a),
        path_parts(a + seq!['/'] + (seq!['/'] + b)) == path_parts(a + seq!['/'] + b),
        path_parts(a + seq!['/'] + (seq!['.', '/'] + b)) == path_parts(a + seq!['/'] + b),
{
    let empty = Seq::<char>::empty();
    let dot = seq!['.'];
    lemma_names_of_one(empty);
    lemma_names_of_joined(a, empty);
    lemma_head_of_joined(a, empty);
    assert(a + seq!['/'] + empty =~= a + seq!['/']);
    assert(names(a) + Seq::<Seq<char>>::empty() =~= names(a));

    lemma_names_behind(empty, b);
    assert(empty + seq!['/'] + b =~= seq!['/'] + b);
    lemma_same_names_same_parts(a, seq!['/'] + b, b);

    lemma_names_behind(dot, b);
    assert(dot + seq!['/'] + b =~= seq!['.', '/'] + b);
    lemma_same_names_same_parts(a, seq!['.', '/'] + b, b);
}

} // verus!
