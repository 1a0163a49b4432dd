//! Paths, and when two of them name the same thing.
//!
//! A path is compared by its parts rather than by how it is written: a slash
//! said twice, one at the end, and a part that stays where it is change
//! nothing.

use vstd::prelude::*;

use crate::text::{chars_of, part_of, place_of};

verus! {

/// A part of a path that leads somewhere, or nothing.
pub open spec fn kept(part: Seq<char>) -> Seq<Seq<char>> {
    if part.len() == 0 || part == seq!['.'] {
        Seq::empty()
    } else {
        seq![part]
    }
}

/// The parts of a path that lead somewhere, in their order.
pub open spec fn names(path: Seq<char>) -> Seq<Seq<char>>
    decreases path.len(),
{
    proof {
        path.index_of_first_ensures('/');
    }
    match path.index_of_first('/') {
        Some(at) => kept(path.take(at)) + names(path.skip(at + 1)),
        None => kept(path),
    }
}

/// Whether a path begins at the root.
pub open spec fn is_rooted(path: Seq<char>) -> bool {
    path.len() > 0 && path[0] == '/'
}

/// Whether a path says that it begins here.
pub open spec fn is_dotted(path: Seq<char>) -> bool {
    path.len() > 0 && path[0] == '.' && (path.len() == 1 || path[1] == '/')
}

/// Whether two paths are the same.
pub open spec fn are_same(a: Seq<char>, b: Seq<char>) -> bool {
    &&& is_rooted(a) == is_rooted(b)
    &&& is_dotted(a) == is_dotted(b)
    &&& names(a) == names(b)
}

spec fn parts_view(parts: Seq<Vec<char>>) -> Seq<Seq<char>> {
    Seq::new(parts.len(), |i: int| parts[i]@)
}

fn keep(parts: &mut Vec<Vec<char>>, part: Vec<char>)
    ensures
        parts_view(final(parts)@) == parts_view(old(parts)@) + kept(part@),
{
    if part.len() == 0 || (part.len() == 1 && part[0] == '.') {
        assert(part.len() == 1 ==> part@ =~= seq!['.']);
        assert(parts_view(parts@) =~= parts_view(parts@) + kept(part@));
    } else {
        assert(part@ != seq!['.']) by {
            assert(seq!['.'].len() == 1 && seq!['.'][0] == '.');
        }
        parts.push(part);
        assert(parts_view(parts@) =~= parts_view(old(parts)@) + kept(part@));
    }
}

fn names_of(path: &Vec<char>) -> (parts: Vec<Vec<char>>)
    ensures
        parts_view(parts@) == names(path@),
{
    let mut parts: Vec<Vec<char>> = Vec::new();
    let mut from: usize = 0;
    assert(path@.skip(0) =~= path@);
    assert(parts_view(parts@) + names(path@) =~= names(path@));
    loop
        invariant
            from <= path.len(),
            parts_view(parts@) + names(path@.skip(from as int)) == names(path@),
        decreases path.len() - from,
    {
        let ghost rest = path@.skip(from as int);
        match place_of(path, from, '/') {
            Some(at) => {
                let ghost before = parts_view(parts@);
                keep(&mut parts, part_of(path, from, at));
                proof {
                    assert(path@.subrange(from as int, at as int) =~= rest.take(at - from));
                    assert(path@.skip(at + 1) =~= rest.skip(at - from + 1));
                    assert(names(rest) == kept(rest.take(at - from)) + names(path@.skip(at + 1)));
                    assert(before + names(rest) =~= parts_view(parts@) + names(path@.skip(at + 1)));
                }
                from = at + 1;
            },
            None => {
                keep(&mut parts, part_of(path, from, path.len()));
                assert(path@.subrange(from as int, path.len() as int) =~= rest);
                return parts;
            },
        }
    }
}

fn same_part(a: &Vec<char>, b: &Vec<char>) -> (equal: bool)
    ensures
        equal == (a@ == b@),
{
    if a.len() != b.len() {
        return false;
    }
    let mut i: usize = 0;
    while i < a.len()
        invariant
            i <= a.len(),
            a.len() == b.len(),
            forall|j: int| 0 <= j < i ==> a@[j] == b@[j],
        decreases a.len() - i,
    {
        if a[i] != b[i] {
            return false;
        }
        i = i + 1;
    }
    assert(a@ =~= b@);
    true
}

fn same_parts(a: &Vec<Vec<char>>, b: &Vec<Vec<char>>) -> (equal: bool)
    ensures
        equal == (parts_view(a@) == parts_view(b@)),
{
    if a.len() != b.len() {
        assert(parts_view(a@).len() != parts_view(b@).len());
        return false;
    }
    let mut i: usize = 0;
    while i < a.len()
        invariant
            i <= a.len(),
            a.len() == b.len(),
            forall|j: int| 0 <= j < i ==> (#[trigger] a@[j])@ == b@[j]@,
        decreases a.len() - i,
    {
        if !same_part(&a[i], &b[i]) {
            assert(parts_view(a@)[i as int] != parts_view(b@)[i as int]);
            return false;
        }
        i = i + 1;
    }
    assert(parts_view(a@) =~= parts_view(b@));
    true
}

/// Whether two paths are the same.
pub fn same_path(a: &str, b: &str) -> (same: bool)
    ensures
        same == are_same(a@, b@),
{
    let (a, b) = (chars_of(a), chars_of(b));
    let rooted = (a.len() > 0 && a[0] == '/') == (b.len() > 0 && b[0] == '/');
    let dotted = (a.len() > 0 && a[0] == '.' && (a.len() == 1 || a[1] == '/')) == (b.len() > 0
        && b[0] == '.' && (b.len() == 1 || b[1] == '/'));
    rooted && dotted && same_parts(&names_of(&a), &names_of(&b))
}

/// A slash joins the parts before it and the parts behind it.
pub proof fn lemma_a_slash_joins(path: Seq<char>, more: Seq<char>)
    ensures
        names(path + seq!['/'] + more) == names(path) + names(more),
    decreases path.len(),
{
    let whole = path + seq!['/'] + more;
    whole.index_of_first_ensures('/');
    path.index_of_first_ensures('/');
    assert(whole[path.len() as int] == '/');
    let at = whole.index_of_first('/')->0;
    match path.index_of_first('/') {
        Some(first) => {
            assert(whole[first] == '/');
            assert(path[at] == '/');
            assert(at == first);
            assert(whole.take(at) =~= path.take(at));
            assert(whole.skip(at + 1) =~= path.skip(at + 1) + seq!['/'] + more);
            lemma_a_slash_joins(path.skip(at + 1), more);
            assert(names(whole) =~= names(path) + names(more));
        },
        None => {
            if at < path.len() {
                assert(path[at] == '/');
            }
            assert(whole.take(at) =~= path);
            assert(whole.skip(at + 1) =~= more);
        },
    }
}

/// A slash at the end of a path, or one said twice, changes nothing.
pub proof fn lemma_slashes_are_said_once(path: Seq<char>, more: Seq<char>)
    requires
        path.len() > 0,
    ensures
        are_same(path + seq!['/'], path),
        are_same(path + seq!['/', '/'] + more, path + seq!['/'] + more),
{
    let none = Seq::<char>::empty();
    none.index_of_first_ensures('/');
    assert(names(none) =~= Seq::empty());
    lemma_a_slash_joins(path, none);
    assert(path + seq!['/'] + none =~= path + seq!['/']);
    assert(names(path) + names(none) =~= names(path));
    let rest = seq!['/'] + more;
    lemma_a_slash_joins(none, more);
    assert(none + seq!['/'] + more =~= rest);
    assert(names(none) + names(more) =~= names(more));
    lemma_a_slash_joins(path, rest);
    lemma_a_slash_joins(path, more);
    assert(path + seq!['/'] + rest =~= path + seq!['/', '/'] + more);
}

/// A part that leads somewhere is a name, and one that is empty or stays where
/// it is is none.
pub proof fn lemma_a_part_is_a_name(part: Seq<char>)
    requires
        !part.contains('/'),
    ensures
        part.len() > 0 && part != seq!['.'] ==> names(part) == seq![part],
        part.len() == 0 || part == seq!['.'] ==> names(part).len() == 0,
{
    part.index_of_first_ensures('/');
}

/// A part that stays where it is changes nothing behind another.
pub proof fn lemma_a_dot_stays_where_it_is(path: Seq<char>, more: Seq<char>)
    requires
        path.len() > 0,
    ensures
        are_same(path + seq!['/', '.', '/'] + more, path + seq!['/'] + more),
        are_same(path + seq!['/', '.'], path),
{
    let dot = seq!['.'];
    assert(!dot.contains('/'));
    lemma_a_part_is_a_name(dot);
    assert(names(dot) =~= Seq::empty());
    let rest = dot + seq!['/'] + more;
    lemma_a_slash_joins(dot, more);
    lemma_a_slash_joins(path, rest);
    lemma_a_slash_joins(path, more);
    lemma_a_slash_joins(path, dot);
    assert(path + seq!['/'] + rest =~= path + seq!['/', '.', '/'] + more);
    assert(path + seq!['/'] + dot =~= path + seq!['/', '.']);
    assert(names(dot) + names(more) =~= names(more));
    assert(names(path) + names(dot) =~= names(path));
}

/// Paths that are the same begin alike, at the root or not and by saying that
/// they begin here or not; being the same carries over; and two names that
/// differ make paths that do.
pub proof fn lemma_when_paths_are_the_same(
    a: Seq<char>,
    b: Seq<char>,
    c: Seq<char>,
    path: Seq<char>,
    one: Seq<char>,
    other: Seq<char>,
)
    ensures
        are_same(a, a),
        are_same(a, b) ==> are_same(b, a),
        are_same(a, b) && are_same(b, c) ==> are_same(a, c),
        are_same(a, b) && a.len() > 0 && b.len() > 0 ==> (a[0] == '/' <==> b[0] == '/'),
        are_same(a, b) ==> (a == seq!['.'] || (a.len() > 1 && a[0] == '.' && a[1] == '/') <==> b
            == seq!['.'] || (b.len() > 1 && b[0] == '.' && b[1] == '/')),
        one != other && one.len() > 0 && other.len() > 0 && one != seq!['.'] && other != seq!['.']
            && !one.contains('/') && !other.contains('/') ==> !are_same(
            path + seq!['/'] + one,
            path + seq!['/'] + other,
        ),
{
    assert(a.len() == 1 && a[0] == '.' ==> a =~= seq!['.']);
    assert(b.len() == 1 && b[0] == '.' ==> b =~= seq!['.']);
    if one != other && one.len() > 0 && other.len() > 0 && one != seq!['.'] && other != seq!['.']
        && !one.contains('/') && !other.contains('/') {
        lemma_a_part_is_a_name(one);
        lemma_a_part_is_a_name(other);
        lemma_a_slash_joins(path, one);
        lemma_a_slash_joins(path, other);
        assert((names(path) + seq![one]).last() == one);
        assert((names(path) + seq![other]).last() == other);
    }
}

} // verus!
