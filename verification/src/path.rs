//! Paths are compared as std compares them, by their components.
use vstd::prelude::*;
use vstd::string::*;

verus! {

/// The pieces of a text between its slashes; a text without one is a single piece.
pub open spec fn pieces(text: Seq<char>) -> Seq<Seq<char>>
    decreases text.len(),
{
    if text.len() == 0 {
        seq![Seq::empty()]
    } else {
        let front = pieces(text.drop_last());
        if text.last() == '/' {
            front.push(Seq::empty())
        } else {
            front.drop_last().push(front.last().push(text.last()))
        }
    }
}

/// Whether the piece names something: an empty one does not, and a dot only where the path
/// begins with it.
pub open spec fn counts(piece: Seq<char>, first: bool) -> bool {
    piece.len() > 0 && (first || piece != "."@)
}

/// The pieces that count, in order.
pub open spec fn counted(pieces: Seq<Seq<char>>) -> Seq<Seq<char>>
    decreases pieces.len(),
{
    if pieces.len() == 0 {
        Seq::empty()
    } else {
        let front = counted(pieces.drop_last());
        if counts(pieces.last(), pieces.len() == 1) {
            front.push(pieces.last())
        } else {
            front
        }
    }
}

/// Whether the path starts at the root.
pub open spec fn is_rooted(path: Seq<char>) -> bool {
    path.len() > 0 && path[0] == '/'
}

/// Whether two paths are the same where the slash alone separates: both start at the root or
/// neither does, and their components are the same. Repeated and trailing slashes make no
/// difference, nor do dots after the first piece.
pub open spec fn is_same_path(left: Seq<char>, right: Seq<char>) -> bool {
    is_rooted(left) == is_rooted(right) && counted(pieces(left)) == counted(pieces(right))
}

/// Whether the path means the same on every system: only slashes separate in it, and it
/// starts with no drive and no share.
pub open spec fn is_plain_path(path: Seq<char>) -> bool {
    &&& forall|i: int| 0 <= i < path.len() ==> #[trigger] path[i] != '\\' && path[i] != ':'
    &&& !(path.len() > 1 && path[0] == '/' && path[1] == '/')
}

/// What std's comparison of two paths can say.
pub open spec fn path_verdict(left: Seq<char>, right: Seq<char>, same: bool) -> bool {
    &&& left == right ==> same
    &&& is_plain_path(left) && is_plain_path(right) ==> same == is_same_path(left, right)
}

/// `==` of std's `Path` compares components. How a text splits into components depends on the
/// system; the claim is that a path equals itself, and, for paths that split the same way
/// everywhere, that they are equal exactly where their components are. Of other paths, such as
/// those with a backslash or a drive, nothing more is said.
#[verifier::external_body]
pub(crate) fn same_path(left: &str, right: &str) -> (same: bool)
    ensures
        path_verdict(left@, right@, same),
{
    std::path::Path::new(left) == std::path::Path::new(right)
}

proof fn there_is_a_piece(text: Seq<char>)
    ensures
        pieces(text).len() > 0,
    decreases text.len(),
{
    if text.len() > 0 {
        there_is_a_piece(text.drop_last());
    }
}

/// A path that is not empty is the same with a slash at its end.
pub proof fn a_trailing_slash_makes_no_difference(path: Seq<char>)
    requires
        path.len() > 0,
    ensures
        is_same_path(path.push('/'), path),
{
    let longer = path.push('/');
    there_is_a_piece(path);
    assert(longer.drop_last() =~= path);
    assert(pieces(longer) == pieces(path).push(Seq::empty()));
    assert(pieces(longer).drop_last() =~= pieces(path));
    assert(counted(pieces(longer)) == counted(pieces(path)));
    assert(longer[0] == path[0]);
}

} // verus!
