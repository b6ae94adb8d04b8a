//! Unix paths: byte strings whose components are separated by slashes.

use vstd::prelude::*;
use vstd::slice::{slice_subrange, slice_to_vec};

verus! {

/// The byte `/`.
pub const SLASH: u8 = 0x2f;

/// The byte `.`.
pub const DOT: u8 = 0x2e;

/// `path` without the slashes and the `/.` that it ends with; a leading slash
/// stays.
pub open spec fn stripped(path: Seq<u8>) -> Seq<u8>
    decreases path.len(),
{
    if path.len() > 1 && (path.last() == SLASH || (path.last() == DOT && path[path.len() - 2]
        == SLASH)) {
        stripped(path.drop_last())
    } else {
        path
    }
}

/// Where the last component of `path` starts: after its last slash.
pub open spec fn last_start(path: Seq<u8>) -> nat
    decreases path.len(),
{
    if path.len() == 0 || path.last() == SLASH {
        path.len()
    } else {
        last_start(path.drop_last())
    }
}

/// `path` without its last component; the root and the empty path have none.
pub open spec fn parent_of(path: Seq<u8>) -> Option<Seq<u8>> {
    let core = stripped(path);
    if core.len() == 0 || core == seq![SLASH] {
        None
    } else {
        Some(stripped(core.take(last_start(core) as int)))
    }
}

/// `rest` as seen from `base`: an absolute path stands for itself, any other is
/// appended, with a slash in between where one is missing.
pub open spec fn join_of(base: Seq<u8>, rest: Seq<u8>) -> Seq<u8> {
    if rest.len() > 0 && rest[0] == SLASH {
        rest
    } else if base.len() == 0 || base.last() == SLASH {
        base + rest
    } else {
        base.push(SLASH) + rest
    }
}

/// A single component that names something: neither empty nor the dot that
/// stands for the directory itself.
pub open spec fn is_name(name: Seq<u8>) -> bool {
    &&& name.len() > 0
    &&& name != seq![DOT]
    &&& forall|i: int| 0 <= i < name.len() ==> #[trigger] name[i] != SLASH
}

/// How long [`stripped`] leaves `path`.
fn stripped_len(path: &[u8]) -> (len: usize)
    ensures
        len <= path@.len(),
        path@.take(len as int) == stripped(path@),
{
    let mut len: usize = path.len();
    assert(path@.take(len as int) == path@);
    while len > 1 && (path[len - 1] == SLASH || (path[len - 1] == DOT && path[len - 2] == SLASH))
        invariant
            len <= path@.len(),
            stripped(path@.take(len as int)) == stripped(path@),
        decreases len,
    {
        assert(path@.take(len as int).drop_last() == path@.take(len - 1));
        len = len - 1;
    }
    len
}

/// The directory that a path lies in.
pub fn parent(path: &[u8]) -> (dir: Option<Vec<u8>>)
    ensures
        dir is Some <==> parent_of(path@) is Some,
        dir matches Some(d) ==> parent_of(path@) == Some(d@),
{
    let len: usize = stripped_len(path);
    let ghost core = stripped(path@);
    if len == 0 || (len == 1 && path[0] == SLASH) {
        assert(len == 1 ==> core == seq![SLASH]);
        return None;
    }
    assert(core[0] == path@[0]);
    let mut start: usize = len;
    while start > 0 && path[start - 1] != SLASH
        invariant
            start <= len <= path@.len(),
            last_start(path@.take(start as int)) == last_start(path@.take(len as int)),
        decreases start,
    {
        assert(path@.take(start as int).drop_last() == path@.take(start - 1));
        start = start - 1;
    }
    assert(last_start(path@.take(start as int)) == start);
    assert(core.take(start as int) == path@.take(start as int));
    let front = slice_subrange(path, 0, start);
    assert(front@ == core.take(start as int));
    let dir_len: usize = stripped_len(front);
    let dir = slice_subrange(front, 0, dir_len);
    assert(dir@ == front@.take(dir_len as int));
    Some(slice_to_vec(dir))
}

/// Appends the bytes of `tail` to `path`.
fn extend(path: &mut Vec<u8>, tail: &[u8])
    ensures
        final(path)@ == old(path)@ + tail@,
{
    let mut i: usize = 0;
    assert(tail@.take(0) == Seq::<u8>::empty());
    while i < tail.len()
        invariant
            i <= tail@.len(),
            path@ == old(path)@ + tail@.take(i as int),
        decreases tail.len() - i,
    {
        path.push(tail[i]);
        assert(tail@.take(i + 1) == tail@.take(i as int).push(tail@[i as int]));
        i = i + 1;
    }
    assert(tail@.take(i as int) == tail@);
}

/// The path `rest` as seen from the directory `base`.
pub fn join(base: &[u8], rest: &[u8]) -> (path: Vec<u8>)
    ensures
        path@ == join_of(base@, rest@),
{
    if rest.len() > 0 && rest[0] == SLASH {
        return slice_to_vec(rest);
    }
    let mut path: Vec<u8> = slice_to_vec(base);
    if base.len() > 0 && base[base.len() - 1] != SLASH {
        path.push(SLASH);
    }
    extend(&mut path, rest);
    path
}

/// Stripping twice strips no more than stripping once.
pub proof fn law_stripped_is_stable(path: Seq<u8>)
    ensures
        stripped(stripped(path)) == stripped(path),
    decreases path.len(),
{
    if path.len() > 1 && stripped(path) != path {
        law_stripped_is_stable(path.drop_last());
    }
}

/// The last component starts after `front` if nothing behind it is a slash.
proof fn lemma_last_start(front: Seq<u8>, name: Seq<u8>)
    requires
        front.len() == 0 || front.last() == SLASH,
        forall|i: int| 0 <= i < name.len() ==> #[trigger] name[i] != SLASH,
    ensures
        last_start(front + name) == front.len(),
    decreases name.len(),
{
    if name.len() == 0 {
        assert(front + name == front);
    } else {
        assert((front + name).drop_last() == front + name.drop_last());
        assert((front + name).last() == name.last());
        lemma_last_start(front, name.drop_last());
    }
}

/// A name lies in the directory it was joined to.
pub proof fn law_parent_of_join(base: Seq<u8>, name: Seq<u8>)
    requires
        name.len() > 0,
        name != seq![0x2eu8],
        forall|i: int| 0 <= i < name.len() ==> #[trigger] name[i] != 0x2f,
    ensures
        parent_of(join_of(base, name)) == Some(stripped(base)),
{
    let front = if base.len() == 0 || base.last() == SLASH {
        base
    } else {
        base.push(SLASH)
    };
    let path = join_of(base, name);
    assert(name[0] != SLASH);
    assert(path == front + name);
    assert(path.last() == name.last());
    assert(name.last() == name[name.len() - 1]);
    assert(stripped(path) == path) by {
        if name.last() == DOT {
            if name.len() == 1 {
                assert(name == seq![DOT]);
            } else {
                assert(path[path.len() - 2] == name[name.len() - 2]);
            }
        }
    }
    assert(path != seq![SLASH]) by {
        assert(path.last() != SLASH);
        assert(seq![SLASH].last() == SLASH);
    }
    lemma_last_start(front, name);
    assert(path.take(front.len() as int) == front);
    if front != base {
        assert(front.drop_last() == base);
    }
}

/// Names that differ give paths that differ.
pub proof fn law_join_keeps_names_apart(base: Seq<u8>, a: Seq<u8>, b: Seq<u8>)
    requires
        is_name(a),
        is_name(b),
        join_of(base, a) == join_of(base, b),
    ensures
        a == b,
{
    let front = if base.len() == 0 || base.last() == SLASH {
        base
    } else {
        base.push(SLASH)
    };
    assert(a[0] != SLASH && b[0] != SLASH);
    assert(a == join_of(base, a).skip(front.len() as int));
    assert(b == join_of(base, b).skip(front.len() as int));
}

/// Stripping cuts off nothing but slashes and dots behind a slash, at the end, and goes
/// on as long as there is one of these, but never to nothing.
pub proof fn law_stripping_cuts_the_end(path: Seq<u8>)
    ensures
        ({
            let rest = stripped(path);
            &&& rest.is_prefix_of(path)
            &&& path.len() > 0 ==> rest.len() > 0
            &&& forall|i: int|
                rest.len() <= i < path.len() ==> #[trigger] path[i] == 0x2f || (path[i] == 0x2e
                    && path[i - 1] == 0x2f)
            &&& rest.len() > 1 ==> rest.last() != 0x2f && !(rest.last() == 0x2e
                && rest[rest.len() - 2] == 0x2f)
        }),
    decreases path.len(),
{
    if path.len() > 1 && (path.last() == SLASH || (path.last() == DOT && path[path.len() - 2]
        == SLASH)) {
        let shorter = path.drop_last();
        law_stripping_cuts_the_end(shorter);
        assert(stripped(path) == stripped(shorter));
        let rest = stripped(path);
        assert forall|i: int| rest.len() <= i < path.len() implies #[trigger] path[i] == 0x2f || (
        path[i] == 0x2e && path[i - 1] == 0x2f) by {
            if i < shorter.len() {
                assert(shorter[i] == path[i]);
                assert(shorter[i - 1] == path[i - 1]);
            }
        }
    }
}

/// The directory of a path is what stands before its last component, stripped; the
/// root and the empty path lie in none.
pub proof fn law_parent_stands_before_the_name(path: Seq<u8>, front: Seq<u8>, name: Seq<u8>)
    requires
        stripped(path) == front + name,
        front.len() == 0 || front.last() == 0x2f,
        forall|i: int| 0 <= i < name.len() ==> #[trigger] name[i] != 0x2f,
    ensures
        stripped(path).len() == 0 || stripped(path) == seq![0x2fu8] ==> parent_of(path) is None,
        stripped(path).len() > 0 && stripped(path) != seq![0x2fu8] ==> parent_of(path) == Some(
            stripped(front),
        ),
{
    lemma_last_start(front, name);
    assert((front + name).take(front.len() as int) == front);
}

/// An absolute path stands for itself wherever it is seen from; any other is found
/// behind the directory, and a slash stands between the two exactly where the directory
/// is named and ends with none.
pub proof fn law_joining_puts_behind(base: Seq<u8>, rest: Seq<u8>)
    ensures
        rest.len() > 0 && rest[0] == 0x2f ==> join_of(base, rest) == rest,
        !(rest.len() > 0 && rest[0] == 0x2f) && base.len() > 0 && base.last() != 0x2f ==> join_of(
            base,
            rest,
        ) == base + seq![0x2fu8] + rest,
        !(rest.len() > 0 && rest[0] == 0x2f) && (base.len() == 0 || base.last() == 0x2f)
            ==> join_of(base, rest) == base + rest,
{
}

} // verus!
