//! Small operations on text that the rest of the crate shares.

use vstd::prelude::*;

verus! {

/// Whether two string slices hold the same characters.
pub fn same_text(a: &str, b: &str) -> (r: bool)
    ensures
        r == (a@ == b@),
{
    let x = String::from_str(a);
    let y = String::from_str(b);
    x == y
}

/// The index of the first of `keys` that equals `key`, or the number of
/// keys where none does.
pub open spec fn first_index(keys: Seq<Seq<char>>, key: Seq<char>) -> int
    decreases keys.len(),
{
    if keys.len() == 0 {
        0
    } else if keys[0] == key {
        0
    } else {
        1 + first_index(keys.subrange(1, keys.len() as int), key)
    }
}

/// `first_index` is a position in `keys` or one past its end; the key
/// stands at that position and nowhere before it.
pub proof fn first_index_is_first(keys: Seq<Seq<char>>, key: Seq<char>)
    ensures
        0 <= first_index(keys, key) <= keys.len(),
        first_index(keys, key) < keys.len() ==> keys[first_index(keys, key)] == key,
        forall|j: int| 0 <= j < first_index(keys, key) ==> keys[j] != key,
    decreases keys.len(),
{
    if keys.len() > 0 && keys[0] != key {
        let rest = keys.subrange(1, keys.len() as int);
        first_index_is_first(rest, key);
        assert forall|j: int| 0 <= j < first_index(keys, key) implies keys[j] != key by {
            if j > 0 {
                assert(rest[j - 1] == keys[j]);
            }
        }
    }
}

/// One step of a search from the left: `first_index` from position `i`
/// on is 0 where the key stands at `i`, and one more than from `i + 1`
/// on where it does not.
pub proof fn first_index_step(keys: Seq<Seq<char>>, key: Seq<char>, i: int)
    requires
        0 <= i < keys.len(),
    ensures
        keys[i] == key ==> first_index(keys.subrange(i, keys.len() as int), key) == 0,
        keys[i] != key ==> first_index(keys.subrange(i, keys.len() as int), key) == 1
            + first_index(keys.subrange(i + 1, keys.len() as int), key),
{
    let rest = keys.subrange(i, keys.len() as int);
    assert(rest[0] == keys[i]);
    assert(rest.subrange(1, rest.len() as int) =~= keys.subrange(i + 1, keys.len() as int));
}

/// The texts of `parts` in order, with `glue` between each two of them.
pub open spec fn glued(parts: Seq<Seq<char>>, glue: Seq<char>) -> Seq<char>
    decreases parts.len(),
{
    if parts.len() == 0 {
        Seq::<char>::empty()
    } else if parts.len() == 1 {
        parts[0]
    } else {
        glued(parts.drop_last(), glue) + glue + parts.last()
    }
}

/// Whether `s` ends with `tail`.
pub open spec fn ends_with(s: Seq<char>, tail: Seq<char>) -> bool {
    tail.len() <= s.len() && s.subrange(s.len() - tail.len(), s.len() as int) == tail
}

/// A text glued from parts ends with the last part.
pub proof fn glued_ends_with_last(parts: Seq<Seq<char>>, glue: Seq<char>)
    requires
        parts.len() > 0,
    ensures
        ends_with(glued(parts, glue), parts.last()),
{
    let whole = glued(parts, glue);
    let tail = parts.last();
    if parts.len() == 1 {
        assert(whole.subrange(0, whole.len() as int) =~= whole);
    } else {
        let head = glued(parts.drop_last(), glue) + glue;
        assert(whole == head + tail);
        assert(whole.subrange(whole.len() - tail.len(), whole.len() as int) =~= tail);
    }
}

/// The views of the strings of `v`, in order.
pub open spec fn texts(v: Seq<String>) -> Seq<Seq<char>> {
    Seq::new(v.len(), |i: int| v[i]@)
}

/// Joins the strings of `parts` with `glue` between each two of them.
pub fn join_all(parts: &Vec<String>, glue: &str) -> (r: String)
    ensures
        r@ == glued(texts(parts@), glue@),
{
    let mut out = String::new();
    let mut i: usize = 0;
    while i < parts.len()
        invariant
            i <= parts.len(),
            out@ == glued(texts(parts@).subrange(0, i as int), glue@),
        decreases parts.len() - i,
    {
        proof {
            let next = texts(parts@).subrange(0, i + 1);
            assert(next.drop_last() =~= texts(parts@).subrange(0, i as int));
            assert(next.last() == parts@[i as int]@);
            if i == 0 {
                assert(out@ =~= Seq::<char>::empty());
                assert(out@ + parts@[0]@ =~= parts@[0]@);
            }
        }
        if i > 0 {
            out.append(glue);
        }
        out.append(parts[i].as_str());
        i = i + 1;
    }
    assert(texts(parts@).subrange(0, i as int) =~= texts(parts@));
    out
}

} // verus!
