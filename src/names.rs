//! Lookup by name over a sequence of names, and the uniqueness of names.

use vstd::prelude::*;

verus! {

/// The first index at or after `k` whose name is `name`, if any.
pub open spec fn index_from(names: Seq<Seq<char>>, name: Seq<char>, k: int) -> Option<int>
    decreases names.len() - k,
{
    if 0 <= k < names.len() {
        if names[k] == name {
            Some(k)
        } else {
            index_from(names, name, k + 1)
        }
    } else {
        None
    }
}

/// The first index whose name is `name`, if any.
pub open spec fn first_index(names: Seq<Seq<char>>, name: Seq<char>) -> Option<int> {
    index_from(names, name, 0)
}

/// Whether some entry is named `name`.
pub open spec fn has_name(names: Seq<Seq<char>>, name: Seq<char>) -> bool {
    first_index(names, name) is Some
}

/// No two entries share a name.
pub open spec fn unique(names: Seq<Seq<char>>) -> bool {
    forall|i: int, j: int| 0 <= i < j < names.len() ==> names[i] != names[j]
}

/// `s` without its entry `i`, whose place the last entry takes.
pub open spec fn swap_removed<T>(s: Seq<T>, i: int) -> Seq<T> {
    s.update(i, s.last()).drop_last()
}

proof fn lemma_index_from(names: Seq<Seq<char>>, name: Seq<char>, k: int)
    requires
        0 <= k <= names.len(),
    ensures
        match index_from(names, name, k) {
            Some(i) => k <= i < names.len() && names[i] == name && forall|j: int|
                k <= j < i ==> names[j] != name,
            None => forall|j: int| k <= j < names.len() ==> names[j] != name,
        },
    decreases names.len() - k,
{
    if k < names.len() && names[k] != name {
        lemma_index_from(names, name, k + 1);
    }
}

/// What `first_index` finds: the least index named `name`, or none when no
/// entry bears that name.
pub proof fn lemma_first_index(names: Seq<Seq<char>>, name: Seq<char>)
    ensures
        match first_index(names, name) {
            Some(i) => 0 <= i < names.len() && names[i] == name && forall|j: int|
                0 <= j < i ==> names[j] != name,
            None => forall|j: int| 0 <= j < names.len() ==> names[j] != name,
        },
{
    lemma_index_from(names, name, 0);
}

/// Appending a name that is not there yet keeps names unique.
pub proof fn lemma_unique_push(names: Seq<Seq<char>>, name: Seq<char>)
    requires
        unique(names),
        !has_name(names, name),
    ensures
        unique(names.push(name)),
        has_name(names.push(name), name),
{
    lemma_first_index(names, name);
    lemma_first_index(names.push(name), name);
    assert(names.push(name)[names.len() as int] == name);
}

/// Swap-removing an entry of unique names keeps them unique and leaves
/// no entry with the removed name.
pub proof fn lemma_unique_swap_removed(names: Seq<Seq<char>>, i: int)
    requires
        unique(names),
        0 <= i < names.len(),
    ensures
        unique(swap_removed(names, i)),
        !has_name(swap_removed(names, i), names[i]),
{
    let r = swap_removed(names, i);
    let last = names.len() - 1;
    assert forall|a: int, b: int| 0 <= a < b < r.len() implies r[a] != r[b] by {
        let pa = if a == i { last } else { a };
        let pb = if b == i { last } else { b };
        assert(r[a] == names[pa] && r[b] == names[pb]);
        assert(pa != pb);
    }
    lemma_first_index(r, names[i]);
    assert forall|j: int| 0 <= j < r.len() implies r[j] != names[i] by {
        let pj = if j == i { last } else { j };
        assert(r[j] == names[pj]);
        assert(pj != i);
    }
}

} // verus!
