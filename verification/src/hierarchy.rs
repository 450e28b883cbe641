//! Finding the component an entity belongs to among its ancestors.
//!
//! An entity's ancestry is given as a chain: the entity itself, then its
//! parent, its parent's parent and so on, each with whether it is the kind
//! of component looked for (an app bar for its buttons, a list for its
//! items).
use vstd::prelude::*;

verus! {

/// How many entries of a chain are searched: the entity and its nearest
/// ancestors.
pub const MAX_ANCESTOR_DEPTH: usize = 32;

/// The first marked entry of `chain` among its first `MAX_ANCESTOR_DEPTH`
/// entries, counting from entry `i`.
pub open spec fn first_marked_from(chain: Seq<(u64, bool)>, i: int) -> Option<u64>
    decreases chain.len() - i,
{
    if i < 0 || i >= chain.len() || i >= MAX_ANCESTOR_DEPTH {
        None
    } else if chain[i].1 {
        Some(chain[i].0)
    } else {
        first_marked_from(chain, i + 1)
    }
}

/// The nearest marked entry of `chain` (the entity itself or one of its
/// ancestors), searching no further than `MAX_ANCESTOR_DEPTH` entries.
pub fn nearest_marked_ancestor(chain: &Vec<(u64, bool)>) -> (r: Option<u64>)
    ensures
        r == first_marked_from(chain@, 0),
{
    let mut i: usize = 0;
    while i < chain.len() && i < MAX_ANCESTOR_DEPTH
        invariant
            i <= chain.len(),
            i <= MAX_ANCESTOR_DEPTH,
            first_marked_from(chain@, 0) == first_marked_from(chain@, i as int),
        decreases chain.len() - i,
    {
        if chain[i].1 {
            return Some(chain[i].0);
        }
        i = i + 1;
    }
    None
}

/// The entity found is marked, lies within the searched depth, and no
/// entry before it is marked; where none is found, no searched entry is
/// marked.
pub proof fn lemma_nearest_marked(chain: Seq<(u64, bool)>)
    ensures
        match first_marked_from(chain, 0) {
            Some(e) => exists|k: int|
                0 <= k < chain.len() && k < MAX_ANCESTOR_DEPTH && #[trigger] chain[k] == (e, true)
                    && forall|j: int| 0 <= j < k ==> !(#[trigger] chain[j]).1,
            None => forall|j: int|
                0 <= j < chain.len() && j < MAX_ANCESTOR_DEPTH ==> !(#[trigger] chain[j]).1,
        },
{
    lemma_marked_from(chain, 0);
}

proof fn lemma_marked_from(chain: Seq<(u64, bool)>, i: int)
    requires
        0 <= i,
    ensures
        match first_marked_from(chain, i) {
            Some(e) => exists|k: int|
                i <= k < chain.len() && k < MAX_ANCESTOR_DEPTH && #[trigger] chain[k] == (e, true)
                    && forall|j: int| i <= j < k ==> !(#[trigger] chain[j]).1,
            None => forall|j: int|
                i <= j < chain.len() && j < MAX_ANCESTOR_DEPTH ==> !(#[trigger] chain[j]).1,
        },
    decreases chain.len() - i,
{
    if i >= chain.len() || i >= MAX_ANCESTOR_DEPTH {
    } else if chain[i].1 {
        assert(chain[i] == (chain[i].0, true));
    } else {
        lemma_marked_from(chain, i + 1);
    }
}

} // verus!
