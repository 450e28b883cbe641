//! Test ids of the parts of components.
//!
//! When telemetry is on, a component with a test id gives its parts ids of
//! their own under it: `base/part` for a single part (a checkbox's `box`,
//! `icon` and `state_layer`; a radio's `outer`, `inner` and
//! `state_layer`; a dialog's `headline`, `content`, `actions` and `scrim`;
//! a progress bar's `indicator`), and `base/kind/n` for numbered ones (the
//! buttons of a group, counted from 0; the dividers of a menu, counted
//! from 1).
use crate::text::{digits_of, push_digits, push_str};
use vstd::prelude::*;

verus! {

/// The id of the part `part` of the component with id `base`.
pub open spec fn part_id(base: Seq<char>, part: Seq<char>) -> Seq<char> {
    base + seq!['/'] + part
}

/// The id of the `n`-th part of kind `kind` of the component with id
/// `base`.
pub open spec fn indexed_id(base: Seq<char>, kind: Seq<char>, n: nat) -> Seq<char> {
    base + seq!['/'] + kind + seq!['/'] + digits_of(n)
}

/// The id of the part `part` of the component with id `base`.
pub fn part_test_id(base: &str, part: &str) -> (id: String)
    ensures
        id@ == part_id(base@, part@),
{
    let mut id = String::new();
    push_str(&mut id, base);
    push_str(&mut id, "/");
    push_str(&mut id, part);
    proof {
        reveal_strlit("/");
        assert(id@ =~= part_id(base@, part@));
    }
    id
}

/// The id of the `n`-th part of kind `kind` of the component with id
/// `base`.
pub fn indexed_test_id(base: &str, kind: &str, n: u32) -> (id: String)
    ensures
        id@ == indexed_id(base@, kind@, n as nat),
{
    let mut id = String::new();
    push_str(&mut id, base);
    push_str(&mut id, "/");
    push_str(&mut id, kind);
    push_str(&mut id, "/");
    push_digits(&mut id, n);
    proof {
        reveal_strlit("/");
        assert(id@ =~= indexed_id(base@, kind@, n as nat));
    }
    id
}

/// How many of the first `i` flags are set.
pub open spec fn count_set(flags: Seq<bool>, i: int) -> nat
    decreases i,
{
    if i <= 0 {
        0
    } else {
        count_set(flags, i - 1) + if flags[i - 1] {
            1nat
        } else {
            0nat
        }
    }
}

/// The ids of the children of the button group `group`, in order:
/// `is_button` tells which children are buttons; each button gets
/// `group/button/n`, `n` counting the buttons before it, and any other
/// child gets none.
pub fn button_group_test_ids(group: &str, is_button: &Vec<bool>) -> (ids: Vec<Option<String>>)
    requires
        is_button@.len() <= u32::MAX,
    ensures
        ids@.len() == is_button@.len(),
        forall|i: int|
            0 <= i < is_button@.len() ==> match #[trigger] ids@[i] {
                Some(id) => is_button@[i] && id@ == indexed_id(
                    group@,
                    "button"@,
                    count_set(is_button@, i),
                ),
                None => !is_button@[i],
            },
{
    let mut ids: Vec<Option<String>> = Vec::new();
    let mut index: u32 = 0;
    let mut i: usize = 0;
    while i < is_button.len()
        invariant
            i <= is_button@.len(),
            is_button@.len() <= u32::MAX,
            ids@.len() == i,
            index as nat == count_set(is_button@, i as int),
            index <= i,
            forall|j: int|
                0 <= j < i ==> match #[trigger] ids@[j] {
                    Some(id) => is_button@[j] && id@ == indexed_id(
                        group@,
                        "button"@,
                        count_set(is_button@, j),
                    ),
                    None => !is_button@[j],
                },
        decreases is_button.len() - i,
    {
        if is_button[i] {
            let id = indexed_test_id(group, "button", index);
            ids.push(Some(id));
            index = index + 1;
        } else {
            ids.push(None);
        }
        i = i + 1;
    }
    ids
}

/// The ids of the `count` dividers of the menu `base`, in the order the
/// menu meets them: `base/divider/1`, `base/divider/2`, and so on.
pub fn menu_divider_test_ids(base: &str, count: u32) -> (ids: Vec<String>)
    ensures
        ids@.len() == count,
        forall|k: int| 0 <= k < count ==> #[trigger] ids@[k]@ == indexed_id(base@, "divider"@, (k + 1) as nat),
{
    let mut ids: Vec<String> = Vec::new();
    let mut k: u32 = 0;
    while k < count
        invariant
            k <= count,
            ids@.len() == k,
            forall|j: int| 0 <= j < k ==> #[trigger] ids@[j]@ == indexed_id(base@, "divider"@, (j + 1) as nat),
        decreases count - k,
    {
        let id = indexed_test_id(base, "divider", k + 1);
        ids.push(id);
        k = k + 1;
    }
    ids
}

} // verus!
