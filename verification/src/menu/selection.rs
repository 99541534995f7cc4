//! Moving a selection through a list while skipping what cannot be selected.
use vstd::prelude::*;

use crate::menu::tree::MenuTree;

verus! {

/// Which items can be selected: all but the separators.
pub open spec fn selectable_mask<I>(items: Seq<MenuTree<I>>) -> Seq<bool> {
    Seq::new(items.len(), |i: int| !items[i].is_separator)
}

/// Which roots can be opened: those with items.
pub open spec fn openable_mask<I>(roots: Seq<MenuTree<I>>) -> Seq<bool> {
    Seq::new(roots.len(), |i: int| roots[i].children@.len() > 0)
}

/// Which items are selected by a letter.
pub open spec fn letter_mask<I>(items: Seq<MenuTree<I>>, letter: char) -> Seq<bool> {
    Seq::new(items.len(), |i: int| items[i].mnemonic == Some(letter) && !items[i].is_separator)
}

/// Whether a position is marked in a mask.
pub open spec fn marked(mask: Seq<bool>, i: int) -> bool {
    0 <= i < mask.len() && mask[i]
}

/// The position that is reached after `k` steps in a ring of `count` positions, downward or
/// upward. There may be more steps upward than positions below the start only by wrapping once.
pub open spec fn ring_position(start: int, k: int, count: int, down: bool) -> int {
    if down {
        if start + k < count {
            start + k
        } else {
            start + k - count
        }
    } else {
        if start - k >= 0 {
            start - k
        } else {
            start - k + count
        }
    }
}

/// Whether the first marked position of the ring is met after `k` steps.
pub open spec fn first_hit(mask: Seq<bool>, count: int, start: int, down: bool, k: int) -> bool {
    &&& 0 <= k < count
    &&& marked(mask, ring_position(start, k, count, down))
    &&& forall|j: int|
        0 <= j < k ==> !marked(mask, #[trigger] ring_position(start, j, count, down))
}

/// The first marked position of the ring, if one is marked.
pub open spec fn ring_pick(mask: Seq<bool>, count: int, start: int, down: bool) -> Option<usize> {
    if exists|k: int| first_hit(mask, count, start, down, k) {
        let k = choose|k: int| first_hit(mask, count, start, down, k);
        Some(ring_position(start, k, count, down) as usize)
    } else {
        None
    }
}

/// Where a downward search starts: behind the selection, or at the top.
pub open spec fn start_below(index: Option<usize>, count: int) -> int {
    match index {
        Some(i) => if i < count - 1 {
            i + 1
        } else {
            0
        },
        None => 0,
    }
}

/// Where an upward search starts: before the selection, or at the bottom.
pub open spec fn start_above(index: Option<usize>, count: int) -> int {
    match index {
        Some(i) => if i > 0 {
            i - 1
        } else {
            count - 1
        },
        None => count - 1,
    }
}

/// The steps to the first hit are determined.
pub proof fn lemma_first_hit_unique(
    mask: Seq<bool>,
    count: int,
    start: int,
    down: bool,
    a: int,
    b: int,
)
    requires
        first_hit(mask, count, start, down, a),
        first_hit(mask, count, start, down, b),
    ensures
        a == b,
{
    if a < b {
        assert(!marked(mask, ring_position(start, a, count, down)));
    } else if b < a {
        assert(!marked(mask, ring_position(start, b, count, down)));
    }
}

/// A first hit is what the ring search picks.
pub proof fn lemma_pick_is_hit(mask: Seq<bool>, count: int, start: int, down: bool, k: int)
    requires
        first_hit(mask, count, start, down, k),
    ensures
        ring_pick(mask, count, start, down) == Some(
            ring_position(start, k, count, down) as usize,
        ),
{
    let chosen = choose|k: int| first_hit(mask, count, start, down, k);
    lemma_first_hit_unique(mask, count, start, down, chosen, k);
}

/// Without a marked position nothing is picked.
pub proof fn lemma_pick_is_none(mask: Seq<bool>, count: int, start: int, down: bool)
    requires
        forall|j: int|
            0 <= j < count ==> !marked(mask, #[trigger] ring_position(start, j, count, down)),
    ensures
        ring_pick(mask, count, start, down) is None,
{
    assert forall|k: int| !first_hit(mask, count, start, down, k) by {
        if first_hit(mask, count, start, down, k) {
            assert(!marked(mask, ring_position(start, k, count, down)));
        }
    }
}

/// A search that meets a marked position finds one.
proof fn lemma_pick_exists(mask: Seq<bool>, count: int, start: int, down: bool, k: int)
    requires
        0 <= k < count,
        marked(mask, ring_position(start, k, count, down)),
    ensures
        exists|h: int| h <= k && first_hit(mask, count, start, down, h),
    decreases k,
{
    if forall|j: int| 0 <= j < k ==> !marked(mask, #[trigger] ring_position(start, j, count, down)) {
        assert(first_hit(mask, count, start, down, k));
    } else {
        let j = choose|j: int|
            0 <= j < k && marked(mask, #[trigger] ring_position(start, j, count, down));
        lemma_pick_exists(mask, count, start, down, j);
        let h = choose|h: int| h <= j && first_hit(mask, count, start, down, h);
        assert(h <= k && first_hit(mask, count, start, down, h));
    }
}

/// What a search picks is marked. So the arrow keys, Home and End never select a separator.
pub proof fn law_pick_is_marked(mask: Seq<bool>, count: int, start: int, down: bool)
    requires
        mask.len() <= usize::MAX,
    ensures
        match ring_pick(mask, count, start, down) {
            Some(i) => marked(mask, i as int),
            None => forall|j: int|
                0 <= j < count ==> !marked(mask, #[trigger] ring_position(start, j, count, down)),
        },
{
    match ring_pick(mask, count, start, down) {
        Some(_) => {
            let k = choose|k: int| first_hit(mask, count, start, down, k);
            assert(marked(mask, ring_position(start, k, count, down)));
        },
        None => {
            assert forall|j: int| 0 <= j < count implies !marked(
                mask,
                #[trigger] ring_position(start, j, count, down),
            ) by {
                if marked(mask, ring_position(start, j, count, down)) {
                    lemma_pick_exists(mask, count, start, down, j);
                }
            }
        },
    }
}

/// Arrow down always finds an item if any item can be selected, wherever the selection was.
pub proof fn law_down_finds(mask: Seq<bool>, index: Option<usize>, i: int)
    requires
        mask.len() <= usize::MAX,
        marked(mask, i),
    ensures
        ring_pick(mask, mask.len() as int, start_below(index, mask.len() as int), true) is Some,
        ring_pick(mask, mask.len() as int, 0, true) is Some,
        ring_pick(mask, mask.len() as int, mask.len() - 1, false) is Some,
{
    let count = mask.len() as int;
    let start = start_below(index, count);
    let k = if i >= start {
        i - start
    } else {
        i - start + count
    };
    assert(ring_position(start, k, count, true) == i);
    lemma_pick_exists(mask, count, start, true, k);
    assert(ring_position(0, i, count, true) == i);
    lemma_pick_exists(mask, count, 0, true, i);
    assert(ring_position(count - 1, count - 1 - i, count, false) == i);
    lemma_pick_exists(mask, count, count - 1, false, count - 1 - i);
}

/// Arrow up undoes arrow down: from a selected item, going down and then up comes back to it.
pub proof fn law_up_undoes_down(mask: Seq<bool>, i: usize)
    requires
        mask.len() <= usize::MAX,
        marked(mask, i as int),
    ensures
        ({
            let count = mask.len() as int;
            let below = ring_pick(mask, count, start_below(Some(i), count), true);
            ring_pick(mask, count, start_above(below, count), false) == Some(i)
        }),
{
    let count = mask.len() as int;
    let start = start_below(Some(i), count);
    law_down_finds(mask, Some(i), i as int);
    let k = choose|k: int| first_hit(mask, count, start, true, k);
    let j = ring_position(start, k, count, true);
    let up = start_above(Some(j as usize), count);
    // Going back up from the item below passes the same `k` positions in reverse order.
    assert forall|m: int| 0 <= m < k implies !marked(
        mask,
        #[trigger] ring_position(up, m, count, false),
    ) by {
        assert(ring_position(up, m, count, false) == ring_position(start, k - 1 - m, count, true));
    }
    assert(ring_position(up, k, count, false) == i);
    assert(first_hit(mask, count, up, false, k));
    lemma_pick_is_hit(mask, count, up, false, k);
}

/// Arrow down undoes arrow up.
pub proof fn law_down_undoes_up(mask: Seq<bool>, i: usize)
    requires
        mask.len() <= usize::MAX,
        marked(mask, i as int),
    ensures
        ({
            let count = mask.len() as int;
            let above = ring_pick(mask, count, start_above(Some(i), count), false);
            ring_pick(mask, count, start_below(above, count), true) == Some(i)
        }),
{
    let count = mask.len() as int;
    let start = start_above(Some(i), count);
    let to_self = if i <= start {
        start - i
    } else {
        start - i + count
    };
    assert(ring_position(start, to_self, count, false) == i);
    lemma_pick_exists(mask, count, start, false, to_self);
    let k = choose|k: int| first_hit(mask, count, start, false, k);
    let j = ring_position(start, k, count, false);
    let down = start_below(Some(j as usize), count);
    assert forall|m: int| 0 <= m < k implies !marked(
        mask,
        #[trigger] ring_position(down, m, count, true),
    ) by {
        assert(ring_position(down, m, count, true) == ring_position(start, k - 1 - m, count, false));
    }
    assert(ring_position(down, k, count, true) == i);
    assert(first_hit(mask, count, down, true, k));
    lemma_pick_is_hit(mask, count, down, true, k);
}

/// Home selects the first item that can be selected, End the last one.
pub proof fn law_home_and_end(mask: Seq<bool>)
    requires
        mask.len() <= usize::MAX,
    ensures
        match ring_pick(mask, mask.len() as int, 0, true) {
            Some(i) => marked(mask, i as int) && forall|j: int| 0 <= j < i ==> !marked(mask, j),
            None => forall|j: int| !marked(mask, j),
        },
        match ring_pick(mask, mask.len() as int, mask.len() - 1, false) {
            Some(i) => marked(mask, i as int) && forall|j: int| i < j ==> !marked(mask, j),
            None => forall|j: int| !marked(mask, j),
        },
{
    let count = mask.len() as int;
    law_pick_is_marked(mask, count, 0, true);
    law_pick_is_marked(mask, count, count - 1, false);
    match ring_pick(mask, count, 0, true) {
        Some(i) => {
            let k = choose|k: int| first_hit(mask, count, 0, true, k);
            assert forall|j: int| 0 <= j < i implies !marked(mask, j) by {
                assert(!marked(mask, ring_position(0, j, count, true)));
            }
        },
        None => {
            assert forall|j: int| !marked(mask, j) by {
                if 0 <= j < count {
                    assert(!marked(mask, ring_position(0, j, count, true)));
                }
            }
        },
    }
    match ring_pick(mask, count, count - 1, false) {
        Some(i) => {
            let bottom = count - 1;
            let k = choose|k: int| first_hit(mask, count, bottom, false, k);
            assert forall|j: int| i < j implies !marked(mask, j) by {
                if j < count {
                    assert(ring_position(count - 1, count - 1 - j, count, false) == j);
                }
            }
        },
        None => {
            assert forall|j: int| !marked(mask, j) by {
                if 0 <= j < count {
                    assert(ring_position(count - 1, count - 1 - j, count, false) == j);
                }
            }
        },
    }
}

/// The position that follows in the ring.
fn ring_step(position: usize, count: usize, down: bool) -> (r: usize)
    requires
        count > 0,
        down ==> position < count,
    ensures
        down ==> r == (if position >= count - 1 {
            0
        } else {
            position + 1
        }),
        !down ==> r == (if position == 0 {
            count - 1
        } else {
            position - 1
        }),
{
    if down {
        if position >= count - 1 {
            0
        } else {
            position + 1
        }
    } else if position == 0 {
        count - 1
    } else {
        position - 1
    }
}

/// Searches the ring of the first `count` positions for an item that is no separator.
pub fn pick_item<I>(items: &Vec<MenuTree<I>>, count: usize, start: usize, down: bool) -> (r: Option<
    usize,
>)
    requires
        down && count > 0 ==> start < count,
    ensures
        r == ring_pick(selectable_mask(items@), count as int, start as int, down),
{
    let mut position: usize = start;
    let mut k: usize = 0;
    let ghost mask = selectable_mask(items@);
    while k < count
        invariant
            0 <= k <= count,
            mask == selectable_mask(items@),
            position == ring_position(start as int, k as int, count as int, down) || k == count,
            down && count > 0 ==> start < count,
            down && k < count ==> position < count,
            forall|j: int|
                0 <= j < k ==> !marked(
                    mask,
                    #[trigger] ring_position(start as int, j, count as int, down),
                ),
        decreases count - k,
    {
        if position < items.len() && !items[position].is_separator {
            proof {
                assert(first_hit(mask, count as int, start as int, down, k as int));
                lemma_pick_is_hit(mask, count as int, start as int, down, k as int);
            }
            return Some(position);
        }
        position = ring_step(position, count, down);
        k = k + 1;
    }
    proof {
        lemma_pick_is_none(mask, count as int, start as int, down);
    }
    None
}

/// Searches the ring of roots for one that has items.
pub fn pick_root<I>(roots: &Vec<MenuTree<I>>, start: usize, down: bool) -> (r: Option<usize>)
    requires
        roots@.len() > 0 ==> start < roots@.len(),
    ensures
        r == ring_pick(openable_mask(roots@), roots@.len() as int, start as int, down),
{
    let count: usize = roots.len();
    let mut position: usize = start;
    let mut k: usize = 0;
    let ghost mask = openable_mask(roots@);
    while k < count
        invariant
            0 <= k <= count,
            count == roots@.len(),
            mask == openable_mask(roots@),
            count > 0 ==> start < count && position < count,
            k < count ==> position == ring_position(start as int, k as int, count as int, down),
            forall|j: int|
                0 <= j < k ==> !marked(
                    mask,
                    #[trigger] ring_position(start as int, j, count as int, down),
                ),
        decreases count - k,
    {
        if roots[position].children.len() > 0 {
            proof {
                assert(first_hit(mask, count as int, start as int, down, k as int));
                lemma_pick_is_hit(mask, count as int, start as int, down, k as int);
            }
            return Some(position);
        }
        position = ring_step(position, count, down);
        k = k + 1;
    }
    proof {
        lemma_pick_is_none(mask, count as int, start as int, down);
    }
    None
}

/// Searches for the first item that a letter selects.
pub fn pick_letter<I>(items: &Vec<MenuTree<I>>, letter: char) -> (r: Option<usize>)
    ensures
        r == ring_pick(letter_mask(items@, letter), items@.len() as int, 0, true),
{
    let count: usize = items.len();
    let mut k: usize = 0;
    let ghost mask = letter_mask(items@, letter);
    while k < count
        invariant
            0 <= k <= count,
            count == items@.len(),
            mask == letter_mask(items@, letter),
            forall|j: int|
                0 <= j < k ==> !marked(mask, #[trigger] ring_position(0, j, count as int, true)),
        decreases count - k,
    {
        let hit: bool = match items[k].mnemonic {
            Some(c) => c == letter && !items[k].is_separator,
            None => false,
        };
        if hit {
            proof {
                assert(first_hit(mask, count as int, 0, true, k as int));
                lemma_pick_is_hit(mask, count as int, 0, true, k as int);
            }
            return Some(k);
        }
        k = k + 1;
    }
    proof {
        lemma_pick_is_none(mask, count as int, 0, true);
    }
    None
}

} // verus!
