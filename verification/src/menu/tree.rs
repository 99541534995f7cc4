//! The tree of items behind a menu overlay, and its flat numbering.
use vstd::prelude::*;

verus! {

/// An item of a menu overlay together with the items of its submenu.
#[derive(Debug)]
pub struct MenuTree<I> {
    /// What is shown for the item.
    pub item: I,
    /// The items of the submenu.
    pub children: Vec<MenuTree<I>>,
    /// The position of the item in the flat list of its root.
    pub index: usize,
    /// Whether the item only separates its neighbours.
    pub is_separator: bool,
    /// The letter that selects the item.
    pub mnemonic: Option<char>,
}

/// The items below a list of siblings in flat order: first the siblings themselves, so that
/// items of one menu stay next to each other, and then what is below each of them in turn.
pub open spec fn flat_items<I>(items: Seq<MenuTree<I>>) -> Seq<MenuTree<I>>
    decreases items, 1nat,
{
    items + flat_nested(items)
}

/// What is below each of a list of siblings, in turn.
pub open spec fn flat_nested<I>(items: Seq<MenuTree<I>>) -> Seq<MenuTree<I>>
    decreases items, 0nat,
{
    if items.len() == 0 {
        Seq::empty()
    } else {
        flat_nested(items.drop_last()) + flat_items(items.last().children@)
    }
}

/// Whether two trees differ in nothing but the numbering of their items.
pub open spec fn alike<I>(a: MenuTree<I>, b: MenuTree<I>) -> bool
    decreases a,
{
    &&& a.item == b.item
    &&& a.is_separator == b.is_separator
    &&& a.mnemonic == b.mnemonic
    &&& a.children@.len() == b.children@.len()
    &&& forall|i: int|
        0 <= i < a.children@.len() ==> alike(#[trigger] a.children@[i], b.children@[i])
}

/// Whether two lists of trees differ in nothing but the numbering of their items.
pub open spec fn all_alike<I>(a: Seq<MenuTree<I>>, b: Seq<MenuTree<I>>) -> bool {
    &&& a.len() == b.len()
    &&& forall|i: int| 0 <= i < a.len() ==> alike(#[trigger] a[i], b[i])
}

/// Whether items are numbered one after the other.
pub open spec fn numbered_from<I>(items: Seq<MenuTree<I>>, first: int) -> bool {
    forall|k: int| 0 <= k < items.len() ==> (#[trigger] items[k]).index == first + k
}

/// The items that a path leads to, one position per level. A position that does not exist
/// leads nowhere, and stays on its level.
pub open spec fn items_at<I>(items: Seq<MenuTree<I>>, path: Seq<usize>) -> Seq<MenuTree<I>>
    decreases path.len(),
{
    if path.len() == 0 {
        items
    } else {
        let above = items_at(items, path.drop_last());
        if path.last() < above.len() {
            above[path.last() as int].children@
        } else {
            above
        }
    }
}

proof fn lemma_alike_reflexive<I>(a: MenuTree<I>)
    ensures
        alike(a, a),
    decreases a,
{
    assert forall|i: int| 0 <= i < a.children@.len() implies alike(
        #[trigger] a.children@[i],
        a.children@[i],
    ) by {
        lemma_alike_reflexive(a.children@[i]);
    }
}

proof fn lemma_alike_transitive<I>(a: MenuTree<I>, b: MenuTree<I>, c: MenuTree<I>)
    requires
        alike(a, b),
        alike(b, c),
    ensures
        alike(a, c),
    decreases a,
{
    assert forall|i: int| 0 <= i < a.children@.len() implies alike(
        #[trigger] a.children@[i],
        c.children@[i],
    ) by {
        assert(alike(a.children@[i], b.children@[i]));
        assert(alike(b.children@[i], c.children@[i]));
        lemma_alike_transitive(a.children@[i], b.children@[i], c.children@[i]);
    }
}

/// Trees that differ only in their numbering have flat lists of one length.
proof fn lemma_alike_len<I>(a: Seq<MenuTree<I>>, b: Seq<MenuTree<I>>)
    requires
        all_alike(a, b),
    ensures
        flat_nested(a).len() == flat_nested(b).len(),
        flat_items(a).len() == flat_items(b).len(),
    decreases a,
{
    if a.len() > 0 {
        let i = a.len() - 1;
        assert(alike(a[i], b[i]));
        assert forall|j: int| 0 <= j < a.drop_last().len() implies alike(
            #[trigger] a.drop_last()[j],
            b.drop_last()[j],
        ) by {
            assert(alike(a[j], b[j]));
        }
        lemma_alike_len(a.drop_last(), b.drop_last());
        lemma_alike_len(a.last().children@, b.last().children@);
    }
}

/// Each sibling's part of the flat list is shorter than the list of all of them.
proof fn lemma_part_is_shorter<I>(items: Seq<MenuTree<I>>, i: int)
    requires
        0 <= i < items.len(),
    ensures
        flat_nested(items.take(i)).len() + flat_items(items[i].children@).len()
            == flat_nested(items.take(i + 1)).len(),
        flat_nested(items.take(i + 1)).len() <= flat_nested(items).len(),
    decreases items.len(),
{
    assert(items.take(i + 1).drop_last() =~= items.take(i));
    assert(items.take(i + 1).last() == items[i]);
    if i + 1 < items.len() {
        lemma_part_is_shorter(items.drop_last(), i);
        assert(items.drop_last().take(i) =~= items.take(i));
        assert(items.drop_last().take(i + 1) =~= items.take(i + 1));
    } else {
        assert(items.take(i + 1) =~= items);
    }
}

impl<I> MenuTree<I> {
    /// The item and everything below it in flat order.
    pub open spec fn flat(self) -> Seq<MenuTree<I>> {
        seq![self] + flat_items(self.children@)
    }

    /// Makes an unnumbered tree out of an item and the items of its submenu.
    pub fn with_children(item: I, children: Vec<MenuTree<I>>) -> (r: Self)
        ensures
            r.item == item,
            r.children == children,
            r.index == 0,
            !r.is_separator,
            r.mnemonic is None,
    {
        MenuTree { item, children, index: 0, is_separator: false, mnemonic: None }
    }

    /// Numbers the item and everything below it by its position in the flat list.
    pub fn set_index(&mut self)
        requires
            old(self).flat().len() <= usize::MAX,
        ensures
            alike(*old(self), *final(self)),
            final(self).flat().len() == old(self).flat().len(),
            numbered_from(final(self).flat(), 0),
    {
        let ghost before = *self;
        let mut count: usize = 0;
        self.index = count;
        count = count + 1;
        self.number_children(&mut count);
        proof {
            assert(alike(before, *self)) by {
                assert forall|i: int| 0 <= i < before.children@.len() implies alike(
                    #[trigger] before.children@[i],
                    self.children@[i],
                ) by {
                    assert(alike(before.children@[i], self.children@[i]));
                }
            }
            assert(all_alike(before.children@, self.children@));
            lemma_alike_len(before.children@, self.children@);
        }
    }

    fn number_children(&mut self, count: &mut usize)
        requires
            *old(count) + flat_items(old(self).children@).len() <= usize::MAX,
        ensures
            alike(*old(self), *final(self)),
            final(self).index == old(self).index,
            numbered_from(flat_items(final(self).children@), *old(count) as int),
            *final(count) == *old(count) + flat_items(old(self).children@).len(),
        decreases flat_items(old(self).children@).len(),
    {
        let ghost before = *self;
        let ghost first = *count as int;
        let len: usize = self.children.len();
        let mut i: usize = 0;
        proof {
            lemma_alike_reflexive(*self);
        }
        while i < len
            invariant
                0 <= i <= len,
                len == self.children@.len(),
                *count == first + i,
                first + len <= usize::MAX,
                alike(before, *self),
                self.index == before.index,
                forall|k: int| 0 <= k < i ==> (#[trigger] self.children@[k]).index == first + k,
            decreases len - i,
        {
            let ghost prior = *self;
            self.children[i].index = *count;
            *count = *count + 1;
            i = i + 1;
            proof {
                assert forall|j: int| 0 <= j < before.children@.len() implies alike(
                    #[trigger] before.children@[j],
                    self.children@[j],
                ) by {
                    assert(alike(before.children@[j], prior.children@[j]));
                }
            }
        }
        let ghost lined = *self;
        proof {
            assert(all_alike(before.children@, lined.children@));
            lemma_alike_len(before.children@, lined.children@);
            assert(lined.children@.take(0) =~= Seq::empty());
            lemma_alike_reflexive(lined);
        }
        i = 0;
        while i < len
            invariant
                0 <= i <= len,
                len == self.children@.len(),
                len == lined.children@.len(),
                alike(before, lined),
                alike(before, *self),
                alike(lined, *self),
                self.index == before.index,
                flat_items(before.children@).len() == flat_items(lined.children@).len(),
                first + flat_items(lined.children@).len() <= usize::MAX,
                *count == first + len + flat_nested(lined.children@.take(i as int)).len(),
                flat_items(old(self).children@).len() == flat_items(lined.children@).len(),
                flat_nested(self.children@.take(i as int)).len() == flat_nested(
                    lined.children@.take(i as int),
                ).len(),
                numbered_from(flat_nested(self.children@.take(i as int)), first + len),
                forall|k: int| 0 <= k < len ==> (#[trigger] self.children@[k]).index == first + k,
            decreases len - i,
        {
            let ghost prior = *self;
            let ghost at = i as int;
            proof {
                lemma_part_is_shorter(lined.children@, at);
                assert(alike(lined.children@[at], prior.children@[at]));
                assert(all_alike(lined.children@[at].children@, prior.children@[at].children@));
                lemma_alike_len(lined.children@[at].children@, prior.children@[at].children@);
            }
            self.children[i].number_children(count);
            i = i + 1;
            proof {
                assert forall|j: int| 0 <= j < lined.children@.len() implies alike(
                    #[trigger] lined.children@[j],
                    self.children@[j],
                ) by {
                    assert(alike(lined.children@[j], prior.children@[j]));
                    if j == at {
                        lemma_alike_transitive(
                            lined.children@[j],
                            prior.children@[j],
                            self.children@[j],
                        );
                    }
                }
                lemma_alike_transitive(before, lined, *self);
                assert(self.children@.take(at + 1).drop_last() =~= prior.children@.take(at));
                assert(self.children@.take(at + 1).last() == self.children@[at]);
                assert(all_alike(prior.children@[at].children@, self.children@[at].children@));
                lemma_alike_len(prior.children@[at].children@, self.children@[at].children@);
            }
        }
        proof {
            assert(self.children@.take(len as int) =~= self.children@);
            assert(lined.children@.take(len as int) =~= lined.children@);
        }
    }

    /// Lists the item and everything below it in flat order.
    pub fn flatten<'a>(&'a self) -> (r: Vec<&'a MenuTree<I>>)
        ensures
            r@.len() == self.flat().len(),
            forall|k: int| 0 <= k < r@.len() ==> *(#[trigger] r@[k]) == self.flat()[k],
    {
        let mut flat: Vec<&'a MenuTree<I>> = Vec::new();
        flat.push(self);
        flatten_children(self, &mut flat);
        flat
    }
}

fn flatten_children<'a, I>(node: &'a MenuTree<I>, flat: &mut Vec<&'a MenuTree<I>>)
    ensures
        final(flat)@.len() == old(flat)@.len() + flat_items(node.children@).len(),
        forall|k: int|
            0 <= k < old(flat)@.len() ==> (#[trigger] final(flat)@[k]) == old(flat)@[k],
        forall|k: int|
            old(flat)@.len() <= k < final(flat)@.len() ==> *(#[trigger] final(flat)@[k])
                == flat_items(node.children@)[k - old(flat)@.len()],
    decreases node,
{
    let ghost before = flat@;
    let ghost items = node.children@;
    let len: usize = node.children.len();
    let mut i: usize = 0;
    while i < len
        invariant
            0 <= i <= len,
            len == node.children@.len(),
            items == node.children@,
            flat@.len() == before.len() + i,
            forall|k: int| 0 <= k < before.len() ==> (#[trigger] flat@[k]) == before[k],
            forall|k: int|
                before.len() <= k < flat@.len() ==> *(#[trigger] flat@[k]) == items[k
                    - before.len()],
        decreases len - i,
    {
        flat.push(&node.children[i]);
        i = i + 1;
    }
    i = 0;
    proof {
        assert(items.take(0) =~= Seq::empty());
    }
    while i < len
        invariant
            0 <= i <= len,
            len == node.children@.len(),
            items == node.children@,
            flat@.len() == before.len() + len + flat_nested(items.take(i as int)).len(),
            forall|k: int| 0 <= k < before.len() ==> (#[trigger] flat@[k]) == before[k],
            forall|k: int|
                before.len() <= k < flat@.len() ==> *(#[trigger] flat@[k]) == (items
                    + flat_nested(items.take(i as int)))[k - before.len()],
        decreases len - i,
    {
        let ghost prior = flat@;
        flatten_children(&node.children[i], flat);
        proof {
            assert(items.take(i + 1).drop_last() =~= items.take(i as int));
            assert(items.take(i + 1).last() == items[i as int]);
        }
        i = i + 1;
    }
    proof {
        assert(items.take(len as int) =~= items);
    }
}

/// Follows a path from a list of items, taking at most `depth` of its positions behind the first.
///
/// The first position of the path names the root that the list belongs to.
pub fn descend<'a, I>(items: &'a Vec<MenuTree<I>>, active_root: &Vec<usize>, depth: usize) -> (r:
    &'a Vec<MenuTree<I>>)
    requires
        active_root@.len() > 0,
    ensures
        r@ == items_at(items@, path_below_root(active_root@, depth as int)),
{
    let mut current: &'a Vec<MenuTree<I>> = items;
    let available: usize = active_root.len() - 1;
    let steps: usize = if depth < available {
        depth
    } else {
        available
    };
    let mut i: usize = 0;
    let ghost path = path_below_root(active_root@, depth as int);
    proof {
        assert(path.take(0) =~= Seq::empty());
    }
    while i < steps
        invariant
            0 <= i <= steps,
            steps == path.len(),
            steps < active_root@.len(),
            path == active_root@.subrange(1, 1 + steps),
            current@ == items_at(items@, path.take(i as int)),
        decreases steps - i,
    {
        let next: usize = active_root[i + 1];
        proof {
            assert(path.take(i + 1).drop_last() =~= path.take(i as int));
            assert(path.take(i + 1).last() == next);
        }
        if next < current.len() {
            current = &current[next].children;
        }
        i = i + 1;
    }
    proof {
        assert(path.take(steps as int) =~= path);
    }
    current
}

/// The part of an active path that follows its root, cut off at a depth.
pub open spec fn path_below_root(active_root: Seq<usize>, depth: int) -> Seq<usize> {
    let available = active_root.len() - 1;
    active_root.subrange(1, 1 + if depth < available { depth } else { available })
}

/// The item at the end of a path below a list of siblings: each step is a position among the items
/// that the path has come to.
pub open spec fn item_below<I>(items: Seq<MenuTree<I>>, path: Seq<int>) -> Option<MenuTree<I>>
    decreases path.len(),
{
    if path.len() == 0 || !(0 <= path[0] < items.len()) {
        None
    } else if path.len() == 1 {
        Some(items[path[0]])
    } else {
        item_below(items[path[0]].children@, path.skip(1))
    }
}

/// What is below a sibling is listed with what is below all of them.
proof fn lemma_nested_holds<I>(items: Seq<MenuTree<I>>, i: int, item: MenuTree<I>)
    requires
        0 <= i < items.len(),
        flat_items(items[i].children@).contains(item),
    ensures
        flat_nested(items).contains(item),
    decreases items.len(),
{
    let before = flat_nested(items.drop_last());
    let all = flat_nested(items);
    if i < items.len() - 1 {
        lemma_nested_holds(items.drop_last(), i, item);
        let k = choose|k: int| 0 <= k < before.len() && before[k] == item;
        assert(all[k] == item);
    } else {
        let own = flat_items(items[i].children@);
        let k = choose|k: int| 0 <= k < own.len() && own[k] == item;
        assert(all[before.len() + k] == item);
    }
}

/// The flat list of a tree starts with the tree itself and then has the items of each menu next to
/// each other. It holds everything below the tree, at every depth.
pub proof fn law_flat_list_holds_everything<I>(items: Seq<MenuTree<I>>, path: Seq<int>)
    ensures
        flat_items(items).len() >= items.len(),
        flat_items(items).take(items.len() as int) == items,
        item_below(items, path) matches Some(item) ==> flat_items(items).contains(item),
    decreases path.len(),
{
    let all = flat_items(items);
    assert(all.take(items.len() as int) =~= items);
    if item_below(items, path) is Some {
        let item = item_below(items, path)->0;
        if path.len() == 1 {
            assert(all[path[0]] == item);
        } else {
            law_flat_list_holds_everything(items[path[0]].children@, path.skip(1));
            lemma_nested_holds(items, path[0], item);
            let nested = flat_nested(items);
            let k = choose|k: int| 0 <= k < nested.len() && nested[k] == item;
            assert(all[items.len() + k] == item);
        }
    }
}

/// The flat list has one place for each item: as many as there are siblings, and as many more as
/// the flat lists of what is below each of them.
pub proof fn law_flat_list_counts_each_item<I>(items: Seq<MenuTree<I>>, more: MenuTree<I>)
    ensures
        flat_items(items.push(more)).len() == flat_items(items).len() + more.flat().len(),
        more.flat().len() == 1 + flat_items(more.children@).len(),
        more.flat()[0] == more,
        flat_items(Seq::<MenuTree<I>>::empty()).len() == 0,
{
    assert(items.push(more).drop_last() =~= items);
}

/// Trees that differ in nothing but their numbering have the same items at the end of every path:
/// with what is shown, whether they separate, their letters and as many items below them.
pub proof fn law_alike_trees_show_the_same<I>(
    a: Seq<MenuTree<I>>,
    b: Seq<MenuTree<I>>,
    path: Seq<int>,
)
    requires
        all_alike(a, b),
    ensures
        (item_below(a, path) is Some) == (item_below(b, path) is Some),
        item_below(a, path) is Some ==> {
            let one = item_below(a, path)->0;
            let other = item_below(b, path)->0;
            &&& one.item == other.item
            &&& one.is_separator == other.is_separator
            &&& one.mnemonic == other.mnemonic
            &&& one.children@.len() == other.children@.len()
        },
    decreases path.len(),
{
    if path.len() > 0 && 0 <= path[0] < a.len() {
        assert(alike(a[path[0]], b[path[0]]));
        if path.len() > 1 {
            law_alike_trees_show_the_same(
                a[path[0]].children@,
                b[path[0]].children@,
                path.skip(1),
            );
        }
    }
}

} // verus!
