//! Where the keys take the selection of a menu, and what they open.
use vstd::prelude::*;

use crate::event::{Key, KeyboardEvent, Named, Status};
use crate::menu::overlay::{ascii_lower, Menu, MenuEffect, Pending};
use crate::menu::selection::{
    law_down_undoes_up, law_home_and_end, law_up_undoes_down, lemma_pick_is_hit,
    lemma_pick_is_none, letter_mask, marked, openable_mask, ring_position, selectable_mask,
    start_above, start_below,
};
use crate::menu::state::{Direction, MenuBarModel, MenuBounds};
use crate::menu::tree::MenuTree;
use crate::scalar::exact::{lemma_fractions, Exact};
use crate::scalar::Arithmetic;

verus! {

/// A position in a ring, which may be past its end or before its start by one turn.
pub open spec fn wrapped(position: int, count: int) -> int {
    if position < 0 {
        position + count
    } else if position >= count {
        position - count
    } else {
        position
    }
}

/// The position that is some steps on in a ring, or some steps back.
pub open spec fn steps_from(position: int, steps: int, on: bool, count: int) -> int {
    if on {
        wrapped(position + steps, count)
    } else {
        wrapped(position - steps, count)
    }
}

/// The key that leads on to the next root, or back to the one before.
pub open spec fn sideways_key(on: bool) -> Named {
    if on {
        Named::ArrowRight
    } else {
        Named::ArrowLeft
    }
}

/// Whether a root is open, and an arrow key leads to another root: no submenu is there to be
/// closed, or to be opened.
pub open spec fn switches_roots<'b, S: Arithmetic, I>(
    menu: Menu<'b, S, I>,
    m: MenuBarModel<S>,
    on: bool,
) -> bool {
    &&& m.open
    &&& m.active_root.len() > 0
    &&& m.active_root[0] < menu.menu_roots@.len()
    &&& menu.root_bounds_list@.len() >= menu.menu_roots@.len()
    &&& m.tree.len() >= menu.menu_roots@.len()
    &&& if on {
        menu.submenu_request(m) is None
    } else {
        m.menu_states.len() <= 1
    }
}

/// Searching from the neighbour of a position meets the positions that are one step away, two
/// steps away and so on.
proof fn lemma_steps(position: int, steps: int, on: bool, count: int)
    requires
        0 <= position < count,
        1 <= steps <= count,
    ensures
        ring_position(steps_from(position, 1, on, count), steps - 1, count, on) == steps_from(
            position,
            steps,
            on,
            count,
        ),
        0 <= steps_from(position, steps, on, count) < count,
{
}

/// With a root open, the right arrow key asks for the panel of the nearest root with items that
/// comes after it, and the left arrow key for the nearest one that comes before it; both go round
/// at the ends.
pub proof fn law_arrows_lead_to_the_nearest_root<'b, S: Arithmetic, I>(
    menu: Menu<'b, S, I>,
    m: MenuBarModel<S>,
    on: bool,
    steps: int,
    mnemonics: bool,
    viewport_width: S,
    rtl: bool,
)
    requires
        switches_roots(menu, m, on),
        1 <= steps < menu.menu_roots@.len(),
        ({
            let current = m.active_root[0] as int;
            let count = menu.menu_roots@.len() as int;
            &&& menu.menu_roots@[steps_from(current, steps, on, count)].children@.len() > 0
            &&& forall|j: int|
                1 <= j < steps ==> menu.menu_roots@[#[trigger] steps_from(
                    current,
                    j,
                    on,
                    count,
                )].children@.len() == 0
        }),
    ensures
        ({
            let count = menu.menu_roots@.len() as int;
            let there = steps_from(m.active_root[0] as int, steps, on, count);
            let response = menu.named_key_model(
                m,
                sideways_key(on),
                mnemonics,
                viewport_width,
                rtl,
            );
            &&& response.status == Status::Captured
            &&& response.pending matches Some(Pending::OpenRoot { index, parent_bounds, .. })
                && index == there && parent_bounds == menu.root_bounds_list@[there]
            &&& response.state.open
            &&& response.state.active_root.len() == 0
            &&& response.state.menu_states.len() == 0
        }),
{
    let current = m.active_root[0] as int;
    let count = menu.menu_roots@.len() as int;
    let mask = openable_mask(menu.menu_roots@);
    let start = steps_from(current, 1, on, count);
    assert(menu.menu_roots.len() == count);
    lemma_steps(current, steps, on, count);
    assert forall|j: int| 0 <= j < steps - 1 implies !marked(
        mask,
        #[trigger] ring_position(start, j, count, on),
    ) by {
        lemma_steps(current, j + 1, on, count);
    }
    lemma_pick_is_hit(mask, count, start, on, steps - 1);
}

/// With a root open and no other root that has items, the arrow keys change nothing.
pub proof fn law_arrows_stay_with_the_only_root<'b, S: Arithmetic, I>(
    menu: Menu<'b, S, I>,
    m: MenuBarModel<S>,
    on: bool,
    mnemonics: bool,
    viewport_width: S,
    rtl: bool,
)
    requires
        switches_roots(menu, m, on),
        forall|i: int|
            0 <= i < menu.menu_roots@.len() && i != m.active_root[0] ==> (
            #[trigger] menu.menu_roots@[i]).children@.len() == 0,
    ensures
        ({
            let response = menu.named_key_model(
                m,
                sideways_key(on),
                mnemonics,
                viewport_width,
                rtl,
            );
            &&& response.status == Status::Captured
            &&& response.pending is None
            &&& response.effects.len() == 0
            &&& response.state == m
        }),
{
    let current = m.active_root[0] as int;
    let count = menu.menu_roots@.len() as int;
    let mask = openable_mask(menu.menu_roots@);
    let start = steps_from(current, 1, on, count);
    assert(menu.menu_roots.len() == count);
    if mask[current] {
        lemma_steps(current, count, on, count);
        assert(ring_position(start, count - 1, count, on) == current);
        assert forall|j: int| 0 <= j < count - 1 implies !marked(
            mask,
            #[trigger] ring_position(start, j, count, on),
        ) by {
            lemma_steps(current, j + 1, on, count);
        }
        lemma_pick_is_hit(mask, count, start, on, count - 1);
    } else {
        assert forall|j: int| 0 <= j < count implies !marked(
            mask,
            #[trigger] ring_position(start, j, count, on),
        ) by {
            lemma_steps(current, j + 1, on, count);
        }
        lemma_pick_is_none(mask, count, start, on);
    }
}

/// Among roots with items, the arrow key to the other side comes back: after one arrow key has
/// opened the panel of another root, the other one asks for the panel of the root that was open
/// before.
pub proof fn law_arrows_lead_back<'b, S: Arithmetic, I>(
    menu: Menu<'b, S, I>,
    m: MenuBarModel<S>,
    on: bool,
    bounds: MenuBounds<S>,
    mnemonics: bool,
    viewport_width: S,
    rtl: bool,
)
    requires
        switches_roots(menu, m, on),
        menu.menu_roots@[m.active_root[0] as int].children@.len() > 0,
        ({
            let there = menu.named_key_model(m, sideways_key(on), mnemonics, viewport_width, rtl);
            let opened = menu.finished(there.state, there.pending->0, bounds);
            there.pending is Some && (!on ==> menu.submenu_request(opened) is None)
        }),
    ensures
        ({
            let there = menu.named_key_model(m, sideways_key(on), mnemonics, viewport_width, rtl);
            let opened = menu.finished(there.state, there.pending->0, bounds);
            let back = menu.named_key_model(
                opened,
                sideways_key(!on),
                mnemonics,
                viewport_width,
                rtl,
            );
            &&& there.pending->0 is OpenRoot
            &&& back.pending matches Some(Pending::OpenRoot { index, parent_bounds, .. }) && index
                == m.active_root[0] && parent_bounds
                == menu.root_bounds_list@[m.active_root[0] as int]
        }),
{
    let current = m.active_root[0];
    let mask = openable_mask(menu.menu_roots@);
    let count = menu.menu_roots@.len() as int;
    assert(menu.menu_roots.len() == count);
    assert(marked(mask, current as int));
    assert(steps_from(current as int, 1, true, count) == start_below(Some(current), count));
    assert(steps_from(current as int, 1, false, count) == start_above(Some(current), count));
    if on {
        law_up_undoes_down(mask, current);
    } else {
        law_down_undoes_up(mask, current);
    }
}

/// The key that moves the selection down, or up.
pub open spec fn upright_key(down: bool) -> Named {
    if down {
        Named::ArrowDown
    } else {
        Named::ArrowUp
    }
}

/// The entries of the open root, where its panel is the only one.
pub open spec fn shows_root_panel<'b, S: Arithmetic, I>(
    menu: Menu<'b, S, I>,
    m: MenuBarModel<S>,
    items: Seq<MenuTree<I>>,
) -> bool {
    &&& m.open
    &&& m.active_root.len() == 1
    &&& m.menu_states.len() == 1
    &&& m.active_root[0] < menu.menu_roots@.len()
    &&& items == menu.menu_roots@[m.active_root[0] as int].children@
    &&& m.menu_states[0].menu_bounds.child_positions@.len() == items.len()
}

/// In a panel, the down arrow key selects the nearest item below that is no separator, and the up
/// arrow key the nearest one above; both go round at the ends. Nothing but the selection changes.
pub proof fn law_arrows_select_the_nearest_item<'b, S: Arithmetic, I>(
    menu: Menu<'b, S, I>,
    m: MenuBarModel<S>,
    items: Seq<MenuTree<I>>,
    from: usize,
    down: bool,
    steps: int,
    mnemonics: bool,
    viewport_width: S,
    rtl: bool,
)
    requires
        shows_root_panel(menu, m, items),
        m.menu_states[0].index == Some(from),
        from < items.len(),
        1 <= steps <= items.len(),
        !items[steps_from(from as int, steps, down, items.len() as int)].is_separator,
        forall|j: int|
            1 <= j < steps ==> items[#[trigger] steps_from(
                from as int,
                j,
                down,
                items.len() as int,
            )].is_separator,
    ensures
        ({
            let there = steps_from(from as int, steps, down, items.len() as int);
            let response = menu.named_key_model(
                m,
                upright_key(down),
                mnemonics,
                viewport_width,
                rtl,
            );
            &&& response.status == Status::Captured
            &&& response.pending is None
            &&& response.state.menu_states.len() == 1
            &&& response.state.menu_states[0].index == Some(there as usize)
            &&& response.state.menu_states[0].scroll_offset == m.menu_states[0].scroll_offset
            &&& response.state.menu_states[0].menu_bounds == m.menu_states[0].menu_bounds
            &&& response.state.open
            &&& response.state.active_root == m.active_root
            &&& response.effects == (if menu.accessible {
                seq![
                    MenuEffect::FocusItem {
                        root: m.active_root[0],
                        panel: 0,
                        item: there as usize,
                    },
                    MenuEffect::RequestRedraw,
                ]
            } else {
                seq![MenuEffect::RequestRedraw]
            })
        }),
{
    let count = items.len() as int;
    let mask = selectable_mask(items);
    let start = steps_from(from as int, 1, down, count);
    reveal_with_fuel(crate::menu::tree::items_at, 2);
    assert(m.active_root.subrange(1, 1) =~= Seq::empty());
    assert(menu.active_items(m) == items);
    lemma_steps(from as int, steps, down, count);
    assert forall|j: int| 0 <= j < steps - 1 implies !marked(
        mask,
        #[trigger] ring_position(start, j, count, down),
    ) by {
        lemma_steps(from as int, j + 1, down, count);
    }
    assert(start_below(Some(from), count) == steps_from(from as int, 1, true, count));
    assert(start_above(Some(from), count) == steps_from(from as int, 1, false, count));
    assert(m.menu_states.last() == m.menu_states[0]);
    lemma_pick_is_hit(mask, count, start, down, steps - 1);
    let response = menu.named_key_model(m, upright_key(down), mnemonics, viewport_width, rtl);
    let there = steps_from(from as int, steps, down, count);
    let focus = MenuEffect::FocusItem { root: m.active_root[0], panel: 0, item: there as usize };
    assert(menu.moved_to(m, upright_key(down)) == Some(there as usize));
    assert(seq![focus].push(MenuEffect::RequestRedraw) =~= seq![focus, MenuEffect::RequestRedraw]);
    assert(Seq::<MenuEffect>::empty().push(MenuEffect::RequestRedraw) =~= seq![
        MenuEffect::RequestRedraw,
    ]);
}

/// Home selects the first item of a panel that is no separator, End the last one.
pub proof fn law_home_and_end_select_the_outermost<'b, S: Arithmetic, I>(
    menu: Menu<'b, S, I>,
    m: MenuBarModel<S>,
    items: Seq<MenuTree<I>>,
    i: int,
    mnemonics: bool,
    viewport_width: S,
    rtl: bool,
)
    requires
        shows_root_panel(menu, m, items),
        0 <= i < items.len(),
        !items[i].is_separator,
    ensures
        ({
            let home = menu.named_key_model(m, Named::Home, mnemonics, viewport_width, rtl);
            let end = menu.named_key_model(m, Named::End, mnemonics, viewport_width, rtl);
            let first = home.state.menu_states[0].index;
            let last = end.state.menu_states[0].index;
            &&& first matches Some(f) && f <= i && !items[f as int].is_separator
            &&& last matches Some(l) && i <= l < items.len() && !items[l as int].is_separator
        }),
{
    let mask = selectable_mask(items);
    reveal_with_fuel(crate::menu::tree::items_at, 2);
    assert(m.active_root.subrange(1, 1) =~= Seq::empty());
    assert(menu.active_items(m) == items);
    assert(m.menu_states.last() == m.menu_states[0]);
    assert(marked(mask, i));
    assert(menu.menu_roots@[m.active_root[0] as int].children.len() == items.len());
    law_home_and_end(mask);
}

/// A panel opens with its first item selected that is no separator, or none if there is none, and
/// unscrolled, behind the panels that were open.
pub proof fn law_panel_opens_with_its_first_item<'b, S: Arithmetic, I>(
    menu: Menu<'b, S, I>,
    m: MenuBarModel<S>,
    pending: Pending<S>,
    bounds: MenuBounds<S>,
    i: int,
)
    requires
        pending is OpenRoot,
        pending->index < menu.menu_roots@.len(),
    ensures
        ({
            let items = menu.menu_roots@[pending->index as int].children@;
            let opened = menu.finished(m, pending, bounds);
            let selected = opened.menu_states.last().index;
            &&& opened.menu_states.len() == m.menu_states.len() + 1
            &&& opened.menu_states.drop_last() == m.menu_states
            &&& opened.menu_states.last().menu_bounds == bounds
            &&& opened.menu_states.last().scroll_offset == S::fraction(0, 1)
            &&& opened.active_root == m.active_root.push(pending->index)
            &&& selected matches Some(s) ==> s < items.len() && !items[s as int].is_separator
            &&& 0 <= i < items.len() && !items[i].is_separator ==> selected is Some
                && selected->0 <= i
        }),
{
    let items = menu.menu_roots@[pending->index as int].children@;
    let mask = selectable_mask(items);
    assert(menu.menu_roots@[pending->index as int].children.len() == items.len());
    law_home_and_end(mask);
    let opened = menu.finished(m, pending, bounds);
    assert(opened.menu_states.drop_last() =~= m.menu_states);
    if 0 <= i < items.len() && !items[i].is_separator {
        assert(marked(mask, i));
    }
}

/// Whether an item answers to a letter.
pub open spec fn answers<I>(items: Seq<MenuTree<I>>, letter: char, i: int) -> bool {
    0 <= i < items.len() && items[i].mnemonic == Some(letter) && !items[i].is_separator
}

/// Whether an item is the first that answers to a letter.
pub open spec fn answers_first<I>(items: Seq<MenuTree<I>>, letter: char, i: int) -> bool {
    answers(items, letter, i) && forall|j: int|
        0 <= j < i ==> !#[trigger] answers(items, letter, j)
}

/// A letter activates the first item of the panel that it is the mnemonic of: it is selected, and
/// what it stands for is requested. Other letters are left alone.
pub proof fn law_letter_activates_its_item<'b, S: Arithmetic, I>(
    menu: Menu<'b, S, I>,
    m: MenuBarModel<S>,
    items: Seq<MenuTree<I>>,
    letter: char,
    i: int,
    event: KeyboardEvent,
    viewport_width: S,
    rtl: bool,
)
    requires
        shows_root_panel(menu, m, items),
        event matches KeyboardEvent::KeyPressed { key: Key::Character(text), .. } && text@.len() > 0
            && text@[0] == letter,
        !('A' <= letter <= 'Z'),
    ensures
        ({
            let response = menu.key_model(m, event, true, viewport_width, rtl);
            &&& (forall|j: int| !#[trigger] answers(items, letter, j)) ==> response.status
                == Status::Ignored
                && response.state == m && response.pending is None && response.effects.len() == 0
            &&& answers_first(items, letter, i) ==> {
                &&& response.status == Status::Captured
                &&& response.state.menu_states[0].index == Some(i as usize)
                &&& items[i].children@.len() == 0 && m.active_root[0] < m.tree.len()
                    && items[i].index < m.tree[m.active_root[0] as int] ==> response.pending
                    == Some(
                    Pending::<S>::Activate {
                        root: m.active_root[0],
                        hover: i as usize,
                        tree_index: items[i].index,
                    },
                )
            }
        }),
{
    let mask = letter_mask(items, letter);
    let count = items.len() as int;
    reveal_with_fuel(crate::menu::tree::items_at, 2);
    assert(m.active_root.subrange(1, 1) =~= Seq::empty());
    assert(menu.active_items(m) == items);
    assert(menu.menu_roots@[m.active_root[0] as int].children.len() == items.len());
    if forall|j: int| !#[trigger] answers(items, letter, j) {
        assert forall|j: int| 0 <= j < count implies !marked(
            mask,
            #[trigger] ring_position(0, j, count, true),
        ) by {
            assert(!answers(items, letter, j));
        }
        lemma_pick_is_none(mask, count, 0, true);
    }
    if answers_first(items, letter, i) {
        assert forall|j: int| 0 <= j < i implies !marked(
            mask,
            #[trigger] ring_position(0, j, count, true),
        ) by {
            assert(!answers(items, letter, j));
        }
        lemma_pick_is_hit(mask, count, 0, true, i);
        let chosen = m.selecting(Some(i as usize));
        assert(menu.active_items(chosen) == items);
    }
}

/// The panel of a submenu is asked for next to the item that opens it: where that item is on the
/// screen, to the side on which the menu opens its panels.
pub proof fn law_submenu_opens_at_its_item<'b, I>(
    menu: Menu<'b, Exact, I>,
    m: MenuBarModel<Exact>,
    items: Seq<MenuTree<I>>,
    hover: usize,
    mnemonics: bool,
    viewport_width: Exact,
    rtl: bool,
)
    requires
        shows_root_panel(menu, m, items),
        m.menu_states[0].index == Some(hover),
        m.menu_states[0].menu_bounds.child_sizes@.len() == items.len(),
        m.active_root[0] < m.tree.len(),
        hover < items.len(),
        items[hover as int].children@.len() > 0,
    ensures
        ({
            let response = menu.named_key_model(
                m,
                Named::ArrowRight,
                mnemonics,
                viewport_width,
                rtl,
            );
            let panel = m.menu_states[0];
            let area = panel.menu_bounds.children_bounds;
            let size = panel.menu_bounds.child_sizes@[hover as int];
            &&& response.state == m
            &&& response.pending matches Some(
                Pending::OpenSubmenu { root, hover: h, aod, parent_bounds },
            ) && {
                &&& root == m.active_root[0]
                &&& h == hover
                &&& parent_bounds.x.value == area.x.value
                &&& parent_bounds.y.value == area.y.value
                    + panel.menu_bounds.child_positions@[hover as int].value
                    + panel.scroll_offset.value
                &&& parent_bounds.width == size.width
                &&& parent_bounds.height == size.height
                &&& aod.horizontal_direction == m.horizontal_direction
                &&& aod.vertical_direction == m.vertical_direction
                &&& aod.horizontal && aod.vertical
                &&& !aod.horizontal_overlap && aod.vertical_overlap
                &&& aod.horizontal_offset == Exact::fraction(menu.cross_offset as int, 1)
                &&& aod.vertical_offset.value == 0real
            }
        }),
{
    lemma_fractions();
    reveal_with_fuel(crate::menu::tree::items_at, 2);
    assert(m.active_root.subrange(1, 1) =~= Seq::empty());
    assert(menu.active_items(m) == items);
    assert(m.menu_states.last() == m.menu_states[0]);
}

/// The panel of a root is asked for below the root. In an overlay it opens toward the middle of
/// the view, so that a root in the right half opens to the left and one in the left half to the
/// right; a root in the middle opens to the side that text is read toward.
pub proof fn law_root_opens_toward_the_middle<'b, I>(
    menu: Menu<'b, Exact, I>,
    m: MenuBarModel<Exact>,
    index: int,
    viewport_width: Exact,
    rtl: bool,
)
    requires
        0 <= index < menu.menu_roots@.len(),
        index < menu.root_bounds_list@.len(),
        index < m.tree.len(),
        menu.menu_roots@[index].children@.len() > 0,
    ensures
        ({
            let root = menu.root_bounds_list@[index];
            let response = menu.open_root_model(m, index, viewport_width, rtl);
            let double = 2real * root.x.value + root.width.value;
            &&& response.pending matches Some(
                Pending::OpenRoot { index: i, aod, parent_bounds },
            ) && {
                &&& i == index
                &&& parent_bounds == root
                &&& aod.horizontal && aod.vertical
                &&& aod.horizontal_overlap && !aod.vertical_overlap
                &&& aod.horizontal_offset.value == 0real
                &&& aod.vertical_offset == Exact::fraction(menu.main_offset as int, 1)
                &&& aod.vertical_direction == m.vertical_direction
                &&& !menu.is_overlay ==> aod.horizontal_direction == m.horizontal_direction
                &&& menu.is_overlay && double > viewport_width.value ==> aod.horizontal_direction
                    == Direction::Negative
                &&& menu.is_overlay && double < viewport_width.value ==> aod.horizontal_direction
                    == Direction::Positive
                &&& menu.is_overlay && double == viewport_width.value ==> (
                aod.horizontal_direction == Direction::Negative) == rtl
                &&& response.state.horizontal_direction == aod.horizontal_direction
            }
        }),
{
    lemma_fractions();
    let root = menu.root_bounds_list@[index];
    let w = viewport_width.value;
    let across = root.width.value;
    assert(menu.menu_roots.len() == menu.menu_roots@.len());
    assert(2real / 1real == 2real) by (nonlinear_arith);
    assert(w * (1real / 2real) == w / 2real) by (nonlinear_arith);
    assert(2real * (w / 2real) == w) by (nonlinear_arith);
    assert(2real * (across / 2real) == across) by (nonlinear_arith);
}

/// Enter activates the selected item if it has no submenu and is no separator; the item is told
/// apart by its root, its place in the panel and its place in the flat list. Else Enter opens and
/// activates nothing. Either way the key is taken, and the menu stays as it is until then.
pub proof fn law_enter_activates_the_selected_item<'b, S: Arithmetic, I>(
    menu: Menu<'b, S, I>,
    m: MenuBarModel<S>,
    items: Seq<MenuTree<I>>,
    bounds: MenuBounds<S>,
    mnemonics: bool,
    viewport_width: S,
    rtl: bool,
)
    requires
        shows_root_panel(menu, m, items),
        m.active_root[0] < m.tree.len(),
    ensures
        ({
            let response = menu.named_key_model(m, Named::Enter, mnemonics, viewport_width, rtl);
            let selected = m.menu_states[0].index;
            let acts = match selected {
                Some(i) => i < items.len() && !items[i as int].is_separator
                    && items[i as int].children@.len() == 0 && items[i as int].index
                    < m.tree[m.active_root[0] as int],
                None => false,
            };
            let done = menu.finished(response.state, response.pending->0, bounds);
            &&& response.status == Status::Captured
            &&& response.state == m
            &&& acts ==> response.pending == Some(
                Pending::<S>::Activate {
                    root: m.active_root[0],
                    hover: selected->0,
                    tree_index: items[selected->0 as int].index,
                },
            ) && !done.open && done.menu_states.len() == 0 && done.active_root.len() == 0
            &&& !acts ==> response.pending is None && response.effects == seq![
                MenuEffect::RequestRedraw,
            ]
        }),
{
    reveal_with_fuel(crate::menu::tree::items_at, 2);
    assert(m.active_root.subrange(1, 1) =~= Seq::empty());
    assert(menu.active_items(m) == items);
    assert(m.menu_states.last() == m.menu_states[0]);
}

/// A panel that has opened is laid out and drawn. Where focus is followed, it first goes to the
/// item that the panel opened with: in the first panel for a root, and in an overlay behind the
/// last panel for a submenu.
pub proof fn law_focus_goes_to_the_first_item<'b, S: Arithmetic, I>(
    menu: Menu<'b, S, I>,
    m: MenuBarModel<S>,
    pending: Pending<S>,
    bounds: MenuBounds<S>,
)
    requires
        pending is OpenRoot || pending is OpenSubmenu,
        m.menu_states.len() <= usize::MAX,
    ensures
        ({
            let opened = menu.finished(m, pending, bounds);
            let selected = opened.menu_states.last().index;
            let effects = menu.finish_effects(m, pending);
            let refresh = seq![MenuEffect::InvalidateLayout, MenuEffect::RequestRedraw];
            let root = match pending {
                Pending::OpenRoot { index, .. } => index,
                Pending::OpenSubmenu { root, .. } => root,
                Pending::Activate { root, .. } => root,
            };
            let panel = if pending is OpenRoot {
                0usize
            } else {
                (opened.menu_states.len() - 1) as usize
            };
            &&& effects == (if menu.accessible && selected is Some {
                seq![MenuEffect::FocusItem { root, panel, item: selected->0 }] + refresh
            } else {
                refresh
            })
        }),
{
    let refresh = seq![MenuEffect::InvalidateLayout, MenuEffect::RequestRedraw];
    assert(Seq::<MenuEffect>::empty() + refresh =~= refresh);
}

/// Alt shows the mnemonics while it is held, with their underlines. Without mnemonics it is left
/// alone.
pub proof fn law_alt_shows_underlines<'b, S: Arithmetic, I>(
    menu: Menu<'b, S, I>,
    m: MenuBarModel<S>,
    shift: bool,
    viewport_width: S,
    rtl: bool,
    mnemonics: bool,
)
    ensures
        ({
            let press = KeyboardEvent::KeyPressed { key: Key::Named(Named::Alt), shift };
            let release = KeyboardEvent::KeyReleased { key: Key::Named(Named::Alt) };
            let pressed = menu.key_model(m, press, mnemonics, viewport_width, rtl);
            let released = menu.key_model(m, release, mnemonics, viewport_width, rtl);
            &&& mnemonics ==> {
                &&& pressed.status == Status::Captured && released.status == Status::Captured
                &&& pressed.effects[0] == MenuEffect::ShowUnderlines(true)
                &&& released.effects[0] == MenuEffect::ShowUnderlines(false)
                &&& pressed.state == (MenuBarModel { alt_pressed: true, show_mnemonics: true, ..m })
                &&& released.state == (MenuBarModel {
                    alt_pressed: false,
                    show_mnemonics: false,
                    ..m
                })
            }
            &&& !mnemonics ==> {
                &&& pressed.status == Status::Ignored && released.status == Status::Ignored
                &&& pressed.effects.len() == 0 && released.effects.len() == 0
                &&& pressed.state == m && released.state == m
            }
        }),
{
}

/// A capital letter does what the small letter does: both are the same letter of the alphabet.
pub proof fn law_capitals_are_letters_too(c: char)
    ensures
        'A' <= c <= 'Z' ==> ascii_lower(c) as int - 'a' as int == c as int - 'A' as int,
        !('A' <= c <= 'Z') ==> ascii_lower(c) == c,
{
}

/// The left arrow key closes the last submenu of an overlay and goes back to the item that opened
/// it, which has the focus again where focus is followed.
pub proof fn law_left_goes_back_to_the_opener<'b, S: Arithmetic, I>(
    menu: Menu<'b, S, I>,
    m: MenuBarModel<S>,
    mnemonics: bool,
    viewport_width: S,
    rtl: bool,
)
    requires
        menu.is_overlay,
        m.open,
        m.active_root.len() == m.menu_states.len(),
        m.menu_states.len() > 1,
        m.menu_states.len() <= usize::MAX,
    ensures
        ({
            let left = menu.named_key_model(
                m,
                Named::ArrowLeft,
                mnemonics,
                viewport_width,
                rtl,
            );
            let before = m.menu_states.len() - 2;
            let opener = m.active_root[before + 1];
            let refresh = seq![MenuEffect::InvalidateLayout, MenuEffect::RequestRedraw];
            &&& left.state.menu_states.len() == before + 1
            &&& left.state.menu_states[before].index == Some(opener)
            &&& left.state.active_root == m.active_root.take(before + 1)
            &&& left.pending is None
            &&& left.effects == (if menu.accessible {
                seq![
                    MenuEffect::FocusItem {
                        root: m.active_root[0],
                        panel: before as usize,
                        item: opener,
                    },
                ] + refresh
            } else {
                refresh
            })
        }),
{
    let left = menu.named_key_model(m, Named::ArrowLeft, mnemonics, viewport_width, rtl);
    let before = m.menu_states.len() - 2;
    let refresh = seq![MenuEffect::InvalidateLayout, MenuEffect::RequestRedraw];
    assert(left.state.active_root =~= m.active_root.take(before + 1));
    assert(left.state.menu_states.last() == left.state.menu_states[before]);
    assert(Seq::<MenuEffect>::empty() + refresh =~= refresh);
}

/// Outside of an overlay a submenu takes the place of the panels behind the first one; in an
/// overlay it comes behind all of them. Everything else stays as it is.
pub proof fn law_submenu_comes_behind_its_panel<'b, S: Arithmetic, I>(
    menu: Menu<'b, S, I>,
    m: MenuBarModel<S>,
    pending: Pending<S>,
    bounds: MenuBounds<S>,
)
    requires
        pending is OpenSubmenu,
        m.menu_states.len() > 0,
    ensures
        ({
            let opened = menu.finished(m, pending, bounds);
            let kept = if menu.is_overlay {
                m.menu_states.len() as int
            } else {
                1int
            };
            &&& opened.menu_states.len() == kept + 1
            &&& opened.menu_states.take(kept) == m.menu_states.take(kept)
            &&& opened.menu_states.last().menu_bounds == bounds
            &&& opened.active_root == (if menu.is_overlay {
                m.active_root.push(pending->OpenSubmenu_hover)
            } else {
                m.active_root
            })
            &&& opened.open == m.open
            &&& opened.horizontal_direction == m.horizontal_direction
        }),
{
    let opened = menu.finished(m, pending, bounds);
    let kept = if menu.is_overlay {
        m.menu_states.len() as int
    } else {
        1int
    };
    assert(opened.menu_states.take(kept) =~= m.menu_states.take(kept));
}

/// Keys that have no meaning in a menu are left alone, and so are letters where there are no
/// mnemonics.
pub proof fn law_other_keys_are_left_alone<'b, S: Arithmetic, I>(
    menu: Menu<'b, S, I>,
    m: MenuBarModel<S>,
    event: KeyboardEvent,
    mnemonics: bool,
    viewport_width: S,
    rtl: bool,
)
    requires
        match event {
            KeyboardEvent::KeyPressed { key: Key::Named(named), .. } => named == Named::Tab || named
                == Named::PageUp || named == Named::PageDown || named == Named::Backspace || named
                == Named::Delete || named is Other,
            KeyboardEvent::KeyPressed { key: Key::Character(_), .. } => !mnemonics,
            KeyboardEvent::KeyPressed { key: Key::Unidentified, .. } => true,
            KeyboardEvent::KeyReleased { key } => key != Key::Named(Named::Alt),
            KeyboardEvent::ModifiersChanged => true,
        },
    ensures
        ({
            let response = menu.key_model(m, event, mnemonics, viewport_width, rtl);
            &&& response.status == Status::Ignored
            &&& response.state == m
            &&& response.effects.len() == 0
            &&& response.pending is None
        }),
{
}

/// While nothing is selected in a panel, the down arrow key does what Home does, and the up arrow
/// key what End does.
pub proof fn law_arrows_without_a_selection<'b, S: Arithmetic, I>(
    menu: Menu<'b, S, I>,
    m: MenuBarModel<S>,
    mnemonics: bool,
    viewport_width: S,
    rtl: bool,
)
    requires
        m.menu_states.len() > 0,
        m.menu_states.last().index is None,
    ensures
        menu.named_key_model(m, Named::ArrowDown, mnemonics, viewport_width, rtl)
            == menu.named_key_model(m, Named::Home, mnemonics, viewport_width, rtl),
        menu.named_key_model(m, Named::ArrowUp, mnemonics, viewport_width, rtl)
            == menu.named_key_model(m, Named::End, mnemonics, viewport_width, rtl),
{
}

/// Without an item that is no separator, the keys that move within a panel leave the menu as it
/// is; so they do while no panel shows.
pub proof fn law_moves_need_an_item<'b, S: Arithmetic, I>(
    menu: Menu<'b, S, I>,
    m: MenuBarModel<S>,
    items: Seq<MenuTree<I>>,
    named: Named,
    mnemonics: bool,
    viewport_width: S,
    rtl: bool,
)
    requires
        named == Named::ArrowUp || named == Named::ArrowDown || named == Named::Home || named
            == Named::End,
        !m.open || m.menu_states.len() == 0 || (shows_root_panel(menu, m, items) && forall|i: int|
            0 <= i < items.len() ==> (#[trigger] items[i]).is_separator),
    ensures
        ({
            let response = menu.named_key_model(m, named, mnemonics, viewport_width, rtl);
            &&& response.status == Status::Captured
            &&& response.state == m
            &&& response.pending is None
            &&& response.effects == seq![MenuEffect::RequestRedraw]
        }),
{
    assert(Seq::<MenuEffect>::empty().push(MenuEffect::RequestRedraw) =~= seq![
        MenuEffect::RequestRedraw,
    ]);
    if m.open && m.menu_states.len() > 0 {
        let count = items.len() as int;
        let mask = selectable_mask(items);
        reveal_with_fuel(crate::menu::tree::items_at, 2);
        assert(m.active_root.subrange(1, 1) =~= Seq::empty());
        assert(menu.active_items(m) == items);
        let index = m.menu_states.last().index;
        lemma_pick_is_none(mask, count, start_below(index, count), true);
        lemma_pick_is_none(mask, count, start_above(index, count), false);
        lemma_pick_is_none(mask, count, 0, true);
        lemma_pick_is_none(mask, count, count - 1, false);
    }
}

/// A root without items is not opened, and what is open stays open.
pub proof fn law_hollow_root_is_not_opened<'b, S: Arithmetic, I>(
    menu: Menu<'b, S, I>,
    m: MenuBarModel<S>,
    index: int,
    viewport_width: S,
    rtl: bool,
)
    requires
        0 <= index < menu.menu_roots@.len(),
        menu.menu_roots@[index].children@.len() == 0,
    ensures
        ({
            let response = menu.open_root_model(m, index, viewport_width, rtl);
            &&& response.state == m
            &&& response.pending is None
            &&& response.effects == seq![MenuEffect::InvalidateLayout, MenuEffect::RequestRedraw]
        }),
{
}

} // verus!
