//! What holds of keyboard navigation as a whole.
use vstd::prelude::*;

use crate::event::{Key, KeyboardEvent, Named, Status};
use crate::menu::overlay::{Menu, Pending};
use crate::menu::selection::{law_pick_is_marked, selectable_mask, start_above, start_below};
use crate::menu::state::{MenuBarModel, MenuBounds, MenuState};
use crate::scalar::Arithmetic;

verus! {

/// Arrow left undoes arrow right: once a submenu was opened, closing it gives back the menu as it
/// was, with the item that opened it selected. Outside of an overlay, where the active path holds
/// the root alone, a submenu takes the place of the panels below the first one, which do not come
/// back.
pub proof fn law_left_undoes_right<'b, S: Arithmetic, I>(
    menu: Menu<'b, S, I>,
    m: MenuBarModel<S>,
    mnemonics: bool,
    viewport_width: S,
    rtl: bool,
    bounds: MenuBounds<S>,
)
    requires
        menu.submenu_request(m) is Some,
        menu.is_overlay || m.active_root.len() == 1,
    ensures
        ({
            let right = menu.named_key_model(m, Named::ArrowRight, mnemonics, viewport_width, rtl);
            let opened = menu.finished(right.state, right.pending->0, bounds);
            let left = menu.named_key_model(
                opened,
                Named::ArrowLeft,
                mnemonics,
                viewport_width,
                rtl,
            );
            &&& right.pending == menu.submenu_request(m)
            &&& left.state == (if menu.is_overlay {
                m
            } else {
                MenuBarModel { menu_states: m.menu_states.take(1), ..m }
            })
            &&& m.menu_states.len() == 1 ==> left.state == m
            &&& left.status == Status::Captured
        }),
{
    let right = menu.named_key_model(m, Named::ArrowRight, mnemonics, viewport_width, rtl);
    let opened = menu.finished(right.state, right.pending->0, bounds);
    let left = menu.named_key_model(opened, Named::ArrowLeft, mnemonics, viewport_width, rtl);
    let hover = m.menu_states.last().index->0;
    let last = m.menu_states.len() - 1;
    if menu.is_overlay {
        assert(opened.active_root.drop_last() =~= m.active_root);
        assert(opened.menu_states.drop_last() =~= m.menu_states);
        assert(opened.active_root.last() == hover);
        assert(m.menu_states.update(
            last,
            MenuState { index: Some(hover), ..m.menu_states[last] },
        ) =~= m.menu_states);
        assert(left.state =~= m);
    } else {
        assert(opened.menu_states.drop_last() =~= m.menu_states.take(1));
        if m.menu_states.len() == 1 {
            assert(m.menu_states.take(1) =~= m.menu_states);
        }
    }
}

/// In an overlay every open panel has its place on the active path, whatever key is pressed.
pub proof fn law_keys_keep_panels_on_path<'b, S: Arithmetic, I>(
    menu: Menu<'b, S, I>,
    m: MenuBarModel<S>,
    event: KeyboardEvent,
    mnemonics: bool,
    viewport_width: S,
    rtl: bool,
    bounds: MenuBounds<S>,
)
    requires
        menu.is_overlay,
        m.panels_on_path(),
    ensures
        ({
            let outcome = menu.key_model(m, event, mnemonics, viewport_width, rtl);
            &&& outcome.state.panels_on_path()
            &&& outcome.pending matches Some(p) ==> menu.finished(
                outcome.state,
                p,
                bounds,
            ).panels_on_path()
        }),
{
}

/// Escape closes an open menu completely.
pub proof fn law_escape_closes<'b, S: Arithmetic, I>(
    menu: Menu<'b, S, I>,
    m: MenuBarModel<S>,
    mnemonics: bool,
    viewport_width: S,
    rtl: bool,
)
    requires
        m.open,
    ensures
        ({
            let outcome = menu.named_key_model(m, Named::Escape, mnemonics, viewport_width, rtl);
            &&& !outcome.state.open
            &&& outcome.state.active_root.len() == 0
            &&& outcome.state.menu_states.len() == 0
            &&& outcome.status == Status::Captured
        }),
{
}

/// The keys that move within a panel select nothing but items that are no separators, and
/// leave the rest of the menu alone.
pub proof fn law_moves_skip_separators<'b, S: Arithmetic, I>(
    menu: Menu<'b, S, I>,
    m: MenuBarModel<S>,
    named: Named,
)
    requires
        menu.active_items(m).len() <= usize::MAX,
    ensures
        menu.moved_to(m, named) matches Some(i) ==> {
            &&& i < menu.active_items(m).len()
            &&& !menu.active_items(m)[i as int].is_separator
        },
        ({
            let after = menu.move_model(m, named).state;
            &&& after.active_root == m.active_root
            &&& after.menu_states.len() == m.menu_states.len()
            &&& after.open == m.open
            &&& forall|k: int|
                0 <= k < m.menu_states.len() - 1 ==> after.menu_states[k] == m.menu_states[k]
        }),
{
    let mask = selectable_mask(menu.active_items(m));
    let count = Menu::<'b, S, I>::laid_out(m);
    let index = m.menu_states.last().index;
    law_pick_is_marked(mask, count, start_above(index, count), false);
    law_pick_is_marked(mask, count, start_below(index, count), true);
    law_pick_is_marked(mask, count, 0, true);
    law_pick_is_marked(mask, count, count - 1, false);
}

/// Releasing Alt hides the mnemonics that pressing it has shown.
pub proof fn law_alt_release_hides<'b, S: Arithmetic, I>(
    menu: Menu<'b, S, I>,
    m: MenuBarModel<S>,
    viewport_width: S,
    rtl: bool,
)
    requires
        !m.alt_pressed,
        !m.show_mnemonics,
    ensures
        ({
            let shown = menu.named_key_model(m, Named::Alt, true, viewport_width, rtl).state;
            let hidden = menu.key_model(
                shown,
                KeyboardEvent::KeyReleased { key: Key::Named(Named::Alt) },
                true,
                viewport_width,
                rtl,
            ).state;
            shown.show_mnemonics && hidden == m
        }),
{
}

/// Whatever is activated is an item without a submenu that is no separator.
pub proof fn law_only_leaves_activate<'b, S: Arithmetic, I>(
    menu: Menu<'b, S, I>,
    m: MenuBarModel<S>,
)
    ensures
        menu.activation(m) matches Some(Pending::Activate { hover, tree_index, .. }) ==> {
            let items = menu.active_items(m);
            &&& m.menu_states.last().index == Some(hover)
            &&& hover < items.len()
            &&& !items[hover as int].is_separator
            &&& items[hover as int].children@.len() == 0
            &&& items[hover as int].index == tree_index
        },
{
}

} // verus!
