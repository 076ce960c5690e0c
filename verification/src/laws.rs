use vstd::prelude::*;
use crate::board::{BoardView, caps_for};
use crate::board_files::{close_requested_post, open_post, style_in_place};
use crate::board_input::{
    capture, caps_lock_pressed, elapsed_since, wheel_has_room, key_press_post, key_release_post, wheel_direction,
    wheel_post,
};
use crate::board::release_scroll_post;
use crate::board_update::{update_allowed, update_post};
use crate::board_edit::new_id;
use crate::layout::{ElementView, max_id};
use crate::codes::strictly_increasing;
use crate::events::{EffectView, InputEventView, KeyInputView, Message, Redraw};
use crate::keyboard::{element_pressed, pressed_codes};
use crate::options::{dir_names_except, DirEntryView};
use crate::popups::Action;
use crate::board::{push_change_post, undo_post};
use crate::canvas::{CanvasEventView, CanvasMessage, CanvasReply, CanvasState, Interaction, canvas_post};
use crate::choices::StyleChoiceView;
use crate::events::Change;
use crate::history::lemma_undo_after_push;
use crate::options::spec_style_options;
use crate::style::{KeyState, StyleView, SubStyleChangeView, spec_key_style_changed};
use crate::windows::WindowId;

verus! {

/// Whether the capitalized texts agree with the capitalization setting: always for `Upper`,
/// never for `Lower`, and with caps lock for `Follow`.
pub open spec fn caps_consistent<F>(b: BoardView<F>) -> bool {
    b.caps == caps_for(b.settings.capitalization, b.true_caps)
}

/// Law: every message keeps the capitalized texts in agreement with the capitalization
/// setting (a new board starts in agreement).
pub proof fn lemma_update_keeps_caps_consistent<F>(
    old: BoardView<F>,
    m: Message<F>,
    new: BoardView<F>,
    effects: Seq<EffectView<F>>,
)
    requires
        old.wf(),
        caps_consistent(old),
        update_post(old, m, new, effects),
    ensures
        caps_consistent(new),
{
    reveal(capture);
    reveal(caps_lock_pressed);
    reveal(style_in_place);
}

/// Law: a wheel movement, then the release it queues, leave the counts of queued scroll
/// releases as they were.
pub proof fn lemma_wheel_then_release<F>(
    old: BoardView<F>,
    delta_x: i64,
    delta_y: i64,
    mid: BoardView<F>,
    e1: Seq<EffectView<F>>,
    new: BoardView<F>,
    e2: Seq<EffectView<F>>,
)
    requires
        old.wf(),
        wheel_has_room(old, InputEventView::Wheel { delta_x, delta_y }),
        wheel_post(old, delta_x, delta_y, mid, e1),
        release_scroll_post(mid, wheel_direction(delta_x, delta_y), new, e2),
    ensures
        e1[0] == (EffectView::<F>::ReleaseScrollAfter {
            millis: old.settings.scroll_hold_time,
            button: wheel_direction(delta_x, delta_y),
        }),
        new.pressed_scroll_buttons == old.pressed_scroll_buttons,
{
    reveal(capture);
    let dir = wheel_direction(delta_x, delta_y);
    let m = old.pressed_scroll_buttons;
    if m.contains_key(dir) {
        assert(m[dir] > 0);
        assert(mid.pressed_scroll_buttons[dir] == m[dir] + 1);
        assert(new.pressed_scroll_buttons =~= m.insert(dir, m[dir]));
    } else {
        assert(mid.pressed_scroll_buttons[dir] == 1);
        assert(new.pressed_scroll_buttons =~= m.insert(dir, 1).remove(dir));
    }
    assert(new.pressed_scroll_buttons =~= m);
}

/// Law: a release of a key that is not pressed changes nothing and asks for nothing.
pub proof fn lemma_release_without_press_is_ignored<F>(
    old: BoardView<F>,
    key: KeyInputView,
    now: u64,
    new: BoardView<F>,
    effects: Seq<EffectView<F>>,
)
    requires
        key.code matches Some(code) && !old.pressed_keys.contains_key(code),
        key_release_post(old, key, now, new, effects),
    ensures
        new == old,
        effects.len() == 0,
{
}

/// Law: a key pressed and released no sooner than the minimum press time is no longer
/// pressed; released sooner, the release is delivered again when the minimum press time is
/// up, and the key stays pressed meanwhile.
pub proof fn lemma_press_then_release<F>(
    old: BoardView<F>,
    key: KeyInputView,
    pressed_at: u64,
    released_at: u64,
    mid: BoardView<F>,
    e1: Seq<EffectView<F>>,
    new: BoardView<F>,
    e2: Seq<EffectView<F>>,
)
    requires
        key.code is Some,
        !key.caps_lock,
        pressed_at <= released_at,
        key_press_post(old, key, pressed_at, mid, e1),
        key_release_post(mid, key, released_at, new, e2),
    ensures
        released_at - pressed_at >= old.settings.min_press_time ==> new.pressed_keys
            == old.pressed_keys.remove(key.code->0) && e2 == seq![
            EffectView::<F>::Redraw(Redraw::KeyCode(key.code->0)),
        ],
        released_at - pressed_at < old.settings.min_press_time ==> new == mid && e2 == seq![
            EffectView::<F>::RedeliverAfter {
                millis: (old.settings.min_press_time - (released_at - pressed_at)) as u64,
                event: InputEventView::KeyRelease(key),
            },
        ],
{
    reveal(capture);
    let code = key.code->0;
    assert(mid.pressed_keys.contains_key(code));
    assert(elapsed_since(released_at, pressed_at) == released_at - pressed_at);
    if released_at - pressed_at >= old.settings.min_press_time {
        assert(new.pressed_keys =~= old.pressed_keys.remove(code));
    }
}

/// Law: a pressed code is captured by every element waiting for one, and afterwards none
/// waits.
pub proof fn lemma_capture_reaches_every_waiting_element<F>(b: BoardView<F>, code: u32, i: usize)
    requires
        b.detecting.contains(i),
    ensures
        capture(b, code).number_input.keycode.contains_key(i),
        capture(b, code).number_input.keycode[i] == code,
        capture(b, code).detecting.len() == 0,
{
    reveal(capture);
}

/// Law: with unsaved changes and no question open yet, asking to load a keyboard only asks
/// whether the changes may be discarded.
pub proof fn lemma_unsaved_changes_ask_before_loading<F>(
    old: BoardView<F>,
    new: BoardView<F>,
    effects: Seq<EffectView<F>>,
)
    requires
        old.has_unsaved_changes(),
        !old.windows.any_of(WindowId::UnsavedChangesPopup(Action::LoadKeyboard)),
        open_post(old, WindowId::LoadKeyboard, new, effects),
    ensures
        new == old.opened(WindowId::UnsavedChangesPopup(Action::LoadKeyboard)),
        effects == seq![
            EffectView::<F>::OpenWindow {
                id: old.windows.next_id,
                window: WindowId::UnsavedChangesPopup(Action::LoadKeyboard),
            },
        ],
{
}

/// Law: closing with unsaved changes and no question open yet neither stores the settings
/// nor closes a window; without unsaved changes it stores the settings first and closes every
/// open window.
pub proof fn lemma_close_stores_settings_only_when_saved<F>(
    old: BoardView<F>,
    new: BoardView<F>,
    effects: Seq<EffectView<F>>,
)
    requires
        close_requested_post(old, new, effects),
    ensures
        old.has_unsaved_changes() && !old.windows.any_of(WindowId::UnsavedChangesPopup(Action::Exit))
            ==> !effects.contains(EffectView::<F>::StoreSettings),
        !old.has_unsaved_changes() ==> effects[0] == EffectView::<F>::StoreSettings && (
        !old.windows.windows.is_empty() ==> effects[1] == EffectView::<F>::CloseWindows(
            old.windows.windows.dom(),
        )),
{
    if old.has_unsaved_changes() && !old.windows.any_of(WindowId::UnsavedChangesPopup(Action::Exit)) {
        assert(effects.len() == 1);
        if effects.contains(EffectView::<F>::StoreSettings) {
            let k = choose|k: int| 0 <= k < effects.len() && effects[k] == EffectView::<F>::StoreSettings;
            assert(k == 0);
        }
    }
}

/// Law: an element shows as pressed only when every one of its codes is pressed; one code
/// pressed out of several is not enough.
pub proof fn lemma_pressed_needs_every_code<F>(b: BoardView<F>, index: int, k: int)
    requires
        0 <= index < b.elements.len(),
        0 <= k < b.elements[index].key_codes.len(),
        !pressed_codes(b, b.elements[index].kind).contains(b.elements[index].key_codes[k]),
    ensures
        !element_pressed(b, index),
{
}

/// Law: key codes kept as a strictly increasing list have no repeats.
pub proof fn lemma_sorted_codes_have_no_repeats(codes: Seq<u32>)
    requires
        strictly_increasing(codes),
    ensures
        codes.no_duplicates(),
{
    assert forall|i: int, j: int| 0 <= i < codes.len() && 0 <= j < codes.len() && i != j implies codes[i]
        != codes[j] by {
        if i < j {
            assert(codes[i] < codes[j]);
        } else {
            assert(codes[j] < codes[i]);
        }
    }
}

/// Law: the directory names listed as choices never include the excluded name (`images`
/// among layouts, `global` among categories).
pub proof fn lemma_excluded_name_never_listed(entries: Seq<DirEntryView>, excluded: Seq<char>)
    ensures
        !dir_names_except(entries, excluded).contains(excluded),
    decreases entries.len(),
{
    if entries.len() > 0 {
        lemma_excluded_name_never_listed(entries.drop_last(), excluded);
        let rest = dir_names_except(entries.drop_last(), excluded);
        let e = entries.last();
        if e.is_dir && e.name != excluded {
            assert forall|k: int| 0 <= k < rest.push(e.name).len() implies rest.push(e.name)[k]
                != excluded by {
                if k < rest.len() {
                    assert(rest.push(e.name)[k] == rest[k]);
                }
            }
        }
    }
}

/// Law: undoing right after an edit is recorded hands that edit back to be reverted.
pub proof fn lemma_undo_reverts_last_edit<F>(
    old: BoardView<F>,
    change: Change<F>,
    mid: BoardView<F>,
    new: BoardView<F>,
    effects: Seq<EffectView<F>>,
)
    requires
        old.wf(),
        push_change_post(old, change, mid),
        undo_post(mid, new, effects),
    ensures
        effects == seq![EffectView::<F>::ApplyChange { change, undo: true }],
        !new.layout_commited,
{
    lemma_undo_after_push(old.history, change);
}

/// Law: once a layout is loaded, the built-in default style is the first style to choose
/// from, and the chosen one.
pub proof fn lemma_default_style_comes_first(
    layout_dir: Seq<DirEntryView>,
    global_dir: Seq<DirEntryView>,
)
    ensures
        spec_style_options(layout_dir, global_dir).len() > 0,
        spec_style_options(layout_dir, global_dir)[0] == StyleChoiceView::Default,
{
}

/// Law: a change to one key's own style leaves the other elements' styles as they were.
pub proof fn lemma_key_style_change_is_local<F>(
    s: StyleView<F>,
    id: u32,
    other: u32,
    state: KeyState,
    c: SubStyleChangeView<F>,
)
    requires
        other != id,
    ensures
        spec_key_style_changed(s, id, state, c).element_styles.contains_key(other)
            == s.element_styles.contains_key(other),
        s.element_styles.contains_key(other) ==> spec_key_style_changed(
            s,
            id,
            state,
            c,
        ).element_styles[other] == s.element_styles[other],
{
}

/// Law: in edit mode, a click (press and release without dragging) with nothing selected
/// selects the hovered element and holds nothing.
pub proof fn lemma_click_selects_hovered(
    old: CanvasState,
    hovered: Option<usize>,
    mid: CanvasState,
    r1: CanvasReply,
    new: CanvasState,
    r2: CanvasReply,
)
    requires
        old.selected_element is None,
        canvas_post(old, true, hovered, true, CanvasEventView::LeftPressed, mid, r1),
        canvas_post(mid, true, hovered, true, CanvasEventView::LeftReleased(false), new, r2),
    ensures
        new.selected_element == hovered,
        new.held_element is None,
        new.interaction == Interaction::Idle,
        r2.message == Some(CanvasMessage::UpdateCanvas),
{
}

/// Law: in edit mode, dragging the hovered element and letting go records the drag of that
/// element and selects it.
pub proof fn lemma_drag_records_move(
    old: CanvasState,
    index: usize,
    mid: CanvasState,
    r1: CanvasReply,
    new: CanvasState,
    r2: CanvasReply,
)
    requires
        old.selected_element is None,
        canvas_post(old, true, Some(index), true, CanvasEventView::LeftPressed, mid, r1),
        canvas_post(mid, true, Some(index), true, CanvasEventView::LeftReleased(true), new, r2),
    ensures
        r2.message == Some(CanvasMessage::PushMove(index)),
        new.selected_element == Some(index),
        new.held_element is None,
{
}

/// Law: every message keeps the edit history well formed (its undo depth within its
/// length).
pub proof fn lemma_update_keeps_history_well_formed<F>(
    old: BoardView<F>,
    m: Message<F>,
    new: BoardView<F>,
    effects: Seq<EffectView<F>>,
)
    requires
        old.wf(),
        update_post(old, m, new, effects),
    ensures
        new.history.wf(),
{
    reveal(capture);
    reveal(caps_lock_pressed);
    reveal(style_in_place);
}

/// Law: an undo with nothing left to undo, and a redo with nothing to redo, change nothing and
/// ask for nothing.
pub proof fn lemma_undo_redo_at_the_ends_change_nothing<F>(
    old: BoardView<F>,
    m: Message<F>,
    new: BoardView<F>,
    effects: Seq<EffectView<F>>,
)
    requires
        old.wf(),
        (m is Undo && !old.history.can_undo()) || (m is Redo && !old.history.can_redo()),
        update_post(old, m, new, effects),
    ensures
        new == old,
        effects.len() == 0,
{
    assert(new.history =~= old.history);
}

/// Element ids are pairwise distinct.
pub open spec fn ids_distinct<F>(elements: Seq<ElementView<F>>) -> bool {
    forall|i: int, j: int|
        0 <= i < j < elements.len() ==> #[trigger] elements[i].id != #[trigger] elements[j].id
}

/// No element id is above the largest one.
pub proof fn lemma_max_id_bounds_every_id<F>(elements: Seq<ElementView<F>>)
    ensures
        forall|i: int| 0 <= i < elements.len() ==> #[trigger] elements[i].id <= max_id(elements),
    decreases elements.len(),
{
    if elements.len() > 0 {
        let rest = elements.drop_last();
        lemma_max_id_bounds_every_id(rest);
        assert forall|i: int| 0 <= i < elements.len() implies #[trigger] elements[i].id <= max_id(
            elements,
        ) by {
            if i < elements.len() - 1 {
                assert(elements[i] == rest[i]);
            }
        }
    }
}

/// Law: adding an element appends it with the id one more than the largest id, so element
/// ids that were distinct stay distinct.
pub proof fn lemma_added_element_keeps_ids_distinct<F>(
    old: BoardView<F>,
    m: Message<F>,
    new: BoardView<F>,
    effects: Seq<EffectView<F>>,
)
    requires
        old.wf(),
        m is AddKeyboardKey || m is AddMouseKey || m is AddMouseScroll || m is AddMouseSpeedIndicator,
        update_allowed(old, m),
        update_post(old, m, new, effects),
        ids_distinct(old.elements),
    ensures
        new.elements.drop_last() == old.elements,
        new.elements.len() == old.elements.len() + 1,
        new.elements.last().id == max_id(old.elements) + 1,
        ids_distinct(new.elements),
        effects.len() == 0,
{
    assert(new.elements.drop_last() =~= old.elements);
    assert(new.elements.last().id == new_id(old));
    lemma_max_id_bounds_every_id(old.elements);
    assert forall|i: int, j: int| 0 <= i < j < new.elements.len() implies
        #[trigger] new.elements[i].id != #[trigger] new.elements[j].id by {
        assert(new.elements[i] == old.elements[i]);
        if j < old.elements.len() {
            assert(new.elements[j] == old.elements[j]);
        }
    }
}

} // verus!
