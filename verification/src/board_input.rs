use vstd::prelude::*;
use crate::board::{BoardView, NuhxBoard, opens};
use crate::error::{ErrorView, NuhxBoardError};
use crate::events::{
    Effect, EffectView, InputEvent, InputEventView, KeyInput, KeyInputView, Redraw, effect_views,
};
use crate::inputs::NumberInputView;
use crate::mouse::{
    MouseButton, is_scroll_wheel_button, mouse_button_code_convert, spec_is_scroll_wheel_button,
    spec_mouse_button_code,
};
use crate::settings::Capitalization;
use crate::windows::WindowId;

verus! {

broadcast use vstd::std_specs::hash::group_hash_axioms;

/// Milliseconds from `then` to `now`; none when `now` is not later.
pub open spec fn elapsed_since(now: u64, then: u64) -> u64 {
    if now >= then {
        (now - then) as u64
    } else {
        0
    }
}

/// The scroll direction a wheel movement shows: left (3), right (2), up (1) or down (0).
/// Horizontal movement wins over vertical.
pub open spec fn wheel_direction(delta_x: i64, delta_y: i64) -> u32 {
    if delta_x < 0 {
        3
    } else if delta_x > 0 {
        2
    } else if delta_y < 0 {
        1
    } else {
        0
    }
}

/// The board after a code is captured: when elements are waiting for a code, each gets it
/// typed into its key code input, and none waits any more.
#[verifier::opaque]
pub open spec fn capture<F>(b: BoardView<F>, code: u32) -> BoardView<F> {
    if b.detecting.len() > 0 {
        BoardView {
            number_input: NumberInputView {
                keycode: b.number_input.keycode.union_prefer_right(
                    Map::new(|i: usize| b.detecting.contains(i), |i: usize| code),
                ),
                ..b.number_input
            },
            detecting: Seq::empty(),
            ..b
        }
    } else {
        b
    }
}

/// The board after a caps lock press: the caps lock state flips, and so do the capitalized
/// texts when capitalization follows the keyboard.
#[verifier::opaque]
pub open spec fn caps_lock_pressed<F>(b: BoardView<F>) -> BoardView<F> {
    BoardView {
        true_caps: !b.true_caps,
        caps: if b.settings.capitalization == Capitalization::Follow {
            !b.caps
        } else {
            b.caps
        },
        ..b
    }
}

/// A wheel movement can be counted: the direction's count of queued releases has room.
pub open spec fn wheel_has_room<F>(b: BoardView<F>, event: InputEventView) -> bool {
    event matches InputEventView::Wheel { delta_x, delta_y } ==> {
        let dir = wheel_direction(delta_x, delta_y);
        b.pressed_scroll_buttons.contains_key(dir) ==> b.pressed_scroll_buttons[dir] < u32::MAX
    }
}

/// The board and effects after a release of something pressed at `then` (in `pressed`): a
/// release earlier than the minimum press time is delivered again when that time is up;
/// otherwise the code stops being pressed and its elements are drawn again.
pub open spec fn release_post<F>(
    old: BoardView<F>,
    event: InputEventView,
    now: u64,
    then: u64,
    released: BoardView<F>,
    redraw: Redraw,
    new: BoardView<F>,
    effects: Seq<EffectView<F>>,
) -> bool {
    if elapsed_since(now, then) < old.settings.min_press_time {
        &&& new == old
        &&& effects == seq![
            EffectView::<F>::RedeliverAfter {
                millis: (old.settings.min_press_time - elapsed_since(now, then)) as u64,
                event,
            },
        ]
    } else {
        &&& new == released
        &&& effects == seq![EffectView::<F>::Redraw(redraw)]
    }
}

/// The board and effects after a key press at time `now`: caps lock flips the caps lock
/// state; a key without a key code opens an error window and changes nothing more; otherwise
/// the key is pressed since `now`, and captured by the elements waiting for a code.
pub open spec fn key_press_post<F>(
    old: BoardView<F>,
    key: KeyInputView,
    now: u64,
    new: BoardView<F>,
    effects: Seq<EffectView<F>>,
) -> bool {
    let b = if key.caps_lock {
        caps_lock_pressed(old)
    } else {
        old
    };
    match key.code {
        None => {
            let w = WindowId::ErrorPopup(ErrorView::UnknownKey(key.name));
            &&& new == b.opened(w)
            &&& effects == opens::<F>(b.windows.next_id, w)
        },
        Some(code) => {
            &&& new == capture(
                BoardView { pressed_keys: b.pressed_keys.insert(code, now), ..b },
                code,
            )
            &&& effects == seq![EffectView::<F>::Redraw(Redraw::KeyCode(code))]
        },
    }
}

/// The board and effects after a key release at time `now`: a key without a key code opens
/// an error window; a release of a key that is not pressed is ignored; otherwise see
/// `release_post`.
pub open spec fn key_release_post<F>(
    old: BoardView<F>,
    key: KeyInputView,
    now: u64,
    new: BoardView<F>,
    effects: Seq<EffectView<F>>,
) -> bool {
    match key.code {
        None => {
            let w = WindowId::ErrorPopup(ErrorView::UnknownKey(key.name));
            &&& new == old.opened(w)
            &&& effects == opens::<F>(old.windows.next_id, w)
        },
        Some(code) => if !old.pressed_keys.contains_key(code) {
            new == old && effects == Seq::<EffectView<F>>::empty()
        } else {
            release_post(
                old,
                InputEventView::KeyRelease(key),
                now,
                old.pressed_keys[code],
                BoardView { pressed_keys: old.pressed_keys.remove(code), ..old },
                Redraw::KeyCode(code),
                new,
                effects,
            )
        },
    }
}

/// The board and effects after a mouse button press at time `now`: a press from the
/// horizontal scroll wheel is ignored; a button without a code opens an error window;
/// otherwise the button is pressed since `now`, and captured by the elements waiting for a
/// code.
pub open spec fn button_press_post<F>(
    old: BoardView<F>,
    button: MouseButton,
    now: u64,
    new: BoardView<F>,
    effects: Seq<EffectView<F>>,
) -> bool {
    if spec_is_scroll_wheel_button(button) {
        new == old && effects == Seq::<EffectView<F>>::empty()
    } else {
        match spec_mouse_button_code(button) {
            None => {
                let w = WindowId::ErrorPopup(ErrorView::UnknownButton(button));
                &&& new == old.opened(w)
                &&& effects == opens::<F>(old.windows.next_id, w)
            },
            Some(code) => {
                &&& new == capture(
                    BoardView {
                        pressed_mouse_buttons: old.pressed_mouse_buttons.insert(code, now),
                        ..old
                    },
                    code,
                )
                &&& effects == seq![EffectView::<F>::Redraw(Redraw::MouseButton(code))]
            },
        }
    }
}

/// The board and effects after a mouse button release at time `now`: a button without a
/// code opens an error window; a release from the horizontal scroll wheel, or of a button
/// that is not pressed, is ignored; otherwise see `release_post`.
pub open spec fn button_release_post<F>(
    old: BoardView<F>,
    button: MouseButton,
    now: u64,
    new: BoardView<F>,
    effects: Seq<EffectView<F>>,
) -> bool {
    match spec_mouse_button_code(button) {
        None => {
            let w = WindowId::ErrorPopup(ErrorView::UnknownButton(button));
            &&& new == old.opened(w)
            &&& effects == opens::<F>(old.windows.next_id, w)
        },
        Some(code) => if spec_is_scroll_wheel_button(button) || !old.pressed_mouse_buttons.contains_key(
            code,
        ) {
            new == old && effects == Seq::<EffectView<F>>::empty()
        } else {
            release_post(
                old,
                InputEventView::ButtonRelease(button),
                now,
                old.pressed_mouse_buttons[code],
                BoardView {
                    pressed_mouse_buttons: old.pressed_mouse_buttons.remove(code),
                    ..old
                },
                Redraw::MouseButton(code),
                new,
                effects,
            )
        },
    }
}

/// The board and effects after a wheel movement: its direction is shown as pressed with one
/// more release queued after the scroll hold time, and is captured by the elements waiting
/// for a code.
pub open spec fn wheel_post<F>(
    old: BoardView<F>,
    delta_x: i64,
    delta_y: i64,
    new: BoardView<F>,
    effects: Seq<EffectView<F>>,
) -> bool {
    let dir = wheel_direction(delta_x, delta_y);
    let count: u32 = if old.pressed_scroll_buttons.contains_key(dir) {
        (old.pressed_scroll_buttons[dir] + 1) as u32
    } else {
        1
    };
    &&& new == capture(
        BoardView {
            pressed_scroll_buttons: old.pressed_scroll_buttons.insert(dir, count),
            ..old
        },
        dir,
    )
    &&& effects == seq![
        EffectView::<F>::ReleaseScrollAfter { millis: old.settings.scroll_hold_time, button: dir },
        EffectView::<F>::Redraw(Redraw::ScrollButton(dir)),
    ]
}

/// The board and effects after an input event at time `now` (milliseconds).
pub open spec fn input_event_post<F>(
    old: BoardView<F>,
    event: InputEventView,
    now: u64,
    new: BoardView<F>,
    effects: Seq<EffectView<F>>,
) -> bool {
    match event {
        InputEventView::KeyPress(key) => key_press_post(old, key, now, new, effects),
        InputEventView::KeyRelease(key) => key_release_post(old, key, now, new, effects),
        InputEventView::ButtonPress(button) => button_press_post(old, button, now, new, effects),
        InputEventView::ButtonRelease(button) => button_release_post(
            old,
            button,
            now,
            new,
            effects,
        ),
        InputEventView::Wheel { delta_x, delta_y } => wheel_post(old, delta_x, delta_y, new, effects),
    }
}

/// The scroll direction of a wheel movement (see `wheel_direction`).
fn wheel_direction_exec(delta_x: i64, delta_y: i64) -> (dir: u32)
    ensures
        dir == wheel_direction(delta_x, delta_y),
{
    if delta_x < 0 {
        3
    } else if delta_x > 0 {
        2
    } else if delta_y < 0 {
        1
    } else {
        0
    }
}

impl<F: Copy> NuhxBoard<F> {
    /// Caps lock is pressed (see `caps_lock_pressed`).
    fn press_caps_lock(&mut self)
        requires
            old(self)@.wf(),
        ensures
            final(self)@ == caps_lock_pressed(old(self)@),
            final(self)@.windows == old(self)@.windows,
            final(self)@.wf(),
    {
        reveal(caps_lock_pressed);
        self.true_caps = !self.true_caps;
        match self.settings.capitalization {
            Capitalization::Follow => self.caps = !self.caps,
            _ => {},
        }
    }

    /// Gives a captured code to the elements waiting for one (see `capture`).
    fn capture_code(&mut self, code: u32)
        requires
            old(self)@.wf(),
        ensures
            final(self)@ == capture(old(self)@, code),
            final(self)@.wf(),
    {
        reveal(capture);
        if self.detecting.len() == 0 {
            return;
        }
        self.number_input.capture_keycode(&self.detecting, code);
        self.detecting.clear();
        assert(self@.detecting =~= Seq::<usize>::empty());
    }

    /// Whether an input event can be counted now: only a wheel movement can find its
    /// direction's count of queued releases full (see `wheel_has_room`).
    pub fn has_room_for(&self, event: &InputEvent) -> (r: bool)
        ensures
            r == wheel_has_room(self@, event@),
    {
        match event {
            InputEvent::Wheel { delta_x, delta_y } => {
                let dir = wheel_direction_exec(*delta_x, *delta_y);
                match self.pressed_scroll_buttons.get(&dir) {
                    Some(n) => *n < u32::MAX,
                    None => true,
                }
            },
            _ => true,
        }
    }

    /// Handles an input event at time `now` in milliseconds (see `input_event_post`).
    pub fn input_event(&mut self, event: InputEvent, now: u64) -> (effects: Vec<Effect<F>>)
        requires
            old(self)@.wf(),
            old(self)@.can_open_window(),
            wheel_has_room(old(self)@, event@),
        ensures
            input_event_post(old(self)@, event@, now, final(self)@, effect_views(effects@)),
            final(self)@.wf(),
    {
        match event {
            InputEvent::KeyPress(key) => self.key_press(key, now),
            InputEvent::KeyRelease(key) => self.key_release(key, now),
            InputEvent::ButtonPress(button) => self.button_press(button, now),
            InputEvent::ButtonRelease(button) => self.button_release(button, now),
            InputEvent::Wheel { delta_x, delta_y } => self.wheel(delta_x, delta_y),
        }
    }

    fn key_press(&mut self, key: KeyInput, now: u64) -> (effects: Vec<Effect<F>>)
        requires
            old(self)@.wf(),
            old(self)@.can_open_window(),
        ensures
            key_press_post(old(self)@, key@, now, final(self)@, effect_views(effects@)),
            final(self)@.wf(),
    {
        if key.caps_lock {
            self.press_caps_lock();
        }
        match key.code {
            None => self.error(NuhxBoardError::UnknownKey(key.name)),
            Some(code) => {
                self.pressed_keys.insert(code, now);
                self.capture_code(code);
                let mut effects = Vec::new();
                effects.push(Effect::Redraw(Redraw::KeyCode(code)));
                assert(effect_views(effects@) =~= seq![
                    EffectView::<F>::Redraw(Redraw::KeyCode(code)),
                ]);
                effects
            },
        }
    }

    fn key_release(&mut self, key: KeyInput, now: u64) -> (effects: Vec<Effect<F>>)
        requires
            old(self)@.wf(),
            old(self)@.can_open_window(),
        ensures
            key_release_post(old(self)@, key@, now, final(self)@, effect_views(effects@)),
            final(self)@.wf(),
    {
        let code = match key.code {
            None => {
                return self.error(NuhxBoardError::UnknownKey(key.name));
            },
            Some(code) => code,
        };
        let then = match self.pressed_keys.get(&code) {
            None => {
                let effects = Vec::new();
                assert(effect_views(effects@) =~= Seq::<EffectView<F>>::empty());
                return effects;
            },
            Some(t) => *t,
        };
        self.release(InputEvent::KeyRelease(key), now, then, code, false)
    }

    fn button_press(&mut self, button: MouseButton, now: u64) -> (effects: Vec<Effect<F>>)
        requires
            old(self)@.wf(),
            old(self)@.can_open_window(),
        ensures
            button_press_post(old(self)@, button, now, final(self)@, effect_views(effects@)),
            final(self)@.wf(),
    {
        if is_scroll_wheel_button(button) {
            let effects = Vec::new();
            assert(effect_views(effects@) =~= Seq::<EffectView<F>>::empty());
            return effects;
        }
        match mouse_button_code_convert(button) {
            Err(_) => self.error(NuhxBoardError::UnknownButton(button)),
            Ok(code) => {
                self.pressed_mouse_buttons.insert(code, now);
                self.capture_code(code);
                let mut effects = Vec::new();
                effects.push(Effect::Redraw(Redraw::MouseButton(code)));
                assert(effect_views(effects@) =~= seq![
                    EffectView::<F>::Redraw(Redraw::MouseButton(code)),
                ]);
                effects
            },
        }
    }

    fn button_release(&mut self, button: MouseButton, now: u64) -> (effects: Vec<Effect<F>>)
        requires
            old(self)@.wf(),
            old(self)@.can_open_window(),
        ensures
            button_release_post(old(self)@, button, now, final(self)@, effect_views(effects@)),
            final(self)@.wf(),
    {
        let code = match mouse_button_code_convert(button) {
            Err(_) => {
                return self.error(NuhxBoardError::UnknownButton(button));
            },
            Ok(code) => code,
        };
        if is_scroll_wheel_button(button) {
            let effects = Vec::new();
            assert(effect_views(effects@) =~= Seq::<EffectView<F>>::empty());
            return effects;
        }
        let then = match self.pressed_mouse_buttons.get(&code) {
            None => {
                let effects = Vec::new();
                assert(effect_views(effects@) =~= Seq::<EffectView<F>>::empty());
                return effects;
            },
            Some(t) => *t,
        };
        self.release(InputEvent::ButtonRelease(button), now, then, code, true)
    }

    fn wheel(&mut self, delta_x: i64, delta_y: i64) -> (effects: Vec<Effect<F>>)
        requires
            old(self)@.wf(),
            wheel_has_room(old(self)@, InputEventView::Wheel { delta_x, delta_y }),
        ensures
            wheel_post(old(self)@, delta_x, delta_y, final(self)@, effect_views(effects@)),
            final(self)@.wf(),
    {
        let dir = wheel_direction_exec(delta_x, delta_y);
        let count: u32 = match self.pressed_scroll_buttons.get(&dir) {
            Some(n) => *n + 1,
            None => 1,
        };
        self.pressed_scroll_buttons.insert(dir, count);
        proof {
            let m = self@.pressed_scroll_buttons;
            assert forall|b: u32| #[trigger] m.contains_key(b) implies m[b] > 0 by {
                if b != dir {
                    assert(old(self)@.pressed_scroll_buttons.contains_key(b));
                }
            }
        }
        let hold = self.settings.scroll_hold_time;
        self.capture_code(dir);
        let mut effects = Vec::new();
        effects.push(Effect::ReleaseScrollAfter { millis: hold, button: dir });
        effects.push(Effect::Redraw(Redraw::ScrollButton(dir)));
        assert(effect_views(effects@) =~= seq![
            EffectView::<F>::ReleaseScrollAfter {
                millis: old(self)@.settings.scroll_hold_time,
                button: dir,
            },
            EffectView::<F>::Redraw(Redraw::ScrollButton(dir)),
        ]);
        effects
    }

    fn release(&mut self, event: InputEvent, now: u64, then: u64, code: u32, button: bool) -> (effects: Vec<
        Effect<F>,
    >)
        requires
            old(self)@.wf(),
            button ==> old(self)@.pressed_mouse_buttons.contains_key(code)
                && old(self)@.pressed_mouse_buttons[code] == then,
            !button ==> old(self)@.pressed_keys.contains_key(code) && old(self)@.pressed_keys[code]
                == then,
        ensures
            release_post(
                old(self)@,
                event@,
                now,
                then,
                if button {
                    BoardView {
                        pressed_mouse_buttons: old(self)@.pressed_mouse_buttons.remove(code),
                        ..old(self)@
                    }
                } else {
                    BoardView { pressed_keys: old(self)@.pressed_keys.remove(code), ..old(self)@ }
                },
                if button {
                    Redraw::MouseButton(code)
                } else {
                    Redraw::KeyCode(code)
                },
                final(self)@,
                effect_views(effects@),
            ),
            final(self)@.wf(),
    {
        let elapsed: u64 = if now >= then {
            now - then
        } else {
            0
        };
        let mut effects = Vec::new();
        if elapsed < self.settings.min_press_time {
            let ghost ev = event@;
            effects.push(
                Effect::RedeliverAfter { millis: self.settings.min_press_time - elapsed, event },
            );
            assert(effect_views(effects@) =~= seq![
                EffectView::<F>::RedeliverAfter {
                    millis: (old(self)@.settings.min_press_time - elapsed) as u64,
                    event: ev,
                },
            ]);
        } else if button {
            self.pressed_mouse_buttons.remove(&code);
            effects.push(Effect::Redraw(Redraw::MouseButton(code)));
            assert(effect_views(effects@) =~= seq![
                EffectView::<F>::Redraw(Redraw::MouseButton(code)),
            ]);
        } else {
            self.pressed_keys.remove(&code);
            effects.push(Effect::Redraw(Redraw::KeyCode(code)));
            assert(effect_views(effects@) =~= seq![EffectView::<F>::Redraw(Redraw::KeyCode(code))]);
        }
        effects
    }
}

} // verus!
