//! The input events that the widgets react to.
use vstd::prelude::*;

use crate::geometry::Point;
use crate::menu::model::MenuId;
use crate::time::Instant;

verus! {

/// A mouse button.
#[derive(Clone, Copy, Debug, PartialEq, Eq, Structural)]
pub enum Button {
    Left,
    Right,
    Middle,
    Back,
    Forward,
    Other(u16),
}

/// How far a wheel was turned.
#[derive(Clone, Copy, Debug)]
pub enum ScrollDelta<S> {
    /// A number of lines.
    Lines { x: S, y: S },
    /// A number of pixels.
    Pixels { x: S, y: S },
}

/// A mouse event.
#[derive(Clone, Copy, Debug)]
pub enum MouseEvent<S> {
    CursorEntered,
    CursorLeft,
    CursorMoved { position: Point<S> },
    ButtonPressed { button: Button },
    ButtonReleased { button: Button },
    WheelScrolled { delta: ScrollDelta<S>, shift: bool },
}

/// A touch event; fingers are told apart by a number.
#[derive(Clone, Copy, Debug)]
pub enum TouchEvent<S> {
    FingerPressed { id: u64, position: Point<S> },
    FingerMoved { id: u64, position: Point<S> },
    FingerLifted { id: u64, position: Point<S> },
    FingerLost { id: u64, position: Point<S> },
}

/// A key that has a name.
#[derive(Clone, Copy, Debug, PartialEq, Eq, Structural)]
pub enum Named {
    Alt,
    Enter,
    Tab,
    Escape,
    Backspace,
    Delete,
    ArrowUp,
    ArrowDown,
    ArrowLeft,
    ArrowRight,
    Home,
    End,
    PageUp,
    PageDown,
    F1,
    F2,
    F3,
    F4,
    F5,
    F6,
    F7,
    F8,
    F9,
    F10,
    F11,
    F12,
    /// Any other named key.
    Other(u16),
}

/// A key of the keyboard.
#[derive(Debug)]
pub enum Key {
    /// A key with an established name.
    Named(Named),
    /// A key that produces text.
    Character(String),
    /// A key that could not be identified.
    Unidentified,
}

/// A keyboard event.
#[derive(Debug)]
pub enum KeyboardEvent {
    KeyPressed { key: Key, shift: bool },
    KeyReleased { key: Key },
    ModifiersChanged,
}

/// What an assistive technology asks of a node.
#[derive(Clone, Copy, Debug, PartialEq, Eq, Structural)]
pub enum AccessibilityAction {
    Focus,
    Blur,
    Click,
    Other,
}

/// An event.
#[derive(Debug)]
pub enum Event<S> {
    Mouse(MouseEvent<S>),
    Touch(TouchEvent<S>),
    Keyboard(KeyboardEvent),
    /// The window asks for a new frame at an instant.
    RedrawRequested(Instant),
    /// Any other window event.
    Window,
    /// An assistive technology acts on a node.
    Accessibility(AccessibilityAction),
    /// An item of a native context menu was chosen.
    ContextMenuItemSelected(MenuId),
    /// Any other event.
    Other,
}

/// Whether an event was consumed.
#[derive(Clone, Copy, Debug, PartialEq, Eq, Structural)]
pub enum Status {
    Ignored,
    Captured,
}

impl Status {
    /// Captured as soon as one of the two is captured.
    pub open spec fn merged(self, other: Status) -> Status {
        if self == Status::Captured {
            Status::Captured
        } else {
            other
        }
    }

    /// Merges two statuses into one.
    pub fn merge(self, other: Status) -> (r: Status)
        ensures
            r == self.merged(other),
    {
        match self {
            Status::Ignored => other,
            Status::Captured => Status::Captured,
        }
    }
}

/// Of two statuses it is enough that one is captured, whichever it is.
pub proof fn law_one_capture_is_enough(a: Status, b: Status)
    ensures
        (a.merged(b) == Status::Captured) == (a == Status::Captured || b == Status::Captured),
{
}

/// Whether an event is the press of a named key.
pub open spec fn is_press_of<S>(event: Event<S>, named: Named) -> bool {
    event matches Event::Keyboard(KeyboardEvent::KeyPressed { key: Key::Named(n), .. }) && n
        == named
}

/// Whether an event is the press of a mouse button.
pub open spec fn is_button_press<S>(event: Event<S>, button: Button) -> bool {
    event matches Event::Mouse(MouseEvent::ButtonPressed { button: b }) && b == button
}

/// Whether an event is the release of a mouse button.
pub open spec fn is_button_release<S>(event: Event<S>, button: Button) -> bool {
    event matches Event::Mouse(MouseEvent::ButtonReleased { button: b }) && b == button
}

/// Whether an event is a finger touching down.
pub open spec fn is_finger_press<S>(event: Event<S>) -> bool {
    event matches Event::Touch(TouchEvent::FingerPressed { .. })
}

/// Whether an event is a finger being lifted.
pub open spec fn is_finger_lift<S>(event: Event<S>) -> bool {
    event matches Event::Touch(TouchEvent::FingerLifted { .. })
}

/// Tests whether the right button was released.
pub fn right_button_released<S>(event: &Event<S>) -> (r: bool)
    ensures
        r == is_button_release(*event, Button::Right),
{
    match event {
        Event::Mouse(MouseEvent::ButtonReleased { button: Button::Right }) => true,
        _ => false,
    }
}

/// Tests whether the right button was pressed.
pub fn right_button_pressed<S>(event: &Event<S>) -> (r: bool)
    ensures
        r == is_button_press(*event, Button::Right),
{
    match event {
        Event::Mouse(MouseEvent::ButtonPressed { button: Button::Right }) => true,
        _ => false,
    }
}

/// Tests whether the left button was released.
pub fn left_button_released<S>(event: &Event<S>) -> (r: bool)
    ensures
        r == is_button_release(*event, Button::Left),
{
    match event {
        Event::Mouse(MouseEvent::ButtonReleased { button: Button::Left }) => true,
        _ => false,
    }
}

/// Tests whether a finger was lifted.
pub fn touch_lifted<S>(event: &Event<S>) -> (r: bool)
    ensures
        r == is_finger_lift(*event),
{
    match event {
        Event::Touch(TouchEvent::FingerLifted { .. }) => true,
        _ => false,
    }
}

} // verus!
