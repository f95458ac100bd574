//! The events that drive the interface, and the keys that the terminal reports.
use crate::game::{GameEvent, GameParams, Pos};
use vstd::prelude::*;

verus! {

/// A key press, reduced to what the interface reads of it.
#[derive(Clone, Copy, Debug, PartialEq, Eq, Structural)]
pub enum KeyCode {
    Char(char),
    Left,
    Right,
    Up,
    Down,
    Enter,
    Esc,
    Backspace,
    /// Any other key.
    Other,
}

/// A key event: its code, and whether Control is the only modifier held.
#[derive(Clone, Copy, Debug, PartialEq, Eq, Structural)]
pub struct KeyInput {
    pub code: KeyCode,
    pub control_only: bool,
}

/// What a key means to the interface.
#[derive(Clone, Copy, Debug, PartialEq, Eq, Structural)]
pub enum KeyAction {
    Left,
    Right,
    Up,
    Down,
    Accept,
    Cancel,
    Space,
    Backspace,
    Digit(char),
    Input(char),
    Parameters,
    JoinMenu,
    Restart,
}

/// Application events.
#[derive(Clone, Debug)]
pub enum AppEvent {
    Start(GameParams),
    Join(String),
    Reveal(Pos),
    Flag(Pos),
    Restart(GameParams),
    KeyAction(KeyAction),
    /// Quit the application.
    Quit,
}

/// An application event with its text taken as a sequence of characters.
pub enum AppEventView {
    Start(GameParams),
    Join(Seq<char>),
    Reveal(Pos),
    Flag(Pos),
    Restart(GameParams),
    KeyAction(KeyAction),
    Quit,
}

impl View for AppEvent {
    type V = AppEventView;

    open spec fn view(&self) -> AppEventView {
        match self {
            AppEvent::Start(p) => AppEventView::Start(*p),
            AppEvent::Join(id) => AppEventView::Join(id@),
            AppEvent::Reveal(p) => AppEventView::Reveal(*p),
            AppEvent::Flag(p) => AppEventView::Flag(*p),
            AppEvent::Restart(p) => AppEventView::Restart(*p),
            AppEvent::KeyAction(a) => AppEventView::KeyAction(*a),
            AppEvent::Quit => AppEventView::Quit,
        }
    }
}

/// The view of an optional application event.
pub open spec fn opt_event_view(o: Option<AppEvent>) -> Option<AppEventView> {
    match o {
        Some(e) => Some(e@),
        None => None,
    }
}

/// Everything the event loop hands to the interface.
#[derive(Clone, Debug)]
pub enum Event {
    /// A key pressed in the terminal.
    Key(KeyInput),
    /// An event that the interface queued for itself.
    App(AppEvent),
    /// An event from the game client.
    Game(GameEvent),
}

} // verus!
