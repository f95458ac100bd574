//! The interface's state and how each event changes it.
//!
//! Every function here decides; none of them waits, draws or talks to the
//! server. What the event loop must do next comes back as an [`Effect`].
use crate::event::{opt_event_view, AppEvent, AppEventView, Event, KeyAction, KeyCode, KeyInput};
use crate::game::{GameEvent, GameInfo, GameParams, Pos};
use crate::text::{decimal, is_digit, parse_usize, parse_usize_spec, pop_char, push_char, to_decimal};
use vstd::prelude::*;

verus! {

/// The line of the parameter menu that is selected.
#[derive(Clone, Copy, Debug, PartialEq, Eq, Structural)]
pub enum ParameterSelections {
    Width,
    Height,
    Bombs,
    Apply,
    Cancel,
}

/// The messages that the interface shows in a box of their own.
#[derive(Clone, Copy, Debug, PartialEq, Eq, Structural)]
pub enum Notice {
    /// Joining a game by its id failed.
    InvalidId,
    /// The game was won.
    Won,
    /// The game was lost.
    Lost,
}

/// Which menu is open.
#[derive(Clone, Copy, Debug, PartialEq, Eq, Structural)]
pub enum MenuState {
    Closed,
    Parameters { modify: bool, selection: ParameterSelections },
    Join,
    InfoMessage(Notice),
}

/// A call to make on the game client; if it fails, the interface stops with that error.
#[derive(Clone, Debug)]
pub enum GameRequest {
    Start(GameParams),
    Join(String),
    Reveal(Pos),
    Flag(Pos),
    Restart(GameParams),
}

/// A game request with its text taken as a sequence of characters.
pub enum GameRequestView {
    Start(GameParams),
    Join(Seq<char>),
    Reveal(Pos),
    Flag(Pos),
    Restart(GameParams),
}

impl View for GameRequest {
    type V = GameRequestView;

    open spec fn view(&self) -> GameRequestView {
        match self {
            GameRequest::Start(p) => GameRequestView::Start(*p),
            GameRequest::Join(id) => GameRequestView::Join(id@),
            GameRequest::Reveal(p) => GameRequestView::Reveal(*p),
            GameRequest::Flag(p) => GameRequestView::Flag(*p),
            GameRequest::Restart(p) => GameRequestView::Restart(*p),
        }
    }
}

/// What the event loop does after the interface has decided.
#[derive(Clone, Debug)]
pub enum Effect {
    /// Queue this application event.
    Send(AppEvent),
    /// Make this call on the game client.
    Request(GameRequest),
    /// Try to join the game with this id, and hand the outcome to
    /// [`App::join_finished`].
    TryJoin(String),
}

/// An effect with its text taken as sequences of characters.
pub enum EffectView {
    Send(AppEventView),
    Request(GameRequestView),
    TryJoin(Seq<char>),
}

impl View for Effect {
    type V = EffectView;

    open spec fn view(&self) -> EffectView {
        match self {
            Effect::Send(e) => EffectView::Send(e@),
            Effect::Request(r) => EffectView::Request(r@),
            Effect::TryJoin(id) => EffectView::TryJoin(id@),
        }
    }
}

/// The view of an optional effect.
pub open spec fn opt_effect_view(o: Option<Effect>) -> Option<EffectView> {
    match o {
        Some(e) => Some(e@),
        None => None,
    }
}

/// The interface's state.
pub struct App {
    /// Is the application running?
    pub running: bool,
    pub menu_state: MenuState,
    /// What the user has typed into the open menu.
    pub input_buffer: String,
    /// The parameters of the next game.
    pub params: GameParams,
    /// The selected cell of the board.
    pub selected: Pos,
}

/// The interface's state, with the typed text as a sequence of characters.
pub struct AppState {
    pub running: bool,
    pub menu: MenuState,
    pub input: Seq<char>,
    pub params: GameParams,
    pub selected: Pos,
}

impl View for App {
    type V = AppState;

    open spec fn view(&self) -> AppState {
        AppState {
            running: self.running,
            menu: self.menu_state,
            input: self.input_buffer@,
            params: self.params,
            selected: self.selected,
        }
    }
}

// ---------------------------------------------------------------------------
// The transitions, stated over `AppState`.
// ---------------------------------------------------------------------------

/// `v` clamped into `0..=hi`.
pub open spec fn clamp_to(v: int, hi: int) -> int {
    if v < 0 {
        0
    } else if v > hi {
        hi
    } else {
        v
    }
}

/// The greatest column and row index of the board, or 0 when no board is known.
pub open spec fn last_indices(board: Option<(usize, usize)>) -> (int, int) {
    match board {
        Some((w, h)) => (w - 1, h - 1),
        None => (0, 0),
    }
}

/// The selection after a step of `dx` columns and `dy` rows, held inside the board.
pub open spec fn moved(sel: Pos, dx: int, dy: int, board: Option<(usize, usize)>) -> Pos {
    let (mx, my) = last_indices(board);
    Pos {
        x: clamp_to(as_isize(sel.x) + dx, mx) as usize,
        y: clamp_to(as_isize(sel.y) + dy, my) as usize,
    }
}

/// The value of `x as isize`: `x` itself up to `isize::MAX`, and `x` less
/// `2^BITS` above it.
pub open spec fn as_isize(x: usize) -> int {
    if x <= isize::MAX {
        x as int
    } else {
        x - (usize::MAX + 1)
    }
}

/// The selection, taken as `isize`, can be moved by `dx`, `dy` without
/// leaving the range of `isize`, and the board, if known, has at least one row
/// and one column and no more than `isize` can count.
pub open spec fn can_move(sel: Pos, dx: int, dy: int, board: Option<(usize, usize)>) -> bool {
    &&& isize::MIN <= as_isize(sel.x) + dx <= isize::MAX
    &&& isize::MIN <= as_isize(sel.y) + dy <= isize::MAX
    &&& match board {
        Some((w, h)) => 1 <= w && w - 1 <= isize::MAX && 1 <= h && h - 1 <= isize::MAX,
        None => true,
    }
}

/// The step of the selection that a direction key makes in the closed menu.
pub open spec fn direction(a: KeyAction) -> (int, int) {
    match a {
        KeyAction::Left => (-1, 0),
        KeyAction::Right => (1, 0),
        KeyAction::Up => (0, -1),
        KeyAction::Down => (0, 1),
        _ => (0, 0),
    }
}

/// Is `a` one of the four direction keys?
pub open spec fn is_direction(a: KeyAction) -> bool {
    a is Left || a is Right || a is Up || a is Down
}

/// `handle_key_action` can run on this state: a direction key in the closed
/// menu needs a selection and a board that `can_move` accepts.
pub open spec fn key_action_ok(s: AppState, a: KeyAction, info: GameInfo) -> bool {
    (s.menu is Closed && is_direction(a)) ==> can_move(
        s.selected,
        direction(a).0,
        direction(a).1,
        info.board,
    )
}

/// The parameter that a menu line edits.
pub open spec fn param_value(p: GameParams, sel: ParameterSelections) -> usize {
    match sel {
        ParameterSelections::Width => p.width,
        ParameterSelections::Height => p.height,
        _ => p.bombs,
    }
}

/// The parameters with the one that a menu line edits set to `v`.
pub open spec fn with_param(p: GameParams, sel: ParameterSelections, v: usize) -> GameParams {
    match sel {
        ParameterSelections::Width => GameParams { width: v, ..p },
        ParameterSelections::Height => GameParams { height: v, ..p },
        ParameterSelections::Bombs => GameParams { bombs: v, ..p },
        _ => p,
    }
}

/// Is `sel` one of the three lines that hold a number?
pub open spec fn is_value_line(sel: ParameterSelections) -> bool {
    sel is Width || sel is Height || sel is Bombs
}

/// `v - 1`, or 0 when `v` is 0.
pub open spec fn dec_sat(v: usize) -> usize {
    if v == 0 { 0 } else { (v - 1) as usize }
}

/// `v + 1`, or `usize::MAX` when `v` is `usize::MAX`.
pub open spec fn inc_sat(v: usize) -> usize {
    if v == usize::MAX { usize::MAX } else { (v + 1) as usize }
}

/// The state with another menu open.
pub open spec fn with_menu(s: AppState, m: MenuState) -> AppState {
    AppState { menu: m, ..s }
}

/// The event that starts a game with the chosen parameters: a restart when a
/// game is joined, else a new game.
pub open spec fn start_or_restart(s: AppState, info: GameInfo) -> AppEventView {
    if info.connected {
        AppEventView::Restart(s.params)
    } else {
        AppEventView::Start(s.params)
    }
}

/// The effect of queueing `e`.
pub open spec fn send(e: AppEventView) -> Option<EffectView> {
    Some(EffectView::Send(e))
}

/// A direction key in the parameter menu: left and right change the selected
/// value by one (saturating) or move between the two buttons; up and down move
/// between lines. Nothing moves while a value is being typed.
pub open spec fn on_parameter_direction(
    s: AppState,
    a: KeyAction,
    modify: bool,
    sel: ParameterSelections,
) -> AppState {
    let at = |n: ParameterSelections| with_menu(s, MenuState::Parameters { modify, selection: n });
    if modify {
        s
    } else {
        match a {
            KeyAction::Left => match sel {
                ParameterSelections::Cancel => at(ParameterSelections::Apply),
                ParameterSelections::Apply => s,
                _ => AppState {
                    params: with_param(s.params, sel, dec_sat(param_value(s.params, sel))),
                    ..s
                },
            },
            KeyAction::Right => match sel {
                ParameterSelections::Apply => at(ParameterSelections::Cancel),
                ParameterSelections::Cancel => s,
                _ => AppState {
                    params: with_param(s.params, sel, inc_sat(param_value(s.params, sel))),
                    ..s
                },
            },
            KeyAction::Up => match sel {
                ParameterSelections::Width => s,
                ParameterSelections::Height => at(ParameterSelections::Width),
                ParameterSelections::Bombs => at(ParameterSelections::Height),
                _ => at(ParameterSelections::Bombs),
            },
            _ => match sel {
                ParameterSelections::Width => at(ParameterSelections::Height),
                ParameterSelections::Height => at(ParameterSelections::Bombs),
                ParameterSelections::Bombs => at(ParameterSelections::Apply),
                _ => s,
            },
        }
    }
}

/// Enter: reveal the selected cell, start editing or store a value, apply or
/// cancel the parameters, join the typed game id, or close a message.
pub open spec fn on_accept(s: AppState, info: GameInfo) -> (AppState, Option<EffectView>) {
    match s.menu {
        MenuState::Closed => if info.connected {
            (s, send(AppEventView::Reveal(s.selected)))
        } else {
            (s, None)
        },
        MenuState::Parameters { modify, selection } => match selection {
            ParameterSelections::Apply => (
                with_menu(s, MenuState::Closed),
                send(start_or_restart(s, info)),
            ),
            ParameterSelections::Cancel => (with_menu(s, MenuState::Closed), None),
            _ => if modify {
                let params = match parse_usize_spec(s.input) {
                    Some(v) => with_param(s.params, selection, v),
                    None => s.params,
                };
                (
                    AppState {
                        params,
                        menu: MenuState::Parameters { modify: false, selection },
                        ..s
                    },
                    None,
                )
            } else {
                (
                    AppState {
                        input: decimal(param_value(s.params, selection) as nat),
                        menu: MenuState::Parameters { modify: true, selection },
                        ..s
                    },
                    None,
                )
            },
        },
        MenuState::Join => (s, Some(EffectView::TryJoin(s.input))),
        MenuState::InfoMessage(_) => (with_menu(s, MenuState::Closed), None),
    }
}

/// What a key action does to the state, and what the loop must do next.
pub open spec fn key_action_spec(s: AppState, a: KeyAction, info: GameInfo) -> (
    AppState,
    Option<EffectView>,
) {
    match a {
        KeyAction::Left | KeyAction::Right | KeyAction::Up | KeyAction::Down => match s.menu {
            MenuState::Closed => (
                AppState {
                    selected: moved(s.selected, direction(a).0, direction(a).1, info.board),
                    ..s
                },
                None,
            ),
            MenuState::Parameters { modify, selection } => (
                on_parameter_direction(s, a, modify, selection),
                None,
            ),
            _ => (s, None),
        },
        KeyAction::Accept => on_accept(s, info),
        KeyAction::Cancel => match s.menu {
            MenuState::Closed => (s, send(AppEventView::Quit)),
            MenuState::Parameters { modify: true, selection } => (
                with_menu(s, MenuState::Parameters { modify: false, selection }),
                None,
            ),
            _ => (with_menu(s, MenuState::Closed), None),
        },
        KeyAction::Space => if s.menu is Closed {
            (s, send(AppEventView::Flag(s.selected)))
        } else {
            (s, None)
        },
        KeyAction::Backspace => match s.menu {
            MenuState::Parameters { modify: true, .. } | MenuState::Join => (
                AppState {
                    input: if s.input.len() > 0 {
                        s.input.drop_last()
                    } else {
                        s.input
                    },
                    ..s
                },
                None,
            ),
            _ => (s, None),
        },
        KeyAction::Digit(d) => match s.menu {
            MenuState::Parameters { modify: true, .. } => (
                AppState { input: s.input.push(d), ..s },
                None,
            ),
            _ => (s, None),
        },
        KeyAction::Input(c) => if s.menu is Join {
            (AppState { input: s.input.push(c), ..s }, None)
        } else {
            (s, None)
        },
        KeyAction::Parameters => match s.menu {
            MenuState::Closed => (
                with_menu(
                    s,
                    MenuState::Parameters { modify: false, selection: ParameterSelections::Width },
                ),
                None,
            ),
            MenuState::Parameters { modify: false, .. } => (with_menu(s, MenuState::Closed), None),
            _ => (s, None),
        },
        KeyAction::JoinMenu => match s.menu {
            MenuState::Closed => (
                AppState { menu: MenuState::Join, input: Seq::empty(), ..s },
                None,
            ),
            MenuState::Join => (with_menu(s, MenuState::Closed), None),
            _ => (s, None),
        },
        KeyAction::Restart => match s.menu {
            MenuState::Closed | MenuState::InfoMessage(_) => (
                with_menu(s, MenuState::Closed),
                send(start_or_restart(s, info)),
            ),
            _ => (s, None),
        },
    }
}

/// The action that a key press queues, if any.
pub open spec fn key_event_spec(menu: MenuState, k: KeyInput) -> Option<AppEventView> {
    let act = |a: KeyAction| Some(AppEventView::KeyAction(a));
    match k.code {
        KeyCode::Char(c) => if (c == 'c' || c == 'C') && k.control_only {
            Some(AppEventView::Quit)
        } else if menu is Join {
            act(KeyAction::Input(c))
        } else if c == 'a' || c == 'h' {
            act(KeyAction::Left)
        } else if c == 'd' || c == 'l' {
            act(KeyAction::Right)
        } else if c == 'w' || c == 'k' {
            act(KeyAction::Up)
        } else if c == 's' || c == 'j' {
            act(KeyAction::Down)
        } else if c == 'q' {
            act(KeyAction::Cancel)
        } else if c == ' ' {
            act(KeyAction::Space)
        } else if c == 'p' {
            act(KeyAction::Parameters)
        } else if c == 'g' {
            act(KeyAction::JoinMenu)
        } else if c == 'r' {
            act(KeyAction::Restart)
        } else if is_digit(c) {
            act(KeyAction::Digit(c))
        } else {
            None
        },
        KeyCode::Left => act(KeyAction::Left),
        KeyCode::Right => act(KeyAction::Right),
        KeyCode::Up => act(KeyAction::Up),
        KeyCode::Down => act(KeyAction::Down),
        KeyCode::Enter => act(KeyAction::Accept),
        KeyCode::Esc => act(KeyAction::Cancel),
        KeyCode::Backspace => act(KeyAction::Backspace),
        KeyCode::Other => None,
    }
}

/// What an event of the game client does to the state.
pub open spec fn game_event_spec(s: AppState, e: GameEvent) -> AppState {
    match e {
        GameEvent::BoardUpdated { .. } => s,
        GameEvent::GameStatusChanged { won, lost } => if won {
            with_menu(s, MenuState::InfoMessage(Notice::Won))
        } else if lost {
            with_menu(s, MenuState::InfoMessage(Notice::Lost))
        } else {
            s
        },
        GameEvent::GameInitialized { width, height, bombs } => AppState {
            params: GameParams { width, height, bombs },
            ..s
        },
        GameEvent::ConnectionLost => AppState { running: false, ..s },
    }
}

/// What the outcome of joining a typed game id does: close the menu, or say
/// that the id is invalid.
pub open spec fn join_finished_spec(s: AppState, joined: bool) -> AppState {
    if joined {
        with_menu(s, MenuState::Closed)
    } else {
        with_menu(s, MenuState::InfoMessage(Notice::InvalidId))
    }
}

/// What an application event does to the state, and what the loop must do next.
pub open spec fn app_event_spec(s: AppState, e: AppEventView, info: GameInfo) -> (
    AppState,
    Option<EffectView>,
) {
    match e {
        AppEventView::Start(p) => (s, Some(EffectView::Request(GameRequestView::Start(p)))),
        AppEventView::Join(id) => (s, Some(EffectView::Request(GameRequestView::Join(id)))),
        AppEventView::Reveal(p) => (s, Some(EffectView::Request(GameRequestView::Reveal(p)))),
        AppEventView::Flag(p) => (s, Some(EffectView::Request(GameRequestView::Flag(p)))),
        AppEventView::Restart(p) => (s, Some(EffectView::Request(GameRequestView::Restart(p)))),
        AppEventView::KeyAction(a) => key_action_spec(s, a, info),
        AppEventView::Quit => (AppState { running: false, ..s }, None),
    }
}

/// `handle_app_event` can run on this state.
pub open spec fn app_event_ok(s: AppState, e: AppEventView, info: GameInfo) -> bool {
    e matches AppEventView::KeyAction(a) ==> key_action_ok(s, a, info)
}

/// The state of a freshly started interface.
pub open spec fn initial_state() -> AppState {
    AppState {
        running: true,
        menu: MenuState::Closed,
        input: Seq::empty(),
        params: GameParams { width: 9, height: 9, bombs: 10 },
        selected: Pos { x: 0, y: 0 },
    }
}

// ---------------------------------------------------------------------------
// The executable interface.
// ---------------------------------------------------------------------------

/// `x as isize`: `x` itself up to `isize::MAX`, and `x` less `2^BITS` above it.
fn to_isize(x: usize) -> (r: isize)
    ensures
        r == as_isize(x),
{
    if x <= isize::MAX as usize {
        x as isize
    } else {
        let a: isize = (usize::MAX - x) as isize;
        -a - 1
    }
}

impl App {
    /// The interface as it starts: running, no menu open, nothing typed, the
    /// default parameters, and the top-left cell selected.
    pub fn new() -> (app: App)
        ensures
            app@ == initial_state(),
    {
        App {
            running: true,
            menu_state: MenuState::Closed,
            input_buffer: String::new(),
            params: GameParams::default(),
            selected: Pos { x: 0, y: 0 },
        }
    }

    /// Set running to false to quit the application.
    pub fn quit(&mut self)
        ensures
            final(self)@ == (AppState { running: false, ..old(self)@ }),
    {
        self.running = false;
    }

    /// Moves the selection by `dx` columns and `dy` rows, held inside the
    /// board (`board` is its width and height, if a game is known).
    pub fn modify_selection(&mut self, dx: isize, dy: isize, board: Option<(usize, usize)>)
        requires
            can_move(old(self).selected, dx as int, dy as int, board),
        ensures
            final(self)@ == (AppState {
                selected: moved(old(self).selected, dx as int, dy as int, board),
                ..old(self)@
            }),
    {
        let x: isize = to_isize(self.selected.x) + dx;
        let y: isize = to_isize(self.selected.y) + dy;
        let (max_x, max_y): (isize, isize) = match board {
            Some((w, h)) => ((w - 1) as isize, (h - 1) as isize),
            None => (0, 0),
        };
        let nx: isize = if x < 0 {
            0
        } else if x > max_x {
            max_x
        } else {
            x
        };
        let ny: isize = if y < 0 {
            0
        } else if y > max_y {
            max_y
        } else {
            y
        };
        self.selected = Pos { x: nx as usize, y: ny as usize };
    }

    /// The action that a key press queues, if any.
    pub fn handle_key_events(&self, key: KeyInput) -> (r: Option<AppEvent>)
        ensures
            opt_event_view(r) == key_event_spec(self.menu_state, key),
    {
        let act = |a: KeyAction| -> (e: Option<AppEvent>)
            ensures
                opt_event_view(e) == Some(AppEventView::KeyAction(a)),
            { Some(AppEvent::KeyAction(a)) };
        match key.code {
            KeyCode::Char(c) => {
                if (c == 'c' || c == 'C') && key.control_only {
                    Some(AppEvent::Quit)
                } else if matches!(self.menu_state, MenuState::Join) {
                    act(KeyAction::Input(c))
                } else if c == 'a' || c == 'h' {
                    act(KeyAction::Left)
                } else if c == 'd' || c == 'l' {
                    act(KeyAction::Right)
                } else if c == 'w' || c == 'k' {
                    act(KeyAction::Up)
                } else if c == 's' || c == 'j' {
                    act(KeyAction::Down)
                } else if c == 'q' {
                    act(KeyAction::Cancel)
                } else if c == ' ' {
                    act(KeyAction::Space)
                } else if c == 'p' {
                    act(KeyAction::Parameters)
                } else if c == 'g' {
                    act(KeyAction::JoinMenu)
                } else if c == 'r' {
                    act(KeyAction::Restart)
                } else if '0' <= c && c <= '9' {
                    act(KeyAction::Digit(c))
                } else {
                    None
                }
            },
            KeyCode::Left => act(KeyAction::Left),
            KeyCode::Right => act(KeyAction::Right),
            KeyCode::Up => act(KeyAction::Up),
            KeyCode::Down => act(KeyAction::Down),
            KeyCode::Enter => act(KeyAction::Accept),
            KeyCode::Esc => act(KeyAction::Cancel),
            KeyCode::Backspace => act(KeyAction::Backspace),
            KeyCode::Other => None,
        }
    }
}


impl App {
    /// The connected game's start event for the current parameters.
    fn start_event(&self, info: GameInfo) -> (e: AppEvent)
        ensures
            e@ == start_or_restart(self@, info),
    {
        if info.connected {
            AppEvent::Restart(self.params)
        } else {
            AppEvent::Start(self.params)
        }
    }

    /// A direction key while the parameter menu is open.
    fn parameter_direction(&mut self, action: KeyAction, modify: bool, sel: ParameterSelections)
        requires
            is_direction(action),
            old(self).menu_state == (MenuState::Parameters { modify, selection: sel }),
        ensures
            final(self)@ == on_parameter_direction(old(self)@, action, modify, sel),
    {
        if modify {
            return ;
        }
        let p = self.params;
        match action {
            KeyAction::Left => match sel {
                ParameterSelections::Width => self.params.width = p.width.saturating_sub(1),
                ParameterSelections::Height => self.params.height = p.height.saturating_sub(1),
                ParameterSelections::Bombs => self.params.bombs = p.bombs.saturating_sub(1),
                ParameterSelections::Cancel => {
                    self.menu_state =
                    MenuState::Parameters { modify, selection: ParameterSelections::Apply }
                },
                ParameterSelections::Apply => {},
            },
            KeyAction::Right => match sel {
                ParameterSelections::Width => self.params.width = p.width.saturating_add(1),
                ParameterSelections::Height => self.params.height = p.height.saturating_add(1),
                ParameterSelections::Bombs => self.params.bombs = p.bombs.saturating_add(1),
                ParameterSelections::Apply => {
                    self.menu_state =
                    MenuState::Parameters { modify, selection: ParameterSelections::Cancel }
                },
                ParameterSelections::Cancel => {},
            },
            KeyAction::Up => match sel {
                ParameterSelections::Height => {
                    self.menu_state =
                    MenuState::Parameters { modify, selection: ParameterSelections::Width }
                },
                ParameterSelections::Bombs => {
                    self.menu_state =
                    MenuState::Parameters { modify, selection: ParameterSelections::Height }
                },
                ParameterSelections::Apply | ParameterSelections::Cancel => {
                    self.menu_state =
                    MenuState::Parameters { modify, selection: ParameterSelections::Bombs }
                },
                ParameterSelections::Width => {},
            },
            _ => match sel {
                ParameterSelections::Width => {
                    self.menu_state =
                    MenuState::Parameters { modify, selection: ParameterSelections::Height }
                },
                ParameterSelections::Height => {
                    self.menu_state =
                    MenuState::Parameters { modify, selection: ParameterSelections::Bombs }
                },
                ParameterSelections::Bombs => {
                    self.menu_state =
                    MenuState::Parameters { modify, selection: ParameterSelections::Apply }
                },
                _ => {},
            },
        }
    }

    /// Enter while the parameter menu is open on one of the three values:
    /// start typing it, or store what was typed if it parses.
    fn accept_value(&mut self, modify: bool, sel: ParameterSelections)
        requires
            is_value_line(sel),
            old(self).menu_state == (MenuState::Parameters { modify, selection: sel }),
        ensures
            (final(self)@, None::<EffectView>) == on_accept(old(self)@, GameInfo { connected: false, board: None }),
    {
        if modify {
            match parse_usize(self.input_buffer.as_str()) {
                Some(v) => match sel {
                    ParameterSelections::Width => self.params.width = v,
                    ParameterSelections::Height => self.params.height = v,
                    _ => self.params.bombs = v,
                },
                None => {},
            }
        } else {
            let v = match sel {
                ParameterSelections::Width => self.params.width,
                ParameterSelections::Height => self.params.height,
                _ => self.params.bombs,
            };
            self.input_buffer = to_decimal(v);
        }
        self.menu_state = MenuState::Parameters { modify: !modify, selection: sel };
    }

    /// Carries out a key action: changes the state as `key_action_spec` says
    /// and returns what the event loop must do next.
    pub fn handle_key_action(&mut self, action: KeyAction, info: GameInfo) -> (r: Option<Effect>)
        requires
            key_action_ok(old(self)@, action, info),
        ensures
            (final(self)@, opt_effect_view(r)) == key_action_spec(old(self)@, action, info),
    {
        let menu = self.menu_state;
        match action {
            KeyAction::Left | KeyAction::Right | KeyAction::Up | KeyAction::Down => {
                match menu {
                    MenuState::Closed => {
                        let (dx, dy): (isize, isize) = match action {
                            KeyAction::Left => (-1, 0),
                            KeyAction::Right => (1, 0),
                            KeyAction::Up => (0, -1),
                            _ => (0, 1),
                        };
                        self.modify_selection(dx, dy, info.board);
                    },
                    MenuState::Parameters { modify, selection } => {
                        self.parameter_direction(action, modify, selection);
                    },
                    _ => {},
                }
                None
            },
            KeyAction::Accept => match menu {
                MenuState::Closed => {
                    if info.connected {
                        Some(Effect::Send(AppEvent::Reveal(self.selected)))
                    } else {
                        None
                    }
                },
                MenuState::Parameters { modify, selection } => match selection {
                    ParameterSelections::Apply => {
                        let e = self.start_event(info);
                        self.menu_state = MenuState::Closed;
                        Some(Effect::Send(e))
                    },
                    ParameterSelections::Cancel => {
                        self.menu_state = MenuState::Closed;
                        None
                    },
                    _ => {
                        self.accept_value(modify, selection);
                        None
                    },
                },
                MenuState::Join => Some(Effect::TryJoin(self.input_buffer.clone())),
                MenuState::InfoMessage(_) => {
                    self.menu_state = MenuState::Closed;
                    None
                },
            },
            KeyAction::Cancel => match menu {
                MenuState::Closed => Some(Effect::Send(AppEvent::Quit)),
                MenuState::Parameters { modify: true, selection } => {
                    self.menu_state = MenuState::Parameters { modify: false, selection };
                    None
                },
                _ => {
                    self.menu_state = MenuState::Closed;
                    None
                },
            },
            KeyAction::Space => {
                if matches!(menu, MenuState::Closed) {
                    Some(Effect::Send(AppEvent::Flag(self.selected)))
                } else {
                    None
                }
            },
            KeyAction::Backspace => {
                match menu {
                    MenuState::Parameters { modify: true, .. } | MenuState::Join => {
                        pop_char(&mut self.input_buffer);
                    },
                    _ => {},
                }
                None
            },
            KeyAction::Digit(d) => {
                if let MenuState::Parameters { modify: true, .. } = menu {
                    push_char(&mut self.input_buffer, d);
                }
                None
            },
            KeyAction::Input(c) => {
                if matches!(menu, MenuState::Join) {
                    push_char(&mut self.input_buffer, c);
                }
                None
            },
            KeyAction::Parameters => {
                match menu {
                    MenuState::Closed => {
                        self.menu_state =
                        MenuState::Parameters {
                            modify: false,
                            selection: ParameterSelections::Width,
                        };
                    },
                    MenuState::Parameters { modify: false, .. } => {
                        self.menu_state = MenuState::Closed;
                    },
                    _ => {},
                }
                None
            },
            KeyAction::JoinMenu => {
                match menu {
                    MenuState::Closed => {
                        self.menu_state = MenuState::Join;
                        self.input_buffer = String::new();
                    },
                    MenuState::Join => {
                        self.menu_state = MenuState::Closed;
                    },
                    _ => {},
                }
                None
            },
            KeyAction::Restart => match menu {
                MenuState::Closed | MenuState::InfoMessage(_) => {
                    let e = self.start_event(info);
                    self.menu_state = MenuState::Closed;
                    Some(Effect::Send(e))
                },
                _ => None,
            },
        }
    }
}


/// What any event does to the state, and what the loop must do next.
pub open spec fn step_spec(s: AppState, e: Event, info: GameInfo) -> (AppState, Option<EffectView>) {
    match e {
        Event::Key(k) => (
            s,
            match key_event_spec(s.menu, k) {
                Some(ev) => Some(EffectView::Send(ev)),
                None => None,
            },
        ),
        Event::App(a) => app_event_spec(s, a@, info),
        Event::Game(g) => (game_event_spec(s, g), None),
    }
}

/// `step` can run on this state.
pub open spec fn step_ok(s: AppState, e: Event, info: GameInfo) -> bool {
    e matches Event::App(a) ==> app_event_ok(s, a@, info)
}

impl App {
    /// Carries out an event of the game client.
    pub fn handle_game_event(&mut self, event: GameEvent)
        ensures
            final(self)@ == game_event_spec(old(self)@, event),
    {
        match event {
            GameEvent::BoardUpdated { .. } => {},
            GameEvent::GameStatusChanged { won, lost } => {
                if won {
                    self.menu_state = MenuState::InfoMessage(Notice::Won);
                } else if lost {
                    self.menu_state = MenuState::InfoMessage(Notice::Lost);
                }
            },
            GameEvent::GameInitialized { width, height, bombs } => {
                self.params = GameParams { width, height, bombs };
            },
            GameEvent::ConnectionLost => self.quit(),
        }
    }

    /// Takes the outcome of joining the game id typed into the join menu.
    pub fn join_finished(&mut self, joined: bool)
        ensures
            final(self)@ == join_finished_spec(old(self)@, joined),
    {
        if joined {
            self.menu_state = MenuState::Closed;
        } else {
            self.menu_state = MenuState::InfoMessage(Notice::InvalidId);
        }
    }

    /// Carries out an application event.
    pub fn handle_app_event(&mut self, event: AppEvent, info: GameInfo) -> (r: Option<Effect>)
        requires
            app_event_ok(old(self)@, event@, info),
        ensures
            (final(self)@, opt_effect_view(r)) == app_event_spec(old(self)@, event@, info),
    {
        match event {
            AppEvent::Start(p) => Some(Effect::Request(GameRequest::Start(p))),
            AppEvent::Join(id) => Some(Effect::Request(GameRequest::Join(id))),
            AppEvent::Reveal(p) => Some(Effect::Request(GameRequest::Reveal(p))),
            AppEvent::Flag(p) => Some(Effect::Request(GameRequest::Flag(p))),
            AppEvent::Restart(p) => Some(Effect::Request(GameRequest::Restart(p))),
            AppEvent::KeyAction(a) => self.handle_key_action(a, info),
            AppEvent::Quit => {
                self.quit();
                None
            },
        }
    }

    /// Carries out one event of the loop: a key press queues what it means,
    /// an application event is carried out, a game event updates the state.
    pub fn step(&mut self, event: Event, info: GameInfo) -> (r: Option<Effect>)
        requires
            step_ok(old(self)@, event, info),
        ensures
            (final(self)@, opt_effect_view(r)) == step_spec(old(self)@, event, info),
    {
        match event {
            Event::Key(k) => match self.handle_key_events(k) {
                Some(e) => Some(Effect::Send(e)),
                None => None,
            },
            Event::App(a) => self.handle_app_event(a, info),
            Event::Game(g) => {
                self.handle_game_event(g);
                None
            },
        }
    }
}

} // verus!
