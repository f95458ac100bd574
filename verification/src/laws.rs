//! Properties of the interface that span several events.
use crate::app::{
    app_event_spec, game_event_spec, initial_state, is_value_line, join_finished_spec,
    key_action_spec, key_event_spec, moved, param_value, step_spec, AppState, EffectView, MenuState,
    ParameterSelections,
};
use crate::event::{AppEventView, Event, KeyAction, KeyCode, KeyInput};
use crate::game::{Cell, GameEvent, GameInfo, GameParams, Pos};
use crate::text::{
    all_digits, byte_len, is_digit, lemma_ascii_byte_len, lemma_digits_ascii, lemma_parse_decimal,
    value_of,
};
use crate::view::{cell_text, row_glyphs_ok, Glyph, Tone};
use vstd::prelude::*;

verus! {

/// While a value of the parameter menu is being typed, the selected line is
/// one of the three values and everything typed is an ASCII digit.
pub open spec fn menu_wf(s: AppState) -> bool {
    s.menu matches MenuState::Parameters { modify: true, selection } ==> {
        &&& is_value_line(selection)
        &&& all_digits(s.input)
    }
}

/// A digit action carries a digit.
pub open spec fn digits_are_digits(a: KeyAction) -> bool {
    a matches KeyAction::Digit(d) ==> is_digit(d)
}

/// An event whose key actions, if any, carry digits where they carry digits.
pub open spec fn event_digits_ok(e: Event) -> bool {
    e matches Event::App(ev) ==> (ev@ matches AppEventView::KeyAction(a) ==> digits_are_digits(a))
}

/// The interface starts well formed.
pub proof fn lemma_initial_wf()
    ensures
        menu_wf(initial_state()),
{
}

/// Key presses only ever queue digit actions that carry digits.
pub proof fn lemma_keys_give_digits(menu: MenuState, k: KeyInput)
    ensures
        key_event_spec(menu, k) matches Some(AppEventView::KeyAction(a)) ==> digits_are_digits(a),
{
}

/// Every key action whose digits are digits keeps the interface well formed.
pub proof fn lemma_key_action_wf(s: AppState, a: KeyAction, info: GameInfo)
    requires
        menu_wf(s),
        digits_are_digits(a),
    ensures
        menu_wf(key_action_spec(s, a, info).0),
{
    let t = key_action_spec(s, a, info).0;
    match a {
        KeyAction::Accept => {
            if let MenuState::Parameters { modify: false, selection } = s.menu {
                if is_value_line(selection) {
                    crate::text::lemma_decimal_digits(param_value(s.params, selection) as nat);
                }
            }
        },
        KeyAction::Backspace => {
            if s.menu matches MenuState::Parameters { modify: true, .. } && s.input.len() > 0 {
                assert forall|i: int| 0 <= i < t.input.len() implies is_digit(#[trigger] t.input[i]) by {
                    assert(t.input[i] == s.input[i]);
                }
            }
        },
        KeyAction::Digit(d) => {
            if s.menu matches MenuState::Parameters { modify: true, .. } {
                assert forall|i: int| 0 <= i < t.input.len() implies is_digit(#[trigger] t.input[i]) by {
                    if i < s.input.len() {
                        assert(t.input[i] == s.input[i]);
                    }
                }
            }
        },
        _ => {},
    }
}

/// Every event whose digit actions carry digits keeps the interface well
/// formed, and so do the outcome of a join and the events of the game.
pub proof fn lemma_step_wf(s: AppState, e: Event, info: GameInfo, joined: bool)
    requires
        menu_wf(s),
        event_digits_ok(e),
    ensures
        menu_wf(step_spec(s, e, info).0),
        menu_wf(join_finished_spec(s, joined)),
{
    match e {
        Event::App(ev) => {
            if let AppEventView::KeyAction(a) = ev@ {
                lemma_key_action_wf(s, a, info);
            }
        },
        _ => {},
    }
}

/// While a value is being typed, its text is as many bytes long as it has
/// characters, so the menu's layout may count either.
pub proof fn lemma_typed_value_is_ascii(s: AppState)
    requires
        menu_wf(s),
        s.menu matches MenuState::Parameters { modify: true, .. },
    ensures
        byte_len(s.input) == s.input.len(),
{
    lemma_digits_ascii(s.input);
    lemma_ascii_byte_len(s.input);
}

/// Opening a value for editing and confirming it at once leaves the
/// parameters and the menu as they were.
pub proof fn lemma_edit_roundtrip(s: AppState, sel: ParameterSelections, info: GameInfo)
    requires
        is_value_line(sel),
        s.menu == (MenuState::Parameters { modify: false, selection: sel }),
    ensures
        ({
            let (s1, e1) = key_action_spec(s, KeyAction::Accept, info);
            let (s2, e2) = key_action_spec(s1, KeyAction::Accept, info);
            &&& e1 is None && e2 is None
            &&& s2.params == s.params
            &&& s2.menu == s.menu
            &&& s2.selected == s.selected
            &&& s2.running == s.running
        }),
{
    lemma_parse_decimal(param_value(s.params, sel));
}

/// Opening a value for editing and cancelling leaves the parameters and the
/// menu as they were.
pub proof fn lemma_edit_cancel(s: AppState, sel: ParameterSelections, info: GameInfo)
    requires
        is_value_line(sel),
        s.menu == (MenuState::Parameters { modify: false, selection: sel }),
    ensures
        ({
            let (s1, e1) = key_action_spec(s, KeyAction::Accept, info);
            let (s2, e2) = key_action_spec(s1, KeyAction::Cancel, info);
            &&& e1 is None && e2 is None
            &&& s2.params == s.params
            &&& s2.menu == s.menu
        }),
{
}

/// Down then up, on any of the three value lines, returns to the same state.
pub proof fn lemma_down_up(s: AppState, sel: ParameterSelections, info: GameInfo)
    requires
        is_value_line(sel),
        s.menu == (MenuState::Parameters { modify: false, selection: sel }),
    ensures
        key_action_spec(key_action_spec(s, KeyAction::Down, info).0, KeyAction::Up, info).0 == s,
{
    let s1 = key_action_spec(s, KeyAction::Down, info).0;
    let s2 = key_action_spec(s1, KeyAction::Up, info).0;
    assert(s2 =~= s);
}

/// Up then down, on the height, bombs or apply line, returns to the same state.
pub proof fn lemma_up_down(s: AppState, sel: ParameterSelections, info: GameInfo)
    requires
        sel is Height || sel is Bombs || sel is Apply,
        s.menu == (MenuState::Parameters { modify: false, selection: sel }),
    ensures
        key_action_spec(key_action_spec(s, KeyAction::Up, info).0, KeyAction::Down, info).0 == s,
{
    let s1 = key_action_spec(s, KeyAction::Up, info).0;
    let s2 = key_action_spec(s1, KeyAction::Down, info).0;
    assert(s2 =~= s);
}

/// Left then right on the cancel button, and right then left on the apply
/// button, return to the same state.
pub proof fn lemma_buttons_left_right(s: AppState, info: GameInfo)
    ensures
        s.menu == (MenuState::Parameters { modify: false, selection: ParameterSelections::Cancel })
            ==> key_action_spec(key_action_spec(s, KeyAction::Left, info).0, KeyAction::Right, info).0
            == s,
        s.menu == (MenuState::Parameters { modify: false, selection: ParameterSelections::Apply })
            ==> key_action_spec(key_action_spec(s, KeyAction::Right, info).0, KeyAction::Left, info).0
            == s,
{
}

/// Lowering a value by one and raising it again restores it, unless it was
/// 0; raising and lowering restores it, unless it was `usize::MAX`.
pub proof fn lemma_value_steps(s: AppState, sel: ParameterSelections, info: GameInfo)
    requires
        is_value_line(sel),
        s.menu == (MenuState::Parameters { modify: false, selection: sel }),
    ensures
        param_value(s.params, sel) > 0 ==> key_action_spec(
            key_action_spec(s, KeyAction::Left, info).0,
            KeyAction::Right,
            info,
        ).0 == s,
        param_value(s.params, sel) < usize::MAX ==> key_action_spec(
            key_action_spec(s, KeyAction::Right, info).0,
            KeyAction::Left,
            info,
        ).0 == s,
{
}

/// Opening and closing the parameter menu from the board returns to the same state.
pub proof fn lemma_parameters_toggle(s: AppState, info: GameInfo)
    requires
        s.menu is Closed,
    ensures
        key_action_spec(
            key_action_spec(s, KeyAction::Parameters, info).0,
            KeyAction::Parameters,
            info,
        ).0 == s,
{
}

/// Opening and closing the join menu from the board returns to the board
/// with nothing typed.
pub proof fn lemma_join_toggle(s: AppState, info: GameInfo)
    requires
        s.menu is Closed,
    ensures
        key_action_spec(
            key_action_spec(s, KeyAction::JoinMenu, info).0,
            KeyAction::JoinMenu,
            info,
        ).0 == (AppState { input: Seq::empty(), ..s }),
{
}

/// A move of the selection on a known board ends inside the board.
pub proof fn lemma_moved_in_board(sel: Pos, dx: int, dy: int, w: usize, h: usize)
    requires
        1 <= w,
        1 <= h,
    ensures
        moved(sel, dx, dy, Some((w, h))).x < w,
        moved(sel, dx, dy, Some((w, h))).y < h,
{
}

/// The parameters change only by a left, right or enter key in the parameter menu.
pub proof fn lemma_params_frame(s: AppState, a: KeyAction, info: GameInfo)
    ensures
        key_action_spec(s, a, info).0.params != s.params ==> {
            &&& s.menu is Parameters
            &&& (a is Left || a is Right || a is Accept)
        },
{
}

/// The selection changes only by a direction key on the board.
pub proof fn lemma_selection_frame(s: AppState, a: KeyAction, info: GameInfo)
    ensures
        key_action_spec(s, a, info).0.selected != s.selected ==> s.menu is Closed,
{
}

/// Key actions never call the game client themselves: they queue an event,
/// or ask to join the typed id, or do nothing.
pub proof fn lemma_key_actions_make_no_request(s: AppState, a: KeyAction, info: GameInfo)
    ensures
        !(key_action_spec(s, a, info).1 matches Some(EffectView::Request(_))),
{
}

/// Once the interface stops running, no event starts it again.
pub proof fn lemma_running_stays_off(s: AppState, e: Event, info: GameInfo, joined: bool)
    requires
        !s.running,
    ensures
        !step_spec(s, e, info).0.running,
        !join_finished_spec(s, joined).running,
{
}

/// Quitting: cancel on the board queues the quit event, and handling it stops
/// the interface.
pub proof fn lemma_cancel_quits(s: AppState, info: GameInfo)
    requires
        s.menu is Closed,
    ensures
        key_action_spec(s, KeyAction::Cancel, info).1 == Some(EffectView::Send(AppEventView::Quit)),
        !app_event_spec(s, AppEventView::Quit, info).0.running,
{
}

/// A lost connection stops the interface.
pub proof fn lemma_connection_lost_quits(s: AppState)
    ensures
        !game_event_spec(s, GameEvent::ConnectionLost).running,
{
}

/// Storing a typed value: Enter on a value line that is being edited, when
/// the typed text is one or more ASCII digits whose value `v` fits in a
/// `usize`, sets exactly that parameter to `v`, whatever it was before, keeps
/// the other two, and ends the editing. When the typed text is empty, the
/// parameters stay as they were.
pub proof fn lemma_enter_stores_typed_value(s: AppState, sel: ParameterSelections, info: GameInfo)
    requires
        is_value_line(sel),
        s.menu == (MenuState::Parameters { modify: true, selection: sel }),
    ensures
        ({
            let (t, e) = key_action_spec(s, KeyAction::Accept, info);
            let typed = s.input;
            &&& e is None
            &&& t.menu == (MenuState::Parameters { modify: false, selection: sel })
            &&& (typed.len() > 0 && (forall|i: int| 0 <= i < typed.len() ==> '0' <= #[trigger] typed[i] <= '9')
                && value_of(typed) <= usize::MAX) ==> {
                let v = value_of(typed) as usize;
                &&& sel is Width ==> t.params == (GameParams { width: v, ..s.params })
                &&& sel is Height ==> t.params == (GameParams { height: v, ..s.params })
                &&& sel is Bombs ==> t.params == (GameParams { bombs: v, ..s.params })
            }
            &&& typed.len() == 0 ==> t.params == s.params
        }),
{
    let typed = s.input;
    if typed.len() > 0 && (forall|i: int| 0 <= i < typed.len() ==> '0' <= #[trigger] typed[i] <= '9') {
        assert(all_digits(typed));
        if typed[0] == '+' {
            assert('0' <= typed[0] <= '9');
        }
    }
}

/// A direction key on the board moves the selection by exactly one cell in
/// its direction, held inside the board: left and up stop at 0, right and
/// down at the last column and row. Nothing else changes and nothing is sent.
pub proof fn lemma_direction_steps_one_cell(s: AppState, w: usize, h: usize, connected: bool)
    requires
        s.menu is Closed,
        1 <= w <= isize::MAX,
        1 <= h <= isize::MAX,
        s.selected.x < w,
        s.selected.y < h,
    ensures
        ({
            let info = GameInfo { connected, board: Some((w, h)) };
            let (x, y) = (s.selected.x, s.selected.y);
            let left = key_action_spec(s, KeyAction::Left, info);
            let right = key_action_spec(s, KeyAction::Right, info);
            let up = key_action_spec(s, KeyAction::Up, info);
            let down = key_action_spec(s, KeyAction::Down, info);
            &&& left == (AppState { selected: Pos { x: if x > 0 { (x - 1) as usize } else { 0 }, y }, ..s }, None::<EffectView>)
            &&& right == (AppState { selected: Pos { x: if x + 1 < w { (x + 1) as usize } else { x }, y }, ..s }, None::<EffectView>)
            &&& up == (AppState { selected: Pos { x, y: if y > 0 { (y - 1) as usize } else { 0 } }, ..s }, None::<EffectView>)
            &&& down == (AppState { selected: Pos { x, y: if y + 1 < h { (y + 1) as usize } else { y } }, ..s }, None::<EffectView>)
        }),
{
}

/// Outside the join menu, a press of any ASCII digit key, `0` to `9`, queues
/// the digit action for that very digit, with or without Control.
pub proof fn lemma_digit_keys_queue_digits(menu: MenuState, c: char, control_only: bool)
    requires
        !(menu is Join),
        '0' <= c <= '9',
    ensures
        key_event_spec(menu, KeyInput { code: KeyCode::Char(c), control_only })
            == Some(AppEventView::KeyAction(KeyAction::Digit(c))),
{
}

/// In the drawn board, the glyph of the cell in column `x` of row `y` shows
/// that cell's text, and it is highlighted exactly when the selection is
/// column `x`, row `y`.
pub proof fn lemma_highlight_is_the_selection(
    r: Seq<Glyph>,
    row: Seq<Cell>,
    y: int,
    s: AppState,
    x: int,
)
    requires
        row_glyphs_ok(r, row, y, s),
        0 <= x < row.len(),
    ensures
        r[2 * x]@.text == cell_text(row[x]),
        (r[2 * x]@.tone is Highlight) <==> (s.selected.x == x && s.selected.y == y),
{
    assert(r[2 * x]@ == crate::view::cell_glyph(row[x], x, y, s));
}

/// Space flags the selected cell only on the board: with no menu open it
/// queues a flag for exactly the selected position, and in any menu it queues
/// nothing. Either way the state is unchanged. Enter on the board reveals the
/// selected cell exactly when a game is joined.
pub proof fn lemma_space_flags_only_on_board(s: AppState, info: GameInfo)
    ensures
        key_action_spec(s, KeyAction::Space, info).0 == s,
        s.menu is Closed ==> key_action_spec(s, KeyAction::Space, info).1 == Some(
            EffectView::Send(AppEventView::Flag(s.selected)),
        ),
        !(s.menu is Closed) ==> key_action_spec(s, KeyAction::Space, info).1 is None,
        s.menu is Closed ==> key_action_spec(s, KeyAction::Accept, info) == (
            s,
            if info.connected {
                Some(EffectView::Send(AppEventView::Reveal(s.selected)))
            } else {
                None
            },
        ),
{
}

} // verus!
