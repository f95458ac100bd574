use minesweeper_tui::app::{App, Effect, GameRequest, MenuState, Notice, ParameterSelections};
use minesweeper_tui::event::{AppEvent, Event, KeyAction, KeyCode, KeyInput};
use minesweeper_tui::game::{GameEvent, GameInfo, GameParams, Pos};

fn offline() -> GameInfo {
    GameInfo { connected: false, board: None }
}

fn online(w: usize, h: usize) -> GameInfo {
    GameInfo { connected: true, board: Some((w, h)) }
}

fn key(code: KeyCode) -> KeyInput {
    KeyInput { code, control_only: false }
}

fn params_menu(modify: bool, selection: ParameterSelections) -> MenuState {
    MenuState::Parameters { modify, selection }
}

fn sent(e: Option<Effect>) -> Option<AppEvent> {
    match e {
        Some(Effect::Send(ev)) => Some(ev),
        _ => None,
    }
}

#[test]
fn new_app_state() {
    let app = App::new();
    assert!(app.running);
    assert_eq!(app.menu_state, MenuState::Closed);
    assert_eq!(app.input_buffer, "");
    assert_eq!(app.params, GameParams { width: 9, height: 9, bombs: 10 });
    assert_eq!(app.selected, Pos { x: 0, y: 0 });
    assert_eq!(GameParams::default(), GameParams { width: 9, height: 9, bombs: 10 });
}

#[test]
fn key_mapping() {
    let app = App::new();
    let map = |k: KeyInput| app.handle_key_events(k);
    assert!(matches!(map(KeyInput { code: KeyCode::Char('c'), control_only: true }), Some(AppEvent::Quit)));
    assert!(matches!(map(KeyInput { code: KeyCode::Char('C'), control_only: true }), Some(AppEvent::Quit)));
    assert!(matches!(map(key(KeyCode::Char('c'))), None));
    for c in ['a', 'h'] {
        assert!(matches!(map(key(KeyCode::Char(c))), Some(AppEvent::KeyAction(KeyAction::Left))));
    }
    assert!(matches!(map(key(KeyCode::Left)), Some(AppEvent::KeyAction(KeyAction::Left))));
    for c in ['d', 'l'] {
        assert!(matches!(map(key(KeyCode::Char(c))), Some(AppEvent::KeyAction(KeyAction::Right))));
    }
    for c in ['w', 'k'] {
        assert!(matches!(map(key(KeyCode::Char(c))), Some(AppEvent::KeyAction(KeyAction::Up))));
    }
    for c in ['s', 'j'] {
        assert!(matches!(map(key(KeyCode::Char(c))), Some(AppEvent::KeyAction(KeyAction::Down))));
    }
    assert!(matches!(map(key(KeyCode::Right)), Some(AppEvent::KeyAction(KeyAction::Right))));
    assert!(matches!(map(key(KeyCode::Up)), Some(AppEvent::KeyAction(KeyAction::Up))));
    assert!(matches!(map(key(KeyCode::Down)), Some(AppEvent::KeyAction(KeyAction::Down))));
    assert!(matches!(map(key(KeyCode::Enter)), Some(AppEvent::KeyAction(KeyAction::Accept))));
    assert!(matches!(map(key(KeyCode::Esc)), Some(AppEvent::KeyAction(KeyAction::Cancel))));
    assert!(matches!(map(key(KeyCode::Char('q'))), Some(AppEvent::KeyAction(KeyAction::Cancel))));
    assert!(matches!(map(key(KeyCode::Char(' '))), Some(AppEvent::KeyAction(KeyAction::Space))));
    assert!(matches!(map(key(KeyCode::Backspace)), Some(AppEvent::KeyAction(KeyAction::Backspace))));
    assert!(matches!(map(key(KeyCode::Char('p'))), Some(AppEvent::KeyAction(KeyAction::Parameters))));
    assert!(matches!(map(key(KeyCode::Char('g'))), Some(AppEvent::KeyAction(KeyAction::JoinMenu))));
    assert!(matches!(map(key(KeyCode::Char('r'))), Some(AppEvent::KeyAction(KeyAction::Restart))));
    assert!(matches!(map(key(KeyCode::Char('7'))), Some(AppEvent::KeyAction(KeyAction::Digit('7')))));
    assert!(matches!(map(key(KeyCode::Char('x'))), None));
    assert!(matches!(map(key(KeyCode::Other)), None));
}

#[test]
fn key_mapping_in_join_menu_types_characters() {
    let mut app = App::new();
    app.menu_state = MenuState::Join;
    assert!(matches!(app.handle_key_events(key(KeyCode::Char('q'))), Some(AppEvent::KeyAction(KeyAction::Input('q')))));
    assert!(matches!(app.handle_key_events(key(KeyCode::Char('5'))), Some(AppEvent::KeyAction(KeyAction::Input('5')))));
    assert!(matches!(
        app.handle_key_events(KeyInput { code: KeyCode::Char('c'), control_only: true }),
        Some(AppEvent::Quit)
    ));
    assert!(matches!(app.handle_key_events(key(KeyCode::Enter)), Some(AppEvent::KeyAction(KeyAction::Accept))));
}

#[test]
fn moving_the_selection_stays_on_the_board() {
    let mut app = App::new();
    let info = online(3, 2);
    app.handle_key_action(KeyAction::Left, info);
    assert_eq!(app.selected, Pos { x: 0, y: 0 });
    app.handle_key_action(KeyAction::Up, info);
    assert_eq!(app.selected, Pos { x: 0, y: 0 });
    for _ in 0..5 {
        app.handle_key_action(KeyAction::Right, info);
    }
    assert_eq!(app.selected, Pos { x: 2, y: 0 });
    for _ in 0..5 {
        app.handle_key_action(KeyAction::Down, info);
    }
    assert_eq!(app.selected, Pos { x: 2, y: 1 });
    app.handle_key_action(KeyAction::Left, info);
    assert_eq!(app.selected, Pos { x: 1, y: 1 });
}

#[test]
fn moving_without_a_board_goes_to_the_corner() {
    let mut app = App::new();
    app.selected = Pos { x: 4, y: 4 };
    app.handle_key_action(KeyAction::Right, offline());
    assert_eq!(app.selected, Pos { x: 0, y: 0 });
}

#[test]
fn modify_selection_clamps_both_ways() {
    let mut app = App::new();
    app.selected = Pos { x: 10, y: 10 };
    app.modify_selection(1, -1, Some((5, 20)));
    assert_eq!(app.selected, Pos { x: 4, y: 9 });
}

#[test]
fn reveal_and_flag_need_the_board() {
    let mut app = App::new();
    app.selected = Pos { x: 1, y: 2 };
    assert!(app.handle_key_action(KeyAction::Accept, offline()).is_none());
    let e = sent(app.handle_key_action(KeyAction::Accept, online(9, 9)));
    assert!(matches!(e, Some(AppEvent::Reveal(Pos { x: 1, y: 2 }))));
    let e = sent(app.handle_key_action(KeyAction::Space, offline()));
    assert!(matches!(e, Some(AppEvent::Flag(Pos { x: 1, y: 2 }))));
    app.menu_state = MenuState::Join;
    assert!(app.handle_key_action(KeyAction::Space, offline()).is_none());
}

#[test]
fn cancel_on_the_board_quits() {
    let mut app = App::new();
    let e = sent(app.handle_key_action(KeyAction::Cancel, offline()));
    assert!(matches!(e, Some(AppEvent::Quit)));
    assert!(app.running);
    let r = app.handle_app_event(AppEvent::Quit, offline());
    assert!(r.is_none());
    assert!(!app.running);
}

#[test]
fn parameter_menu_navigation() {
    let mut app = App::new();
    app.handle_key_action(KeyAction::Parameters, offline());
    assert_eq!(app.menu_state, params_menu(false, ParameterSelections::Width));
    app.handle_key_action(KeyAction::Up, offline());
    assert_eq!(app.menu_state, params_menu(false, ParameterSelections::Width));
    app.handle_key_action(KeyAction::Down, offline());
    assert_eq!(app.menu_state, params_menu(false, ParameterSelections::Height));
    app.handle_key_action(KeyAction::Down, offline());
    assert_eq!(app.menu_state, params_menu(false, ParameterSelections::Bombs));
    app.handle_key_action(KeyAction::Up, offline());
    assert_eq!(app.menu_state, params_menu(false, ParameterSelections::Height));
    app.handle_key_action(KeyAction::Down, offline());
    app.handle_key_action(KeyAction::Down, offline());
    assert_eq!(app.menu_state, params_menu(false, ParameterSelections::Apply));
    app.handle_key_action(KeyAction::Down, offline());
    assert_eq!(app.menu_state, params_menu(false, ParameterSelections::Apply));
    app.handle_key_action(KeyAction::Left, offline());
    assert_eq!(app.menu_state, params_menu(false, ParameterSelections::Apply));
    app.handle_key_action(KeyAction::Right, offline());
    assert_eq!(app.menu_state, params_menu(false, ParameterSelections::Cancel));
    app.handle_key_action(KeyAction::Right, offline());
    assert_eq!(app.menu_state, params_menu(false, ParameterSelections::Cancel));
    app.handle_key_action(KeyAction::Up, offline());
    assert_eq!(app.menu_state, params_menu(false, ParameterSelections::Bombs));
    app.handle_key_action(KeyAction::Down, offline());
    app.handle_key_action(KeyAction::Right, offline());
    app.handle_key_action(KeyAction::Left, offline());
    assert_eq!(app.menu_state, params_menu(false, ParameterSelections::Apply));
    app.handle_key_action(KeyAction::Parameters, offline());
    assert_eq!(app.menu_state, MenuState::Closed);
}

#[test]
fn left_and_right_change_values_saturating() {
    let mut app = App::new();
    app.menu_state = params_menu(false, ParameterSelections::Width);
    app.handle_key_action(KeyAction::Right, offline());
    assert_eq!(app.params.width, 10);
    app.handle_key_action(KeyAction::Left, offline());
    app.handle_key_action(KeyAction::Left, offline());
    assert_eq!(app.params.width, 8);
    app.menu_state = params_menu(false, ParameterSelections::Bombs);
    app.params.bombs = 0;
    app.handle_key_action(KeyAction::Left, offline());
    assert_eq!(app.params.bombs, 0);
    app.params.bombs = usize::MAX;
    app.handle_key_action(KeyAction::Right, offline());
    assert_eq!(app.params.bombs, usize::MAX);
    app.menu_state = params_menu(false, ParameterSelections::Height);
    app.handle_key_action(KeyAction::Right, offline());
    assert_eq!(app.params, GameParams { width: 8, height: 10, bombs: usize::MAX });
}

#[test]
fn editing_a_value() {
    let mut app = App::new();
    app.menu_state = params_menu(false, ParameterSelections::Height);
    app.handle_key_action(KeyAction::Accept, offline());
    assert_eq!(app.menu_state, params_menu(true, ParameterSelections::Height));
    assert_eq!(app.input_buffer, "9");
    // nothing moves while typing
    app.handle_key_action(KeyAction::Down, offline());
    app.handle_key_action(KeyAction::Right, offline());
    assert_eq!(app.menu_state, params_menu(true, ParameterSelections::Height));
    assert_eq!(app.params.height, 9);
    app.handle_key_action(KeyAction::Backspace, offline());
    app.handle_key_action(KeyAction::Digit('1'), offline());
    app.handle_key_action(KeyAction::Digit('6'), offline());
    app.handle_key_action(KeyAction::Input('x'), offline());
    assert_eq!(app.input_buffer, "16");
    app.handle_key_action(KeyAction::Accept, offline());
    assert_eq!(app.menu_state, params_menu(false, ParameterSelections::Height));
    assert_eq!(app.params.height, 16);
}

#[test]
fn an_empty_value_is_not_stored() {
    let mut app = App::new();
    app.menu_state = params_menu(false, ParameterSelections::Bombs);
    app.handle_key_action(KeyAction::Accept, offline());
    app.handle_key_action(KeyAction::Backspace, offline());
    app.handle_key_action(KeyAction::Backspace, offline());
    app.handle_key_action(KeyAction::Backspace, offline());
    assert_eq!(app.input_buffer, "");
    app.handle_key_action(KeyAction::Accept, offline());
    assert_eq!(app.params.bombs, 10);
    assert_eq!(app.menu_state, params_menu(false, ParameterSelections::Bombs));
}

#[test]
fn cancel_while_editing_keeps_the_value() {
    let mut app = App::new();
    app.menu_state = params_menu(false, ParameterSelections::Width);
    app.handle_key_action(KeyAction::Accept, offline());
    app.handle_key_action(KeyAction::Digit('5'), offline());
    app.handle_key_action(KeyAction::Cancel, offline());
    assert_eq!(app.menu_state, params_menu(false, ParameterSelections::Width));
    assert_eq!(app.params.width, 9);
    app.handle_key_action(KeyAction::Cancel, offline());
    assert_eq!(app.menu_state, MenuState::Closed);
}

#[test]
fn accepting_at_once_keeps_the_value() {
    let mut app = App::new();
    app.params.width = 123456;
    app.menu_state = params_menu(false, ParameterSelections::Width);
    app.handle_key_action(KeyAction::Accept, offline());
    app.handle_key_action(KeyAction::Accept, offline());
    assert_eq!(app.params.width, 123456);
}

#[test]
fn apply_starts_or_restarts() {
    let mut app = App::new();
    app.params = GameParams { width: 5, height: 6, bombs: 7 };
    app.menu_state = params_menu(false, ParameterSelections::Apply);
    let e = sent(app.handle_key_action(KeyAction::Accept, offline()));
    assert!(matches!(e, Some(AppEvent::Start(GameParams { width: 5, height: 6, bombs: 7 }))));
    assert_eq!(app.menu_state, MenuState::Closed);
    app.menu_state = params_menu(false, ParameterSelections::Apply);
    let e = sent(app.handle_key_action(KeyAction::Accept, online(5, 6)));
    assert!(matches!(e, Some(AppEvent::Restart(GameParams { width: 5, height: 6, bombs: 7 }))));
    app.menu_state = params_menu(false, ParameterSelections::Cancel);
    assert!(app.handle_key_action(KeyAction::Accept, online(5, 6)).is_none());
    assert_eq!(app.menu_state, MenuState::Closed);
}

#[test]
fn restart_key() {
    let mut app = App::new();
    let e = sent(app.handle_key_action(KeyAction::Restart, online(9, 9)));
    assert!(matches!(e, Some(AppEvent::Restart(_))));
    app.menu_state = MenuState::InfoMessage(Notice::Lost);
    let e = sent(app.handle_key_action(KeyAction::Restart, offline()));
    assert!(matches!(e, Some(AppEvent::Start(_))));
    assert_eq!(app.menu_state, MenuState::Closed);
    app.menu_state = MenuState::Join;
    assert!(app.handle_key_action(KeyAction::Restart, offline()).is_none());
    assert_eq!(app.menu_state, MenuState::Join);
}

#[test]
fn join_menu_flow() {
    let mut app = App::new();
    app.input_buffer = String::from("old");
    app.handle_key_action(KeyAction::JoinMenu, offline());
    assert_eq!(app.menu_state, MenuState::Join);
    assert_eq!(app.input_buffer, "");
    for c in "ab1".chars() {
        app.handle_key_action(KeyAction::Input(c), offline());
    }
    app.handle_key_action(KeyAction::Digit('9'), offline());
    app.handle_key_action(KeyAction::Backspace, offline());
    app.handle_key_action(KeyAction::Input('2'), offline());
    assert_eq!(app.input_buffer, "ab2");
    match app.handle_key_action(KeyAction::Accept, offline()) {
        Some(Effect::TryJoin(id)) => assert_eq!(id, "ab2"),
        _ => panic!("expected a join attempt"),
    }
    assert_eq!(app.menu_state, MenuState::Join);
    app.join_finished(false);
    assert_eq!(app.menu_state, MenuState::InfoMessage(Notice::InvalidId));
    app.handle_key_action(KeyAction::Accept, offline());
    assert_eq!(app.menu_state, MenuState::Closed);
    app.menu_state = MenuState::Join;
    app.join_finished(true);
    assert_eq!(app.menu_state, MenuState::Closed);
}

#[test]
fn join_menu_toggles() {
    let mut app = App::new();
    app.handle_key_action(KeyAction::JoinMenu, offline());
    app.handle_key_action(KeyAction::JoinMenu, offline());
    assert_eq!(app.menu_state, MenuState::Closed);
    app.menu_state = params_menu(false, ParameterSelections::Width);
    app.handle_key_action(KeyAction::JoinMenu, offline());
    assert_eq!(app.menu_state, params_menu(false, ParameterSelections::Width));
}

#[test]
fn parameters_key_does_nothing_while_editing() {
    let mut app = App::new();
    app.menu_state = params_menu(true, ParameterSelections::Width);
    app.handle_key_action(KeyAction::Parameters, offline());
    assert_eq!(app.menu_state, params_menu(true, ParameterSelections::Width));
    app.menu_state = MenuState::Join;
    app.handle_key_action(KeyAction::Parameters, offline());
    assert_eq!(app.menu_state, MenuState::Join);
}

#[test]
fn cancel_closes_other_menus() {
    let mut app = App::new();
    app.menu_state = MenuState::Join;
    assert!(app.handle_key_action(KeyAction::Cancel, offline()).is_none());
    assert_eq!(app.menu_state, MenuState::Closed);
    app.menu_state = MenuState::InfoMessage(Notice::Won);
    app.handle_key_action(KeyAction::Cancel, offline());
    assert_eq!(app.menu_state, MenuState::Closed);
}

#[test]
fn game_events() {
    let mut app = App::new();
    app.handle_game_event(GameEvent::BoardUpdated { changed_positions: vec![Pos { x: 0, y: 0 }] });
    assert_eq!(app.menu_state, MenuState::Closed);
    app.handle_game_event(GameEvent::GameStatusChanged { won: false, lost: false });
    assert_eq!(app.menu_state, MenuState::Closed);
    app.handle_game_event(GameEvent::GameStatusChanged { won: true, lost: false });
    assert_eq!(app.menu_state, MenuState::InfoMessage(Notice::Won));
    app.handle_game_event(GameEvent::GameStatusChanged { won: false, lost: true });
    assert_eq!(app.menu_state, MenuState::InfoMessage(Notice::Lost));
    app.handle_game_event(GameEvent::GameStatusChanged { won: true, lost: true });
    assert_eq!(app.menu_state, MenuState::InfoMessage(Notice::Won));
    app.handle_game_event(GameEvent::GameInitialized { width: 30, height: 16, bombs: 99 });
    assert_eq!(app.params, GameParams { width: 30, height: 16, bombs: 99 });
    assert!(app.running);
    app.handle_game_event(GameEvent::ConnectionLost);
    assert!(!app.running);
}

#[test]
fn app_events_become_requests() {
    let mut app = App::new();
    let p = GameParams { width: 4, height: 4, bombs: 2 };
    assert!(matches!(app.handle_app_event(AppEvent::Start(p), offline()), Some(Effect::Request(GameRequest::Start(q))) if q == p));
    assert!(matches!(app.handle_app_event(AppEvent::Restart(p), offline()), Some(Effect::Request(GameRequest::Restart(q))) if q == p));
    assert!(matches!(app.handle_app_event(AppEvent::Reveal(Pos { x: 1, y: 1 }), offline()), Some(Effect::Request(GameRequest::Reveal(Pos { x: 1, y: 1 })))));
    assert!(matches!(app.handle_app_event(AppEvent::Flag(Pos { x: 2, y: 0 }), offline()), Some(Effect::Request(GameRequest::Flag(Pos { x: 2, y: 0 })))));
    match app.handle_app_event(AppEvent::Join(String::from("xyz")), offline()) {
        Some(Effect::Request(GameRequest::Join(id))) => assert_eq!(id, "xyz"),
        _ => panic!("expected a join request"),
    }
    assert!(app.handle_app_event(AppEvent::KeyAction(KeyAction::Parameters), offline()).is_none());
    assert_eq!(app.menu_state, params_menu(false, ParameterSelections::Width));
}

#[test]
fn step_dispatches() {
    let mut app = App::new();
    let r = app.step(Event::Key(key(KeyCode::Char('p'))), offline());
    assert!(matches!(sent(r), Some(AppEvent::KeyAction(KeyAction::Parameters))));
    assert_eq!(app.menu_state, MenuState::Closed);
    let r = app.step(Event::App(AppEvent::KeyAction(KeyAction::Parameters)), offline());
    assert!(r.is_none());
    assert_eq!(app.menu_state, params_menu(false, ParameterSelections::Width));
    let r = app.step(Event::Game(GameEvent::ConnectionLost), offline());
    assert!(r.is_none());
    assert!(!app.running);
    assert!(app.step(Event::Key(key(KeyCode::Other)), offline()).is_none());
}

#[test]
fn quit_stops_running() {
    let mut app = App::new();
    app.quit();
    assert!(!app.running);
    app.step(Event::App(AppEvent::KeyAction(KeyAction::Restart)), online(3, 3));
    assert!(!app.running);
}

#[test]
fn moving_from_past_isize_max_clamps() {
    let mut app = App::new();
    app.selected = Pos { x: usize::MAX, y: (isize::MAX as usize) + 5 };
    app.modify_selection(1, 0, Some((4, 4)));
    assert_eq!(app.selected, Pos { x: 0, y: 0 });
    app.selected = Pos { x: usize::MAX - 3, y: 2 };
    app.modify_selection(0, 1, None);
    assert_eq!(app.selected, Pos { x: 0, y: 0 });
    app.selected = Pos { x: isize::MAX as usize, y: 1 };
    app.modify_selection(-1, 0, Some((10, 10)));
    assert_eq!(app.selected, Pos { x: 9, y: 1 });
}
