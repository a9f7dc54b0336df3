use ratatui::buffer::Buffer;
use rustic_yellow::server::game::{render, Client, Game, GameState, KeyCode};
use rustic_yellow::server::server::{convert_data_to_key_code, GameServer, InputRoute};
use rustic_yellow::sixel::Rect;
use std::time::{Duration, Instant};

fn sorted(mut ids: Vec<usize>) -> Vec<usize> {
    ids.sort();
    ids
}

#[test]
fn terminal_bytes_mean_keys() {
    assert_eq!(convert_data_to_key_code(b"\x1b[A"), KeyCode::Up);
    assert_eq!(convert_data_to_key_code(b"\x1b[B"), KeyCode::Down);
    assert_eq!(convert_data_to_key_code(b"\x1b[C"), KeyCode::Right);
    assert_eq!(convert_data_to_key_code(b"\x1b[D"), KeyCode::Left);
    assert_eq!(convert_data_to_key_code(b"\x03"), KeyCode::Esc);
    assert_eq!(convert_data_to_key_code(b"\x1b"), KeyCode::Esc);
    assert_eq!(convert_data_to_key_code(b"\x0d"), KeyCode::Enter);
    assert_eq!(convert_data_to_key_code(b"\x7f"), KeyCode::Backspace);
    assert_eq!(convert_data_to_key_code(b"\x1b[3~"), KeyCode::Delete);
    assert_eq!(convert_data_to_key_code(b"\x09"), KeyCode::Tab);
}

#[test]
fn other_bytes_mean_the_character_of_the_first() {
    assert_eq!(convert_data_to_key_code(b"a"), KeyCode::Char('a'));
    assert_eq!(convert_data_to_key_code(b"abc"), KeyCode::Char('a'));
    assert_eq!(convert_data_to_key_code(b"\x1b[E"), KeyCode::Char('\u{1b}'));
    assert_eq!(convert_data_to_key_code(b"\x1b[3"), KeyCode::Char('\u{1b}'));
    assert_eq!(convert_data_to_key_code(b"\x1b[A "), KeyCode::Char('\u{1b}'));
    assert_eq!(convert_data_to_key_code(&[0xE9]), KeyCode::Char('\u{e9}'));
}

#[test]
fn a_new_client_is_connected() {
    assert_eq!(Client::new(7), Client { id: 7, is_connected: true });
}

#[test]
fn a_new_show_is_starting_and_empty() {
    let t0 = Instant::now();
    let game = Game::with(42, t0);
    assert_eq!(game.id, 42);
    assert_eq!(game.sixel, "not yet");
    assert!(!game.is_running());
    assert!(game.client_ids().is_empty());
    assert!(game.connections_state().is_empty());
    assert_eq!(game.draw().timer, 90);
    let fresh = Game::new();
    assert!(!fresh.is_running());
    assert_eq!(fresh.sixel, "not yet");
    assert_ne!(Game::new().id, fresh.id);
}

#[test]
fn clients_connect_and_disconnect() {
    let mut game = Game::with(1, Instant::now());
    game.add_client_terminal(3);
    game.add_client_terminal(5);
    game.add_client_terminal(9);
    assert_eq!(sorted(game.client_ids()), vec![3, 5, 9]);
    assert_eq!(game.connections_state(), vec![true, true, true]);
    game.disconnect(5);
    game.disconnect(6);
    assert_eq!(sorted(game.client_ids()), vec![3, 5, 9]);
    assert_eq!(sorted(game.draw().clients), vec![3, 9]);
    let mut states = game.connections_state();
    states.sort();
    assert_eq!(states, vec![false, true, true]);
    assert!(game.clear_client(3));
    assert!(!game.clear_client(5));
    assert!(!game.clear_client(6));
    game.add_client_terminal(5);
    assert_eq!(sorted(game.draw().clients), vec![3, 5, 9]);
}

#[test]
fn escape_disconnects_the_client_that_sent_it() {
    let mut game = Game::with(1, Instant::now());
    game.add_client_terminal(1);
    game.add_client_terminal(2);
    game.handle_input(1, KeyCode::Char('x'));
    game.handle_input(1, KeyCode::Enter);
    assert_eq!(sorted(game.draw().clients), vec![1, 2]);
    game.handle_input(1, KeyCode::Esc);
    assert_eq!(game.draw().clients, vec![2]);
}

#[test]
fn the_show_starts_runs_and_ends() {
    let t0 = Instant::now();
    let at = |ms: u64| t0 + Duration::from_millis(ms);
    let mut game = Game::with(1, t0);
    game.add_client_terminal(1);
    game.add_client_terminal(2);
    // too soon after the last update: passed over
    game.advance(at(17), 17, 5000, at(17));
    assert!(!game.is_running());
    // the delay of the start has not passed
    game.advance(at(2000), 2000, 2999, at(2000));
    assert!(!game.is_running());
    game.advance(at(3000), 1000, 3000, at(3000));
    assert!(game.is_running());
    assert_eq!(game.draw().timer, 90);
    game.advance(at(4500), 1500, 0, at(4500));
    assert_eq!(game.draw().timer, 88);
    game.advance(at(93000), 88500, 0, at(93001));
    assert!(game.is_running());
    assert_eq!(game.draw().timer, 0);
    game.advance(at(93018), 18, 0, at(93019));
    assert!(!game.is_running());
    assert_eq!(game.draw().timer, 0);
    // the delay of the end has not passed
    game.advance(at(94000), 982, 999, at(94000));
    assert_eq!(sorted(game.draw().clients), vec![1, 2]);
    game.advance(at(94100), 100, 1000, at(94100));
    assert!(game.draw().clients.is_empty());
    assert_eq!(game.connections_state(), vec![false, false]);
    assert_eq!(sorted(game.client_ids()), vec![1, 2]);
}

#[test]
fn an_update_reads_the_clock() {
    let mut game = Game::with(1, Instant::now() - Duration::from_millis(3500));
    assert!(!game.is_running());
    game.update();
    assert!(game.is_running());
    let state = GameState::Running;
    assert!(matches!(state, GameState::Running));
}

#[test]
fn the_picture_is_set_and_kept() {
    let mut game = Game::with(1, Instant::now());
    game.set_sixel("abc".to_string());
    assert_eq!(game.sixel, "abc");
}

#[test]
fn the_picture_is_drawn_into_the_terminal_buffer() {
    let size = Rect { x: 0, y: 0, width: 40, height: 30 };
    let mut buf = Buffer::empty(ratatui::layout::Rect::new(0, 0, 40, 30));
    let outcome = render(size, &mut buf, "PICTURE");
    assert!(outcome.drawn);
    assert_eq!(outcome.info, Rect { x: 20, y: 29, width: 10, height: 1 });
    assert_eq!(buf.get(0, 0).symbol(), "PICTURE");
    assert!(!buf.get(0, 0).skip);
    assert!(buf.get(38, 28).skip);
    assert!(!buf.get(39, 28).skip);
    assert!(!buf.get(38, 29).skip);
}

#[test]
fn a_buffer_that_is_too_small_is_left_alone() {
    let size = Rect { x: 0, y: 0, width: 40, height: 30 };
    let mut buf = Buffer::empty(ratatui::layout::Rect::new(0, 0, 20, 10));
    let before = buf.clone();
    let outcome = render(size, &mut buf, "PICTURE");
    assert!(!outcome.drawn);
    assert_eq!(buf, before);
}

#[test]
fn clients_get_their_identifiers_in_turn() {
    let mut server = GameServer::new();
    assert_eq!(server.new_client(), 0);
    assert_eq!(server.new_client(), 1);
    assert_eq!(server.new_client(), 2);
}

#[test]
fn bytes_of_a_client_are_routed() {
    let mut server = GameServer::new();
    let id = server.new_client();
    // not in a show: removed
    assert_eq!(server.data(id, b"a"), InputRoute::Remove);
    server.channel_open_session(id, 77);
    assert!(server.window_change_request(id));
    assert!(!server.window_change_request(id + 1));
    assert_eq!(server.data(id, b"a"), InputRoute::Forward(KeyCode::Char('a')));
    assert_eq!(server.data(id, b"\x1b[A"), InputRoute::Forward(KeyCode::Up));
    assert_eq!(server.data(id, b"\x03"), InputRoute::Close);
    assert!(!server.window_change_request(id));
    assert_eq!(server.data(id, b"a"), InputRoute::Remove);
}

#[test]
fn a_closed_session_is_taken_out() {
    let mut server = GameServer::new();
    let a = server.new_client();
    let b = server.new_client();
    server.channel_open_session(a, 1);
    server.channel_open_session(b, 1);
    server.close_session(a);
    assert!(!server.window_change_request(a));
    assert!(server.window_change_request(b));
    server.close_session(a);
    assert!(server.window_change_request(b));
}
