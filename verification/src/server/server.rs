//! Who is connected, and what becomes of the bytes that a terminal sends.

use std::collections::HashMap;
use vstd::prelude::*;
use crate::server::game::KeyCode;

verus! {

pub const TERMINAL_WIDTH: u16 = 40;

pub const TERMINAL_HEIGHT: u16 = 30;

/// Seconds without traffic after which a connection is dropped.
pub const INACTIVITY_TIMEOUT: u64 = 100;

/// The key that a terminal means by the bytes `data`: the escape
/// sequences of the arrows and of delete, the control bytes of a few keys,
/// and for everything else the character of the first byte.
pub open spec fn key_code_of(data: Seq<u8>) -> KeyCode
    recommends
        data.len() > 0,
{
    if data == seq![0x1bu8, 0x5bu8, 0x41u8] {
        KeyCode::Up
    } else if data == seq![0x1bu8, 0x5bu8, 0x42u8] {
        KeyCode::Down
    } else if data == seq![0x1bu8, 0x5bu8, 0x43u8] {
        KeyCode::Right
    } else if data == seq![0x1bu8, 0x5bu8, 0x44u8] {
        KeyCode::Left
    } else if data == seq![0x03u8] || data == seq![0x1bu8] {
        KeyCode::Esc
    } else if data == seq![0x0du8] {
        KeyCode::Enter
    } else if data == seq![0x7fu8] {
        KeyCode::Backspace
    } else if data == seq![0x1bu8, 0x5bu8, 0x33u8, 0x7eu8] {
        KeyCode::Delete
    } else if data == seq![0x09u8] {
        KeyCode::Tab
    } else {
        KeyCode::Char(data[0] as char)
    }
}

/// The key that a terminal means by the bytes `data`.
pub fn convert_data_to_key_code(data: &[u8]) -> (out: KeyCode)
    requires
        data@.len() > 0,
    ensures
        out == key_code_of(data@),
{
    let n: usize = data.len();
    if n == 3 && data[0] == 0x1b && data[1] == 0x5b {
        let last: u8 = data[2];
        if last == 0x41 {
            assert(data@ =~= seq![0x1bu8, 0x5bu8, 0x41u8]);
            return KeyCode::Up;
        } else if last == 0x42 {
            assert(data@ =~= seq![0x1bu8, 0x5bu8, 0x42u8]);
            return KeyCode::Down;
        } else if last == 0x43 {
            assert(data@ =~= seq![0x1bu8, 0x5bu8, 0x43u8]);
            return KeyCode::Right;
        } else if last == 0x44 {
            assert(data@ =~= seq![0x1bu8, 0x5bu8, 0x44u8]);
            return KeyCode::Left;
        }
    }
    if n == 4 && data[0] == 0x1b && data[1] == 0x5b && data[2] == 0x33 && data[3] == 0x7e {
        assert(data@ =~= seq![0x1bu8, 0x5bu8, 0x33u8, 0x7eu8]);
        return KeyCode::Delete;
    }
    if n == 1 {
        let only: u8 = data[0];
        assert(data@ =~= seq![only]);
        if only == 0x03 || only == 0x1b {
            return KeyCode::Esc;
        } else if only == 0x0d {
            return KeyCode::Enter;
        } else if only == 0x7f {
            return KeyCode::Backspace;
        } else if only == 0x09 {
            return KeyCode::Tab;
        }
    }
    proof {
        let d = data@;
        assert(seq![0x1bu8, 0x5bu8, 0x41u8].len() == 3);
        assert(seq![0x1bu8, 0x5bu8, 0x42u8][2] == 0x42);
        assert(seq![0x1bu8, 0x5bu8, 0x43u8][2] == 0x43);
        assert(seq![0x1bu8, 0x5bu8, 0x44u8][2] == 0x44);
        assert(seq![0x1bu8, 0x5bu8, 0x41u8][2] == 0x41);
        assert(seq![0x1bu8, 0x5bu8, 0x33u8, 0x7eu8][3] == 0x7e);
        assert(seq![0x03u8][0] == 0x03 && seq![0x1bu8][0] == 0x1b && seq![0x0du8][0] == 0x0d
            && seq![0x7fu8][0] == 0x7f && seq![0x09u8][0] == 0x09);
    }
    KeyCode::Char(data[0] as char)
}

/// What becomes of the bytes that a client has sent.
#[derive(Clone, Copy, Debug, PartialEq, Eq, Structural)]
pub enum InputRoute {
    /// The client asked to leave: its session is closed.
    Close,
    /// The client still waits to be let in: the key is dropped.
    Ignore,
    /// The key goes to the show.
    Forward(KeyCode),
    /// The client is in no show: it is removed and disconnected.
    Remove,
}

/// The mathematical content of the register of clients.
pub struct ServerModel {
    /// The show that each client watches, by the show's identifier.
    pub clients_to_game: Map<usize, u128>,
    /// The identifier that the next client gets.
    pub client_id: usize,
    /// The client that waits to be let in, if one does.
    pub pending_client: Option<usize>,
}

impl ServerModel {
    /// What becomes of the key `key` from the client `client_id`.
    pub open spec fn route(self, client_id: usize, key: KeyCode) -> InputRoute {
        if key == KeyCode::Esc {
            InputRoute::Close
        } else if self.pending_client == Some(client_id) {
            InputRoute::Ignore
        } else if self.clients_to_game.dom().contains(client_id) {
            InputRoute::Forward(key)
        } else {
            InputRoute::Remove
        }
    }

    /// The register without the client `client_id`.
    pub open spec fn without(self, client_id: usize) -> ServerModel {
        ServerModel {
            clients_to_game: self.clients_to_game.remove(client_id),
            pending_client: if self.pending_client == Some(client_id) {
                None
            } else {
                self.pending_client
            },
            ..self
        }
    }

    /// The register after the bytes of key `key` from `client_id` have
    /// been dealt with: a client that leaves or is in no show is taken
    /// out.
    pub open spec fn after_data(self, client_id: usize, key: KeyCode) -> ServerModel {
        match self.route(client_id, key) {
            InputRoute::Close => self.without(client_id),
            InputRoute::Remove => ServerModel {
                clients_to_game: self.clients_to_game.remove(client_id),
                ..self
            },
            _ => self,
        }
    }
}

/// The register of clients.
pub struct GameServer {
    clients_to_game: HashMap<usize, u128>,
    client_id: usize,
    pending_client: Option<usize>,
}

impl View for GameServer {
    type V = ServerModel;

    closed spec fn view(&self) -> ServerModel {
        ServerModel {
            clients_to_game: self.clients_to_game@,
            client_id: self.client_id,
            pending_client: self.pending_client,
        }
    }
}

impl GameServer {
    /// An empty register; the first client gets the identifier 0.
    pub fn new() -> (out: GameServer)
        ensures
            out@ == (ServerModel {
                clients_to_game: Map::empty(),
                client_id: 0,
                pending_client: None,
            }),
    {
        GameServer { clients_to_game: HashMap::new(), client_id: 0, pending_client: None }
    }

    /// The identifier for a client that connects. The next client gets the
    /// next number; after the last number the count starts again at 0.
    pub fn new_client(&mut self) -> (id: usize)
        ensures
            id == old(self)@.client_id,
            final(self)@ == (ServerModel {
                client_id: if id == usize::MAX {
                    0
                } else {
                    (id + 1) as usize
                },
                ..old(self)@
            }),
    {
        let id: usize = self.client_id;
        self.client_id = id.wrapping_add(1);
        id
    }

    /// Enters the client `client_id` as watching the show `game_id`.
    pub fn channel_open_session(&mut self, client_id: usize, game_id: u128)
        ensures
            final(self)@ == (ServerModel {
                clients_to_game: old(self)@.clients_to_game.insert(client_id, game_id),
                ..old(self)@
            }),
    {
        broadcast use vstd::std_specs::hash::group_hash_axioms;

        self.clients_to_game.insert(client_id, game_id);
    }

    /// Takes the client `client_id` out of the register; if it was the one
    /// waiting to be let in, nobody waits any more.
    pub fn close_session(&mut self, client_id: usize)
        ensures
            final(self)@ == old(self)@.without(client_id),
    {
        broadcast use vstd::std_specs::hash::group_hash_axioms;

        self.clients_to_game.remove(&client_id);
        match self.pending_client {
            Some(pending) => {
                if pending == client_id {
                    self.pending_client = None;
                }
            },
            None => {},
        }
    }

    /// Whether the terminal of the client `client_id` is to be cleared
    /// after its window has changed: it is where the client watches a show.
    pub fn window_change_request(&self, client_id: usize) -> (out: bool)
        ensures
            out == self@.clients_to_game.dom().contains(client_id),
    {
        broadcast use vstd::std_specs::hash::group_hash_axioms;

        self.clients_to_game.contains_key(&client_id)
    }

    /// Deals with bytes that the client `client_id` has sent: says what
    /// becomes of them, and takes the client out where it leaves or is in
    /// no show.
    pub fn data(&mut self, client_id: usize, data: &[u8]) -> (out: InputRoute)
        requires
            data@.len() > 0,
        ensures
            out == old(self)@.route(client_id, key_code_of(data@)),
            final(self)@ == old(self)@.after_data(client_id, key_code_of(data@)),
    {
        broadcast use vstd::std_specs::hash::group_hash_axioms;

        let key: KeyCode = convert_data_to_key_code(data);
        if key == KeyCode::Esc {
            self.close_session(client_id);
            return InputRoute::Close;
        }
        match self.pending_client {
            Some(pending) => {
                if pending == client_id {
                    return InputRoute::Ignore;
                }
            },
            None => {},
        }
        if self.clients_to_game.contains_key(&client_id) {
            return InputRoute::Forward(key);
        }
        self.clients_to_game.remove(&client_id);
        InputRoute::Remove
    }
}

} // verus!
