//! The show that connected terminals watch: it starts after a delay, runs
//! for a fixed time and ends by disconnecting everybody.

use ratatui::buffer::Buffer;
use std::collections::HashMap;
use std::time::Instant;
use vstd::prelude::*;
use vstd::std_specs::hash::spec_keys_iter;
use vstd::std_specs::iter::IteratorSpec;
use crate::sixel::{
    buffer_area, buffer_skips, buffer_symbols, drawable, new_rect, rect_new, render_area_of,
    render_sixel_checked, skips_after, Rect,
};

verus! {

/// Updates that come closer together than this many milliseconds are
/// passed over.
pub const MINIMUM_DELTATIME_MILLISECONDS: u128 = 18;

pub const GAME_DURATION_MILLISECONDS: u128 = 90000;

pub const STARTING_DELAY_MILLISECONDS: u128 = 3000;

pub const ENDING_DELAY_MILLISECONDS: u128 = 1000;

/// Width of the encoded picture in terminal cells.
pub const SIXEL_COLUMNS: u16 = 40;

/// Height of the encoded picture in terminal cells.
pub const SIXEL_ROWS: u16 = 30;

#[verifier::external_type_specification]
#[verifier::external_body]
pub struct ExInstant(Instant);

/// `Instant::now` of std. Nothing is known of the moment it returns.
#[verifier::external_body]
pub(crate) fn now() -> Instant {
    Instant::now()
}

/// `Instant::duration_since` and `Duration::as_millis` of std: the whole
/// milliseconds from `earlier` to `later`, and 0 where `earlier` is the
/// later one.
#[verifier::external_body]
pub(crate) fn millis_between(later: &Instant, earlier: &Instant) -> u128 {
    later.duration_since(*earlier).as_millis()
}

/// `Uuid::new_v4` of uuid, as a number: a random identifier.
#[verifier::external_body]
pub(crate) fn fresh_id() -> u128 {
    uuid::Uuid::new_v4().as_u128()
}

/// A key as a terminal sends it.
#[derive(Clone, Copy, Debug, PartialEq, Eq, Structural)]
pub enum KeyCode {
    Up,
    Down,
    Right,
    Left,
    Esc,
    Enter,
    Backspace,
    Delete,
    Tab,
    Char(char),
}

/// Where the show stands.
#[derive(Clone, Copy)]
pub enum GameState {
    Starting { time: Instant },
    Running,
    Ending { time: Instant },
}

/// A terminal that has connected.
#[derive(Clone, Copy, Debug, PartialEq, Eq, Structural)]
pub struct Client {
    pub id: usize,
    pub is_connected: bool,
}

impl Client {
    /// A connected client.
    pub fn new(id: usize) -> (out: Client)
        ensures
            out == (Client { id, is_connected: true }),
    {
        Client { id, is_connected: true }
    }
}

/// The mathematical content of the show.
pub struct GameModel {
    pub clients: Map<usize, Client>,
    pub id: u128,
    pub timer: u128,
    pub last_tick: Instant,
    pub state: GameState,
    pub sixel: Seq<char>,
}

/// `a + b`, kept to what 128 bits hold.
pub open spec fn saturating_sum(a: u128, b: u128) -> u128 {
    if a + b > u128::MAX {
        u128::MAX
    } else {
        (a + b) as u128
    }
}

/// The clients with every one marked as disconnected.
pub open spec fn all_disconnected(clients: Map<usize, Client>) -> Map<usize, Client> {
    Map::new(
        |k: usize| clients.dom().contains(k),
        |k: usize| Client { is_connected: false, ..clients[k] },
    )
}

impl GameModel {
    /// The show after a client with `client_id` has connected.
    pub open spec fn add_client(self, client_id: usize) -> GameModel {
        GameModel {
            clients: self.clients.insert(client_id, Client { id: client_id, is_connected: true }),
            ..self
        }
    }

    /// The show after the client with `client_id` has been disconnected.
    pub open spec fn disconnect(self, client_id: usize) -> GameModel {
        if self.clients.dom().contains(client_id) {
            GameModel {
                clients: self.clients.insert(
                    client_id,
                    Client { is_connected: false, ..self.clients[client_id] },
                ),
                ..self
            }
        } else {
            self
        }
    }

    /// The show after an update at the moment `now`, which lies `delta`
    /// milliseconds after the last update that was not passed over and
    /// `since_state` milliseconds after the moment that the state holds;
    /// `later` is a moment read after `now`.
    pub open spec fn advance(self, now: Instant, delta: u128, since_state: u128, later: Instant)
        -> GameModel {
        if delta < MINIMUM_DELTATIME_MILLISECONDS {
            self
        } else {
            let stepped = match self.state {
                GameState::Starting { time } => if since_state >= STARTING_DELAY_MILLISECONDS {
                    GameModel { state: GameState::Running, ..self }
                } else {
                    self
                },
                GameState::Running => {
                    let timer = saturating_sum(self.timer, delta);
                    if timer > GAME_DURATION_MILLISECONDS {
                        GameModel { timer, state: GameState::Ending { time: later }, ..self }
                    } else {
                        GameModel { timer, ..self }
                    }
                },
                GameState::Ending { time } => if since_state >= ENDING_DELAY_MILLISECONDS {
                    GameModel { clients: all_disconnected(self.clients), ..self }
                } else {
                    self
                },
            };
            GameModel { last_tick: now, ..stepped }
        }
    }

    /// The whole seconds that the show still runs.
    pub open spec fn seconds_left(self) -> u128 {
        if self.timer > GAME_DURATION_MILLISECONDS {
            0
        } else {
            ((GAME_DURATION_MILLISECONDS - self.timer) / 1000) as u128
        }
    }
}

/// What is to be drawn, and for whom.
pub struct DrawPlan {
    /// The whole seconds that the show still runs.
    pub timer: u128,
    /// The clients that are connected, each once, in no particular order.
    pub clients: Vec<usize>,
}

/// The show.
pub struct Game {
    clients: HashMap<usize, Client>,
    pub id: u128,
    timer: u128,
    last_tick: Instant,
    state: GameState,
    pub sixel: String,
}

impl View for Game {
    type V = GameModel;

    closed spec fn view(&self) -> GameModel {
        GameModel {
            clients: self.clients@,
            id: self.id,
            timer: self.timer,
            last_tick: self.last_tick,
            state: self.state,
            sixel: self.sixel@,
        }
    }
}

/// The picture's text before the first frame has come.
pub open spec fn not_yet() -> Seq<char> {
    "not yet"@
}

impl Game {
    /// A show with the identifier `id` that starts at the moment `now`:
    /// nobody is connected and no picture has come yet.
    pub fn with(id: u128, now: Instant) -> (out: Game)
        ensures
            out@ == (GameModel {
                clients: Map::empty(),
                id,
                timer: 0,
                last_tick: now,
                state: GameState::Starting { time: now },
                sixel: not_yet(),
            }),
    {
        Game {
            clients: HashMap::new(),
            id,
            timer: 0,
            last_tick: now,
            state: GameState::Starting { time: now },
            sixel: "not yet".to_owned(),
        }
    }

    /// A show with a fresh identifier that starts now.
    pub fn new() -> (out: Game)
        ensures
            out@.clients == Map::<usize, Client>::empty(),
            out@.timer == 0,
            out@.state == (GameState::Starting { time: out@.last_tick }),
            out@.sixel == not_yet(),
    {
        Game::with(fresh_id(), now())
    }

    /// Takes the text of the newest picture.
    pub fn set_sixel(&mut self, sixel: String)
        ensures
            final(self)@ == (GameModel { sixel: sixel@, ..old(self)@ }),
    {
        self.sixel = sixel;
    }

    /// Takes in a client that has connected. A client that had the same
    /// identifier is replaced.
    pub fn add_client_terminal(&mut self, client_id: usize)
        ensures
            final(self)@ == old(self)@.add_client(client_id),
    {
        broadcast use vstd::std_specs::hash::group_hash_axioms;

        self.clients.insert(client_id, Client::new(client_id));
    }

    /// Whether the client with `client_id` is known and connected, so that
    /// its terminal can be cleared.
    pub fn clear_client(&self, client_id: usize) -> (out: bool)
        ensures
            out == (self@.clients.dom().contains(client_id)
                && self@.clients[client_id].is_connected),
    {
        broadcast use vstd::std_specs::hash::group_hash_axioms;

        match self.clients.get(&client_id) {
            Some(client) => client.is_connected,
            None => false,
        }
    }

    /// Marks the client with `client_id` as disconnected, if it is known.
    pub fn disconnect(&mut self, client_id: usize)
        ensures
            final(self)@ == old(self)@.disconnect(client_id),
    {
        broadcast use vstd::std_specs::hash::group_hash_axioms;

        let found: Option<Client> = match self.clients.get(&client_id) {
            Some(client) => Some(*client),
            None => None,
        };
        match found {
            Some(client) => {
                self.clients.insert(client_id, Client { id: client.id, is_connected: false });
            },
            None => {},
        }
    }

    /// Whether the show runs.
    pub fn is_running(&self) -> (out: bool)
        ensures
            out == (self@.state is Running),
    {
        match self.state {
            GameState::Running => true,
            _ => false,
        }
    }

    /// The identifiers of the clients, each once, in no particular order.
    pub fn client_ids(&self) -> (out: Vec<usize>)
        ensures
            out@.to_set() == self@.clients.dom(),
            out@.no_duplicates(),
    {
        broadcast use vstd::std_specs::hash::group_hash_axioms;

        let mut out: Vec<usize> = Vec::new();
        let ghost all = spec_keys_iter(&self.clients).remaining();
        for k in it: self.clients.keys()
            invariant
                it.seq() == all,
                out@ == all.take(it.index()).unref(),
        {
            out.push(*k);
        }
        proof {
            assert(all.take(all.len() as int) =~= all);
            assert(out@ == all.unref());
        }
        out
    }

    /// Acts on a key that the client with `client_id` has sent: escape
    /// disconnects it, every other key is let pass.
    pub fn handle_input(&mut self, client_id: usize, key_code: KeyCode)
        ensures
            final(self)@ == if key_code == KeyCode::Esc {
                old(self)@.disconnect(client_id)
            } else {
                old(self)@
            },
    {
        if key_code == KeyCode::Esc {
            self.disconnect(client_id);
        }
    }

    /// Marks every client as disconnected.
    fn close(&mut self)
        ensures
            final(self)@ == (GameModel {
                clients: all_disconnected(old(self)@.clients),
                ..old(self)@
            }),
    {
        broadcast use vstd::std_specs::hash::group_hash_axioms;

        let ids: Vec<usize> = self.client_ids();
        let mut i: usize = 0;
        while i < ids.len()
            invariant
                i <= ids@.len(),
                ids@.to_set() == old(self)@.clients.dom(),
                ids@.no_duplicates(),
                self@ == (GameModel { clients: self@.clients, ..old(self)@ }),
                self@.clients.dom() == old(self)@.clients.dom(),
                forall|j: int|
                    0 <= j < ids@.len() ==> #[trigger] self@.clients[ids@[j]] == if j < i {
                        Client { is_connected: false, ..old(self)@.clients[ids@[j]] }
                    } else {
                        old(self)@.clients[ids@[j]]
                    },
            decreases ids.len() - i,
        {
            let id: usize = ids[i];
            assert(ids@.to_set().contains(ids@[i as int]));
            let ghost before = self@.clients;
            self.disconnect(id);
            proof {
                assert(self@.clients.dom() =~= old(self)@.clients.dom());
                assert forall|j: int| 0 <= j < ids@.len() implies #[trigger] self@.clients[ids@[j]]
                    == if j < i + 1 {
                    Client { is_connected: false, ..old(self)@.clients[ids@[j]] }
                } else {
                    old(self)@.clients[ids@[j]]
                } by {
                    if j != i {
                        assert(ids@[j] != ids@[i as int]);
                        assert(self@.clients[ids@[j]] == before[ids@[j]]);
                    }
                }
            }
            i += 1;
        }
        proof {
            assert forall|k: usize| self@.clients.dom().contains(k) implies #[trigger] self@.clients[k]
                == all_disconnected(old(self)@.clients)[k] by {
                assert(ids@.to_set().contains(k));
                let j = choose|j: int| 0 <= j < ids@.len() && ids@[j] == k;
                assert(self@.clients[ids@[j]] == (Client {
                    is_connected: false,
                    ..old(self)@.clients[ids@[j]]
                }));
            }
            assert(self@.clients =~= all_disconnected(old(self)@.clients));
        }
    }

    /// Updates the show at the moment `now`; the other arguments are as in
    /// `GameModel::advance`.
    pub fn advance(&mut self, now: Instant, delta: u128, since_state: u128, later: Instant)
        ensures
            final(self)@ == old(self)@.advance(now, delta, since_state, later),
    {
        if delta < MINIMUM_DELTATIME_MILLISECONDS {
            return ;
        }
        match self.state {
            GameState::Starting { time } => {
                if since_state >= STARTING_DELAY_MILLISECONDS {
                    self.state = GameState::Running;
                }
            },
            GameState::Running => {
                self.timer = self.timer.saturating_add(delta);
                if self.timer > GAME_DURATION_MILLISECONDS {
                    self.state = GameState::Ending { time: later };
                }
            },
            GameState::Ending { time } => {
                if since_state >= ENDING_DELAY_MILLISECONDS {
                    self.close();
                }
            },
        }
        self.last_tick = now;
    }

    /// Updates the show at the present moment: reads the clock and
    /// advances by the time that has passed.
    pub fn update(&mut self)
        ensures
            exists|now: Instant, delta: u128, since_state: u128, later: Instant|
                final(self)@ == old(self)@.advance(now, delta, since_state, later),
    {
        let at: Instant = now();
        let delta: u128 = millis_between(&at, &self.last_tick);
        let since_state: u128 = match self.state {
            GameState::Starting { time } => millis_between(&at, &time),
            GameState::Running => 0,
            GameState::Ending { time } => millis_between(&at, &time),
        };
        let later: Instant = now();
        self.advance(at, delta, since_state, later);
    }

    /// What is to be drawn: the seconds left, for every connected client.
    pub fn draw(&self) -> (out: DrawPlan)
        ensures
            out.timer == self@.seconds_left(),
            out.clients@.no_duplicates(),
            forall|id: usize|
                out.clients@.contains(id) <==> self@.clients.dom().contains(id)
                    && self@.clients[id].is_connected,
    {
        broadcast use vstd::std_specs::hash::group_hash_axioms;

        let timer: u128 = if self.timer > GAME_DURATION_MILLISECONDS {
            0
        } else {
            (GAME_DURATION_MILLISECONDS - self.timer) / 1000
        };
        let ids: Vec<usize> = self.client_ids();
        let mut clients: Vec<usize> = Vec::new();
        let mut i: usize = 0;
        while i < ids.len()
            invariant
                i <= ids@.len(),
                ids@.to_set() == self@.clients.dom(),
                ids@.no_duplicates(),
                clients@.no_duplicates(),
                forall|id: usize|
                    clients@.contains(id) <==> (exists|j: int|
                        0 <= j < i && ids@[j] == id && self@.clients[id].is_connected),
            decreases ids.len() - i,
        {
            let id: usize = ids[i];
            assert(ids@.to_set().contains(ids@[i as int]));
            let connected: bool = match self.clients.get(&id) {
                Some(client) => client.is_connected,
                None => false,
            };
            if connected {
                let ghost before = clients@;
                clients.push(id);
                proof {
                    assert(!before.contains(id));
                    assert forall|c: usize| clients@.contains(c) <==> (exists|j: int|
                        0 <= j < i + 1 && ids@[j] == c && self@.clients[c].is_connected) by {
                        if clients@.contains(c) {
                            let at = choose|at: int| 0 <= at < clients@.len() && clients@[at] == c;
                            if at < before.len() {
                                assert(before[at] == c);
                                assert(before.contains(c));
                            } else {
                                assert(ids@[i as int] == c);
                            }
                        }
                        if exists|j: int|
                            0 <= j < i + 1 && ids@[j] == c && self@.clients[c].is_connected {
                            let j = choose|j: int|
                                0 <= j < i + 1 && ids@[j] == c && self@.clients[c].is_connected;
                            if j < i {
                                assert(before.contains(c));
                                let at = choose|at: int| 0 <= at < before.len() && before[at] == c;
                                assert(clients@[at] == c);
                            } else {
                                assert(clients@[before.len() as int] == c);
                            }
                        }
                    }
                }
            } else {
                proof {
                    assert forall|c: usize| clients@.contains(c) <==> (exists|j: int|
                        0 <= j < i + 1 && ids@[j] == c && self@.clients[c].is_connected) by {
                        if exists|j: int|
                            0 <= j < i + 1 && ids@[j] == c && self@.clients[c].is_connected {
                            let j = choose|j: int|
                                0 <= j < i + 1 && ids@[j] == c && self@.clients[c].is_connected;
                            assert(j < i);
                        }
                    }
                }
            }
            i += 1;
        }
        proof {
            assert forall|id: usize|
                clients@.contains(id) <==> self@.clients.dom().contains(id)
                    && self@.clients[id].is_connected by {
                if self@.clients.dom().contains(id) && self@.clients[id].is_connected {
                    assert(ids@.to_set().contains(id));
                    let j = choose|j: int| 0 <= j < ids@.len() && ids@[j] == id;
                    assert(0 <= j < i && ids@[j] == id);
                }
                if clients@.contains(id) {
                    let j = choose|j: int|
                        0 <= j < i && ids@[j] == id && self@.clients[id].is_connected;
                    assert(ids@.to_set().contains(ids@[j]));
                }
            }
        }
        DrawPlan { timer, clients }
    }

    /// Whether each client is connected: one entry for each client, in no
    /// particular order.
    pub fn connections_state(&self) -> (out: Vec<bool>)
        ensures
            exists|ids: Seq<usize>|
                ids.no_duplicates() && ids.to_set() == self@.clients.dom() && out@.len()
                    == ids.len() && forall|i: int|
                    0 <= i < ids.len() ==> #[trigger] out@[i] == self@.clients[ids[i]].is_connected,
    {
        broadcast use vstd::std_specs::hash::group_hash_axioms;

        let ids: Vec<usize> = self.client_ids();
        let mut out: Vec<bool> = Vec::new();
        let mut i: usize = 0;
        while i < ids.len()
            invariant
                i <= ids@.len(),
                ids@.to_set() == self@.clients.dom(),
                out@.len() == i,
                forall|j: int|
                    0 <= j < i ==> #[trigger] out@[j] == self@.clients[ids@[j]].is_connected,
            decreases ids.len() - i,
        {
            let id: usize = ids[i];
            assert(ids@.to_set().contains(ids@[i as int]));
            match self.clients.get(&id) {
                Some(client) => out.push(client.is_connected),
                None => out.push(false),
            }
            i += 1;
        }
        out
    }
}

/// What `render` has done.
#[derive(Clone, Copy, Debug, PartialEq, Eq, Structural)]
pub struct RenderOutcome {
    /// Where the line of information goes: ten cells in the bottom row,
    /// twenty from the right edge.
    pub info: Rect,
    /// Whether the picture was drawn; it is not where the buffer has no
    /// room for it.
    pub drawn: bool,
}

/// The part of a terminal of the size `size` that the picture may take:
/// all but the last column and the last row.
pub open spec fn sixel_area(size: Rect) -> Rect {
    new_rect(0, 0, (size.width - 1) as u16, (size.height - 1) as u16)
}

/// Where the picture goes on a terminal of the size `size`.
pub open spec fn picture_place(size: Rect) -> Option<Rect> {
    render_area_of(new_rect(0, 0, SIXEL_COLUMNS, SIXEL_ROWS), sixel_area(size), true)
}

/// Draws the picture `sixel` for a terminal of the size `size` into its
/// buffer: at the top left corner, cut to all but the last column and the
/// last row of the terminal.
pub fn render(size: Rect, buf: &mut Buffer, sixel: &str) -> (out: RenderOutcome)
    requires
        size.width >= 20,
        size.height >= 1,
    ensures
        out.info == new_rect((size.width - 20) as u16, (size.height - 1) as u16, 10, 1),
        out.drawn == (picture_place(size) matches Some(r) && drawable(r, *old(buf))),
        buffer_area(*final(buf)) == buffer_area(*old(buf)),
        match picture_place(size) {
            Some(r) if out.drawn => buffer_symbols(*final(buf)) == buffer_symbols(
                *old(buf),
            ).insert((r.x as int, r.y as int), sixel@) && buffer_skips(*final(buf))
                == skips_after(buffer_skips(*old(buf)), r),
            _ => buffer_symbols(*final(buf)) == buffer_symbols(*old(buf)) && buffer_skips(
                *final(buf),
            ) == buffer_skips(*old(buf)),
        },
{
    let info: Rect = rect_new(size.width - 20, size.height - 1, 10, 1);
    let area: Rect = rect_new(0, 0, size.width - 1, size.height - 1);
    let sixel_rect: Rect = rect_new(0, 0, SIXEL_COLUMNS, SIXEL_ROWS);
    let drawn: bool = render_sixel_checked(sixel_rect, sixel, area, buf, true);
    RenderOutcome { info, drawn }
}

} // verus!
