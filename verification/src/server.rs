//! The server's shared state and the life of one connection.
//!
//! The transport reports what happens on a connection as events. For each
//! event the server decides how the registry changes, which phase the
//! connection enters, and what the transport has to do next. The transport
//! performs that and reports back; it never touches the registry itself.

use crate::registry::table_ticked;
use crate::registry::Frame;
use crate::registry::Registry;
use crate::registry::SessionView;
use crate::registry::TargetSize;
use crate::sprite::PixelMap;
use rand::rngs::StdRng;
use std::collections::HashMap;
use vstd::prelude::*;
use vstd::std_specs::hash::group_hash_axioms;

verus! {

broadcast use group_hash_axioms;

/// The phases of a connection, in the order in which it passes through them.
#[derive(Clone, Copy, Debug, PartialEq, Eq, Structural)]
pub enum Phase {
    /// Connected, no session yet.
    Opening,
    /// The session is registered and drawn at every tick.
    Active,
    /// The terminal reset is on its way to the client.
    Closing,
    /// The session is gone from the registry.
    Closed,
}

/// What the transport reports of a connection.
pub enum Event {
    /// The client opened a session channel; `rng` is the random source for
    /// its animation.
    SessionOpen { rng: StdRng },
    /// The client asked for a terminal of this size.
    PtyRequest { cols: u32, rows: u32 },
    /// The client's window changed to this size.
    WindowChange { cols: u32, rows: u32 },
    /// The client sent these bytes.
    Data(Vec<u8>),
    /// The client closed the channel.
    ChannelClose,
    /// The terminal reset was handed to the transport, or could not be.
    ResetSent,
    /// The transport is gone: a write failed, or the connection was dropped.
    Lost,
}

/// What the transport has to do after an event.
#[derive(Clone, Copy, Debug, PartialEq, Eq, Structural)]
pub enum Reaction {
    /// Nothing.
    Ignore,
    /// Accept the channel and give it a render target of the placeholder
    /// size.
    Accept,
    /// Give the render target this size. With `announce`, also confirm the
    /// terminal request, enter the alternate screen and hide the cursor.
    Resize { size: TargetSize, announce: bool },
    /// Send the reset sequence as far as the client still listens, close
    /// the channel if `close` says so, then report `Event::ResetSent`.
    Farewell { close: bool },
    /// Drop the render target and let the connection go.
    Release,
}

impl Event {
    /// The event is the quit signal: input of exactly the one byte `quit`.
    pub open spec fn quits(self, quit: u8) -> bool {
        self matches Event::Data(bytes) && bytes@ == seq![quit]
    }

    /// The event ends an active session: the quit signal, or the channel's
    /// close.
    pub open spec fn closes(self, quit: u8) -> bool {
        self is ChannelClose || self.quits(quit)
    }

    /// The target size that the event asks for, if it asks for one.
    pub open spec fn size(self) -> Option<TargetSize> {
        match self {
            Event::PtyRequest { cols, rows } => Some(TargetSize::requested(cols, rows)),
            Event::WindowChange { cols, rows } => Some(TargetSize::requested(cols, rows)),
            _ => None,
        }
    }
}

/// The phase of a connection after an event.
pub open spec fn phase_after(phase: Phase, event: Event, quit: u8) -> Phase {
    if event is Lost {
        Phase::Closed
    } else {
        match phase {
            Phase::Opening => if event is SessionOpen {
                Phase::Active
            } else if event is ChannelClose {
                Phase::Closed
            } else {
                Phase::Opening
            },
            Phase::Active => if event.closes(quit) {
                Phase::Closing
            } else {
                Phase::Active
            },
            Phase::Closing => if event is ResetSent {
                Phase::Closed
            } else {
                Phase::Closing
            },
            Phase::Closed => Phase::Closed,
        }
    }
}

/// The phase of the connection `id`. A connection that the server does not
/// know, or knows no longer, is closed.
pub open spec fn phase_of(phases: Map<u64, Phase>, id: u64) -> Phase {
    if phases.contains_key(id) {
        phases[id]
    } else {
        Phase::Closed
    }
}

/// The phases of all connections after an event on the connection `id`. A
/// connection that closes is forgotten.
pub open spec fn phases_after(phases: Map<u64, Phase>, id: u64, event: Event, quit: u8) -> Map<
    u64,
    Phase,
> {
    let next = phase_after(phase_of(phases, id), event, quit);
    if next is Closed {
        phases.remove(id)
    } else {
        phases.insert(id, next)
    }
}

/// The registry's table after an event on the connection `id` in the phase
/// `phase`.
pub open spec fn table_after(
    table: Map<u64, SessionView>,
    id: u64,
    phase: Phase,
    event: Event,
) -> Map<u64, SessionView> {
    if event is Lost {
        table.remove(id)
    } else if event is SessionOpen && (phase is Opening || phase is Active) {
        table.insert(id, SessionView::opened(event->rng))
    } else if phase is Active && event.size() is Some && table.contains_key(id) {
        table.insert(id, table[id].resized(event.size().unwrap()))
    } else if phase is Closing && event is ResetSent {
        table.remove(id)
    } else {
        table
    }
}

/// What the transport is told after an event on a connection in the phase
/// `phase`.
pub open spec fn reaction_after(phase: Phase, event: Event, quit: u8) -> Reaction {
    if event is Lost {
        if phase is Closed {
            Reaction::Ignore
        } else {
            Reaction::Release
        }
    } else {
        match phase {
            Phase::Opening => if event is SessionOpen {
                Reaction::Accept
            } else if event is ChannelClose {
                Reaction::Release
            } else {
                Reaction::Ignore
            },
            Phase::Active => if event is SessionOpen {
                Reaction::Accept
            } else if event.size() is Some {
                Reaction::Resize { size: event.size().unwrap(), announce: event is PtyRequest }
            } else if event.closes(quit) {
                Reaction::Farewell { close: event.quits(quit) }
            } else {
                Reaction::Ignore
            },
            Phase::Closing => if event is ResetSent {
                Reaction::Release
            } else {
                Reaction::Ignore
            },
            Phase::Closed => Reaction::Ignore,
        }
    }
}

/// The quit signal of a new server: the letter `q`.
pub const DEFAULT_QUIT: u8 = 0x71;

/// The bytes that switch a terminal to its alternate screen.
pub open spec fn enter_alt_screen_bytes() -> Seq<u8> {
    seq![0x1bu8, 0x5bu8, 0x3fu8, 0x31u8, 0x30u8, 0x34u8, 0x39u8, 0x68u8]
}

/// The bytes that switch a terminal back from its alternate screen.
pub open spec fn exit_alt_screen_bytes() -> Seq<u8> {
    seq![0x1bu8, 0x5bu8, 0x3fu8, 0x31u8, 0x30u8, 0x34u8, 0x39u8, 0x6cu8]
}

/// The bytes that hide a terminal's cursor.
pub open spec fn hide_cursor_bytes() -> Seq<u8> {
    seq![0x1bu8, 0x5bu8, 0x3fu8, 0x32u8, 0x35u8, 0x6cu8]
}

/// The bytes that show a terminal's cursor.
pub open spec fn show_cursor_bytes() -> Seq<u8> {
    seq![0x1bu8, 0x5bu8, 0x3fu8, 0x32u8, 0x35u8, 0x68u8]
}

/// The escape sequence `ESC [ ? 1 0 4 9 h`.
pub fn enter_alt_screen() -> (bytes: Vec<u8>)
    ensures
        bytes@ == enter_alt_screen_bytes(),
{
    let bytes: Vec<u8> = vec![0x1bu8, 0x5bu8, 0x3fu8, 0x31u8, 0x30u8, 0x34u8, 0x39u8, 0x68u8];
    bytes
}

/// The escape sequence `ESC [ ? 1 0 4 9 l`.
pub fn exit_alt_screen() -> (bytes: Vec<u8>)
    ensures
        bytes@ == exit_alt_screen_bytes(),
{
    let bytes: Vec<u8> = vec![0x1bu8, 0x5bu8, 0x3fu8, 0x31u8, 0x30u8, 0x34u8, 0x39u8, 0x6cu8];
    bytes
}

/// The escape sequence `ESC [ ? 2 5 l`.
pub fn hide_cursor() -> (bytes: Vec<u8>)
    ensures
        bytes@ == hide_cursor_bytes(),
{
    let bytes: Vec<u8> = vec![0x1bu8, 0x5bu8, 0x3fu8, 0x32u8, 0x35u8, 0x6cu8];
    bytes
}

/// The escape sequence `ESC [ ? 2 5 h`.
pub fn show_cursor() -> (bytes: Vec<u8>)
    ensures
        bytes@ == show_cursor_bytes(),
{
    let bytes: Vec<u8> = vec![0x1bu8, 0x5bu8, 0x3fu8, 0x32u8, 0x35u8, 0x68u8];
    bytes
}

/// The terminal reset sent at the end of a session: leave the alternate
/// screen, then show the cursor.
pub fn reset_sequence() -> (bytes: Vec<u8>)
    ensures
        bytes@ == exit_alt_screen_bytes() + show_cursor_bytes(),
{
    let mut bytes: Vec<u8> = exit_alt_screen();
    let mut tail: Vec<u8> = show_cursor();
    bytes.append(&mut tail);
    bytes
}

/// Whether `data` is the quit signal: exactly the one byte `quit`.
pub fn is_quit(data: &Vec<u8>, quit: u8) -> (b: bool)
    ensures
        b == (data@ == seq![quit]),
{
    if data.len() == 1 && data[0] == quit {
        assert(data@ =~= seq![quit]);
        true
    } else {
        false
    }
}

/// Registry and connections are in step: the registry holds exactly the
/// sessions of the connections that are active or on their way out, and
/// every connection that the server knows has an id that was handed out.
pub open spec fn in_step(
    table: Map<u64, SessionView>,
    phases: Map<u64, Phase>,
    next_id: u64,
) -> bool {
    &&& forall|id: u64| #[trigger]
        table.contains_key(id) <==> phases.contains_key(id) && (phases[id] is Active || phases[id]
            is Closing)
    &&& forall|id: u64| #[trigger]
        phases.contains_key(id) ==> id < next_id && !(phases[id] is Closed)
}

/// No connection is on its way out.
pub open spec fn quiescent(phases: Map<u64, Phase>) -> bool {
    forall|id: u64| phases.contains_key(id) ==> !(#[trigger] phases[id] is Closing)
}

/// The ids of the connections whose session is open.
pub open spec fn open_connections(phases: Map<u64, Phase>) -> Set<u64> {
    Set::new(|id: u64| phases.contains_key(id) && phases[id] is Active)
}

/// The server: the registry of open sessions, the phase of every connection
/// that has not closed yet, the session id that the next client gets, and
/// the quit signal.
pub struct AppServer {
    clients: Registry,
    connections: HashMap<u64, Phase>,
    id: u64,
    quit: u8,
}

impl AppServer {
    #[verifier::type_invariant]
    spec fn well_formed(self) -> bool {
        in_step(self.clients@, self.connections@, self.id)
    }

    /// The registry's table.
    pub closed spec fn table(&self) -> Map<u64, SessionView> {
        self.clients@
    }

    /// The phase of every connection that has not closed yet.
    pub closed spec fn phases(&self) -> Map<u64, Phase> {
        self.connections@
    }

    /// The id that the next client gets.
    pub closed spec fn next_id(&self) -> u64 {
        self.id
    }

    /// The byte that closes the session of the client who sends it.
    pub closed spec fn quit_signal(&self) -> u8 {
        self.quit
    }

    /// A server without sessions or connections, which hands out ids from 0
    /// and takes the letter `q` as its quit signal.
    pub fn new() -> (server: AppServer)
        ensures
            server.table() == Map::<u64, SessionView>::empty(),
            server.phases() == Map::<u64, Phase>::empty(),
            server.next_id() == 0,
            server.quit_signal() == DEFAULT_QUIT,
            in_step(server.table(), server.phases(), server.next_id()),
    {
        AppServer {
            clients: Registry::new(),
            connections: HashMap::new(),
            id: 0,
            quit: DEFAULT_QUIT,
        }
    }

    /// Takes the server apart for a change, and leaves a fresh one behind
    /// until the parts are put together again.
    fn take(&mut self) -> (parts: (Registry, HashMap<u64, Phase>, u64, u8))
        ensures
            parts.0@ == old(self).table(),
            parts.1@ == old(self).phases(),
            parts.2 == old(self).next_id(),
            parts.3 == old(self).quit_signal(),
            in_step(parts.0@, parts.1@, parts.2),
    {
        proof {
            use_type_invariant(&*self);
        }
        let mut server: AppServer = AppServer::new();
        std::mem::swap(self, &mut server);
        let AppServer { clients, connections, id, quit } = server;
        (clients, connections, id, quit)
    }

    /// Makes `quit` the quit signal.
    pub fn set_quit(&mut self, quit: u8)
        ensures
            final(self).quit_signal() == quit,
            final(self).table() == old(self).table(),
            final(self).phases() == old(self).phases(),
            final(self).next_id() == old(self).next_id(),
    {
        let (clients, connections, id, _) = self.take();
        *self = AppServer { clients, connections, id, quit };
    }

    /// Takes in a client and returns the id of its connection, which no
    /// connection had before. When the ids have run out, nobody is taken in
    /// and nothing changes.
    pub fn new_client(&mut self) -> (client: Option<u64>)
        ensures
            final(self).table() == old(self).table(),
            final(self).quit_signal() == old(self).quit_signal(),
            match client {
                Some(id) => {
                    &&& id == old(self).next_id()
                    &&& id < u64::MAX
                    &&& !old(self).phases().contains_key(id)
                    &&& final(self).phases() == old(self).phases().insert(id, Phase::Opening)
                    &&& final(self).next_id() == id + 1
                },
                None => {
                    &&& old(self).next_id() == u64::MAX
                    &&& final(self).phases() == old(self).phases()
                    &&& final(self).next_id() == old(self).next_id()
                },
            },
            in_step(final(self).table(), final(self).phases(), final(self).next_id()),
    {
        let (clients, mut connections, id, quit) = self.take();
        if id == u64::MAX {
            *self = AppServer { clients, connections, id, quit };
            None
        } else {
            connections.insert(id, Phase::Opening);
            *self = AppServer { clients, connections, id: id + 1, quit };
            Some(id)
        }
    }

    /// The phase of the connection `id`.
    pub fn phase(&self, id: u64) -> (phase: Phase)
        ensures
            phase == phase_of(self.phases(), id),
    {
        match self.connections.get(&id) {
            Some(phase) => *phase,
            None => Phase::Closed,
        }
    }

    /// The registry of open sessions.
    pub fn clients(&self) -> (registry: &Registry)
        ensures
            registry@ == self.table(),
    {
        &self.clients
    }

    /// The number of open sessions. Registry and connections are in step
    /// at every moment; while no connection is on its way out, the number
    /// of sessions is the number of open connections.
    pub fn len(&self) -> (n: usize)
        ensures
            in_step(self.table(), self.phases(), self.next_id()),
            self.table().dom().finite(),
            n == self.table().dom().len(),
            quiescent(self.phases()) ==> self.table().dom() == open_connections(self.phases()),
            quiescent(self.phases()) ==> n == open_connections(self.phases()).len(),
    {
        proof {
            use_type_invariant(self);
            if quiescent(self.connections@) {
                lemma_quiescent_registry(self.clients@, self.connections@, self.id);
            }
        }
        self.clients.len()
    }

    /// Takes one event of the connection `id`: changes the registry and the
    /// connection's phase, and says what the transport has to do.
    pub fn handle(&mut self, id: u64, event: Event) -> (reaction: Reaction)
        ensures
            final(self).next_id() == old(self).next_id(),
            final(self).quit_signal() == old(self).quit_signal(),
            final(self).phases() == phases_after(
                old(self).phases(),
                id,
                event,
                old(self).quit_signal(),
            ),
            final(self).table() == table_after(
                old(self).table(),
                id,
                phase_of(old(self).phases(), id),
                event,
            ),
            reaction == reaction_after(
                phase_of(old(self).phases(), id),
                event,
                old(self).quit_signal(),
            ),
            in_step(final(self).table(), final(self).phases(), final(self).next_id()),
    {
        let phase: Phase = self.phase(id);
        let (mut clients, mut connections, next, quit) = self.take();
        let (after, reaction): (Phase, Reaction) = match event {
            Event::Lost => {
                clients.remove(id);
                match phase {
                    Phase::Closed => (Phase::Closed, Reaction::Ignore),
                    _ => (Phase::Closed, Reaction::Release),
                }
            },
            Event::SessionOpen { rng } => match phase {
                Phase::Opening | Phase::Active => {
                    clients.open(id, rng);
                    (Phase::Active, Reaction::Accept)
                },
                _ => (phase, Reaction::Ignore),
            },
            Event::PtyRequest { cols, rows } => match phase {
                Phase::Active => {
                    let size: TargetSize = TargetSize::from_request(cols, rows);
                    let _ = clients.resize(id, size.width, size.height);
                    (phase, Reaction::Resize { size, announce: true })
                },
                _ => (phase, Reaction::Ignore),
            },
            Event::WindowChange { cols, rows } => match phase {
                Phase::Active => {
                    let size: TargetSize = TargetSize::from_request(cols, rows);
                    let _ = clients.resize(id, size.width, size.height);
                    (phase, Reaction::Resize { size, announce: false })
                },
                _ => (phase, Reaction::Ignore),
            },
            Event::Data(data) => match phase {
                Phase::Active => {
                    if is_quit(&data, quit) {
                        (Phase::Closing, Reaction::Farewell { close: true })
                    } else {
                        (phase, Reaction::Ignore)
                    }
                },
                _ => (phase, Reaction::Ignore),
            },
            Event::ChannelClose => match phase {
                Phase::Opening => (Phase::Closed, Reaction::Release),
                Phase::Active => (Phase::Closing, Reaction::Farewell { close: false }),
                _ => (phase, Reaction::Ignore),
            },
            Event::ResetSent => match phase {
                Phase::Closing => {
                    clients.remove(id);
                    (Phase::Closed, Reaction::Release)
                },
                _ => (phase, Reaction::Ignore),
            },
        };
        match after {
            Phase::Closed => {
                let _ = connections.remove(&id);
            },
            _ => {
                let _ = connections.insert(id, after);
            },
        }
        *self = AppServer { clients, connections, id: next, quit };
        reaction
    }

    /// One tick of the render scheduler: advances every open session and
    /// returns one frame for each of them. No connection changes its phase.
    pub fn tick(&mut self, normal: &PixelMap, scared: &PixelMap) -> (frames: Vec<Frame>)
        ensures
            table_ticked(old(self).table(), final(self).table()),
            final(self).phases() == old(self).phases(),
            final(self).next_id() == old(self).next_id(),
            final(self).quit_signal() == old(self).quit_signal(),
            in_step(final(self).table(), final(self).phases(), final(self).next_id()),
            frames@.len() == final(self).table().dom().len(),
            forall|i: int, j: int|
                0 <= i < frames@.len() && 0 <= j < frames@.len() && i != j ==> frames@[i].id
                    != frames@[j].id,
            forall|i: int|
                0 <= i < frames@.len() ==> final(self).table().contains_key(
                    #[trigger] frames@[i].id,
                ) && frames@[i].dots@ == final(self).table()[frames@[i].id].state.frame(
                    normal.pixels(),
                    scared.pixels(),
                ),
    {
        let (mut clients, connections, id, quit) = self.take();
        let frames: Vec<Frame> = clients.tick(normal, scared);
        *self = AppServer { clients, connections, id, quit };
        frames
    }
}

/// While no connection is on its way out, the sessions in the registry are
/// exactly those of the open connections: none is missing, and none that
/// was closed is still there.
pub proof fn lemma_quiescent_registry(
    table: Map<u64, SessionView>,
    phases: Map<u64, Phase>,
    next_id: u64,
)
    requires
        in_step(table, phases, next_id),
        quiescent(phases),
    ensures
        table.dom() == open_connections(phases),
{
}

/// An event keeps registry and connections in step, whichever connection
/// it belongs to and whatever its phase.
pub proof fn lemma_event_keeps_in_step(
    table: Map<u64, SessionView>,
    phases: Map<u64, Phase>,
    next_id: u64,
    id: u64,
    event: Event,
    quit: u8,
)
    requires
        in_step(table, phases, next_id),
    ensures
        in_step(
            table_after(table, id, phase_of(phases, id), event),
            phases_after(phases, id, event, quit),
            next_id,
        ),
{
}

} // verus!
