//! The session registry: every open session under its id, with the size of
//! its render target and its animation state.
//!
//! The registry is the one place where sessions are added, resized, removed
//! and advanced. It is meant to live behind a single lock; nothing in it
//! waits for a client.

use crate::app::scene;
use crate::app::App;
use crate::app::Bursts;
use crate::app::Motion;
use crate::sprite::Pixel;
use crate::sprite::PixelMap;
use rand::rngs::StdRng;
use vstd::prelude::*;

verus! {

/// The render scheduler ticks this many times a second.
pub const TICKS_PER_SECOND: u64 = 30;

/// The time from one tick to the next, in whole milliseconds.
pub const TICK_MILLIS: u64 = 1000 / TICKS_PER_SECOND;

/// The size of a render target in cells.
#[derive(Clone, Copy, Debug, PartialEq, Eq, Structural)]
pub struct TargetSize {
    pub width: u16,
    pub height: u16,
}

impl TargetSize {
    /// The size that a target has until its client asks for a terminal.
    pub open spec fn placeholder() -> TargetSize {
        TargetSize { width: 0, height: 0 }
    }

    /// The size that a request for `cols` by `rows` cells gives: each number
    /// cut down to its low 16 bits.
    pub open spec fn requested(cols: u32, rows: u32) -> TargetSize {
        TargetSize { width: (cols % 0x1_0000) as u16, height: (rows % 0x1_0000) as u16 }
    }

    /// The size for a terminal request of `cols` by `rows` cells.
    pub fn from_request(cols: u32, rows: u32) -> (size: TargetSize)
        ensures
            size == TargetSize::requested(cols, rows),
    {
        TargetSize { width: (cols % 0x1_0000) as u16, height: (rows % 0x1_0000) as u16 }
    }
}

/// What a session is apart from its id and its random source: the size of
/// its target, and position and velocity of its sprite.
#[derive(Clone, Copy, Debug, PartialEq, Eq, Structural)]
pub struct SessionState {
    pub target: TargetSize,
    pub motion: Motion,
}

impl SessionState {
    /// The state in which every session is opened.
    pub open spec fn initial() -> SessionState {
        SessionState { target: TargetSize::placeholder(), motion: Motion::initial() }
    }

    /// The state with another target size; the sprite stays where it is.
    pub open spec fn resized(self, target: TargetSize) -> SessionState {
        SessionState { target, motion: self.motion }
    }

    /// The state one tick later.
    pub open spec fn ticked(self, bursts: Bursts) -> SessionState {
        SessionState {
            target: self.target,
            motion: self.motion.stepped(self.target.width, self.target.height, bursts),
        }
    }

    /// The points drawn for this state, given the listings of the calm and
    /// of the alarmed sprite field.
    pub open spec fn frame(self, normal: Seq<Pixel>, scared: Seq<Pixel>) -> Seq<Pixel> {
        scene(
            if self.motion.scared() {
                scared
            } else {
                normal
            },
            self.motion.offset,
            self.target.height,
        )
    }
}

/// A session as the registry's table shows it: its state, and the random
/// source that its reflections draw from.
pub struct SessionView {
    pub state: SessionState,
    pub rng: StdRng,
}

impl SessionView {
    /// A session that has just been opened with `rng` as its random source.
    pub open spec fn opened(rng: StdRng) -> SessionView {
        SessionView { state: SessionState::initial(), rng }
    }

    /// The session with another target size; sprite and random source stay
    /// as they are.
    pub open spec fn resized(self, target: TargetSize) -> SessionView {
        SessionView { state: self.state.resized(target), rng: self.rng }
    }
}

/// `after` is the table `before` one tick later: the same sessions, each of
/// them advanced by one tick.
pub open spec fn table_ticked(
    before: Map<u64, SessionView>,
    after: Map<u64, SessionView>,
) -> bool {
    &&& after.dom() == before.dom()
    &&& forall|id: u64| #[trigger]
        before.contains_key(id) ==> exists|bursts: Bursts|
            after[id].state == #[trigger] before[id].state.ticked(bursts)
}

/// One client's render target size and animation state.
pub struct Session {
    pub id: u64,
    pub target: TargetSize,
    pub app: App,
}

impl View for Session {
    type V = SessionView;

    open spec fn view(&self) -> SessionView {
        SessionView {
            state: SessionState { target: self.target, motion: self.app@ },
            rng: self.app.rng,
        }
    }
}

/// What is to be drawn on the target of one session.
pub struct Frame {
    pub id: u64,
    pub dots: Vec<Pixel>,
}

impl Session {
    /// A session in its initial state, with `rng` as its random source.
    pub fn new(id: u64, rng: StdRng) -> (session: Session)
        ensures
            session.id == id,
            session@ == SessionView::opened(rng),
    {
        Session { id, target: TargetSize { width: 0, height: 0 }, app: App::new(rng) }
    }

    /// One tick of this session: advances the sprite and returns the frame
    /// to draw.
    pub fn draw(&mut self, normal: &PixelMap, scared: &PixelMap) -> (frame: Frame)
        ensures
            final(self).id == old(self).id,
            exists|bursts: Bursts|
                final(self)@.state == #[trigger] old(self)@.state.ticked(bursts),
            frame.id == old(self).id,
            frame.dots@ == final(self)@.state.frame(normal.pixels(), scared.pixels()),
    {
        let ghost start = self@.state;
        let dots: Vec<Pixel> = self.app.draw(self.target.width, self.target.height, normal, scared);
        proof {
            let bursts = choose|bursts: Bursts|
                self.app@ == #[trigger] start.motion.stepped(
                    start.target.width,
                    start.target.height,
                    bursts,
                );
            assert(self@.state == start.ticked(bursts));
        }
        Frame { id: self.id, dots }
    }
}

/// `after` is the session `before` one tick later.
spec fn advanced(before: Session, after: Session) -> bool {
    &&& after.id == before.id
    &&& exists|bursts: Bursts| after@.state == #[trigger] before@.state.ticked(bursts)
}

/// No two sessions of the list have the same id.
spec fn distinct_ids(sessions: Seq<Session>) -> bool {
    forall|i: int, j: int|
        0 <= i < sessions.len() && 0 <= j < sessions.len() && i != j ==> sessions[i].id
            != sessions[j].id
}

/// Some session of the list has the id `id`.
spec fn listed(sessions: Seq<Session>, id: u64) -> bool {
    exists|i: int| 0 <= i < sessions.len() && sessions[i].id == id
}

/// The mapping from ids to states that a list of sessions stands for.
spec fn table_of(sessions: Seq<Session>) -> Map<u64, SessionView> {
    Map::new(
        |id: u64| listed(sessions, id),
        |id: u64| sessions[choose|i: int| 0 <= i < sessions.len() && sessions[i].id == id]@,
    )
}

/// The registry of open sessions, a finite mapping from session ids to
/// sessions.
pub struct Registry {
    sessions: Vec<Session>,
}

impl View for Registry {
    type V = Map<u64, SessionView>;

    closed spec fn view(&self) -> Map<u64, SessionView> {
        table_of(self.sessions@)
    }
}

impl Registry {
    #[verifier::type_invariant]
    spec fn well_formed(self) -> bool {
        distinct_ids(self.sessions@)
    }

    /// A registry without sessions.
    pub fn new() -> (registry: Registry)
        ensures
            registry@ == Map::<u64, SessionView>::empty(),
    {
        Registry { sessions: Vec::new() }
    }

    /// The number of open sessions.
    pub fn len(&self) -> (n: usize)
        ensures
            self@.dom().finite(),
            n == self@.dom().len(),
    {
        proof {
            use_type_invariant(self);
            lemma_table_size(self.sessions@);
        }
        self.sessions.len()
    }

    /// Hands the list out for a change in place and leaves an empty one
    /// behind; the caller puts the changed list back.
    fn take(&mut self) -> (sessions: Vec<Session>)
        ensures
            sessions@ == old(self).sessions@,
            distinct_ids(sessions@),
    {
        proof {
            use_type_invariant(&*self);
        }
        let mut sessions: Vec<Session> = Vec::new();
        std::mem::swap(&mut self.sessions, &mut sessions);
        sessions
    }

    /// Where in the list the session `id` stands.
    fn position(&self, id: u64) -> (found: Option<usize>)
        ensures
            match found {
                Some(i) => i < self.sessions@.len() && self.sessions@[i as int].id == id,
                None => !listed(self.sessions@, id),
            },
    {
        let n: usize = self.sessions.len();
        let mut i: usize = 0;
        while i < n
            invariant
                i <= n,
                n == self.sessions@.len(),
                forall|j: int| 0 <= j < i ==> self.sessions@[j].id != id,
            decreases n - i,
        {
            if self.sessions[i].id == id {
                return Some(i);
            }
            i = i + 1;
        }
        None
    }

    /// Whether the session `id` is open.
    pub fn contains(&self, id: u64) -> (b: bool)
        ensures
            b == self@.contains_key(id),
    {
        self.position(id).is_some()
    }

    /// Target size, position and velocity of the session `id`, if it is
    /// open.
    pub fn state(&self, id: u64) -> (found: Option<SessionState>)
        ensures
            found == if self@.contains_key(id) {
                Some(self@[id].state)
            } else {
                None
            },
    {
        proof {
            use_type_invariant(self);
        }
        match self.position(id) {
            Some(i) => {
                proof {
                    lemma_table_entry(self.sessions@, i as int);
                }
                let session: &Session = &self.sessions[i];
                Some(
                    SessionState {
                        target: session.target,
                        motion: Motion {
                            offset: session.app.offset,
                            velocity: session.app.velocity,
                        },
                    },
                )
            },
            None => None,
        }
    }

    /// Opens the session `id` in its initial state, with `rng` as its random
    /// source. A session that was open under this id is replaced.
    pub fn open(&mut self, id: u64, rng: StdRng)
        ensures
            final(self)@ == old(self)@.insert(id, SessionView::opened(rng)),
    {
        let session: Session = Session::new(id, rng);
        let found: Option<usize> = self.position(id);
        let mut sessions: Vec<Session> = self.take();
        match found {
            Some(i) => {
                proof {
                    lemma_table_update(sessions@, i as int, session);
                }
                sessions[i] = session;
            },
            None => {
                proof {
                    lemma_table_push(sessions@, session);
                }
                sessions.push(session);
            },
        }
        self.sessions = sessions;
    }

    /// Gives the target of the session `id` a new size and leaves its sprite
    /// where it is, and its random source alone. Returns whether the session
    /// is open; if it is not, nothing changes.
    pub fn resize(&mut self, id: u64, width: u16, height: u16) -> (known: bool)
        ensures
            known == old(self)@.contains_key(id),
            final(self)@ == if known {
                old(self)@.insert(id, old(self)@[id].resized(TargetSize { width, height }))
            } else {
                old(self)@
            },
    {
        match self.position(id) {
            Some(i) => {
                let mut sessions: Vec<Session> = self.take();
                let ghost before = sessions@;
                sessions[i].target = TargetSize { width, height };
                proof {
                    lemma_table_entry(before, i as int);
                    lemma_table_update(before, i as int, sessions@[i as int]);
                }
                self.sessions = sessions;
                true
            },
            None => false,
        }
    }

    /// Closes the session `id`. Where no such session is open, nothing
    /// changes.
    pub fn remove(&mut self, id: u64)
        ensures
            final(self)@ == old(self)@.remove(id),
    {
        match self.position(id) {
            Some(i) => {
                let mut sessions: Vec<Session> = self.take();
                proof {
                    lemma_table_remove(sessions@, i as int);
                }
                let _ = sessions.remove(i);
                self.sessions = sessions;
            },
            None => {
            },
        }
    }

    /// One tick of the render scheduler: advances every open session and
    /// returns one frame for each of them.
    pub fn tick(&mut self, normal: &PixelMap, scared: &PixelMap) -> (frames: Vec<Frame>)
        ensures
            table_ticked(old(self)@, final(self)@),
            frames@.len() == final(self)@.dom().len(),
            forall|i: int, j: int|
                0 <= i < frames@.len() && 0 <= j < frames@.len() && i != j ==> frames@[i].id
                    != frames@[j].id,
            forall|i: int|
                0 <= i < frames@.len() ==> final(self)@.contains_key(#[trigger] frames@[i].id)
                    && frames@[i].dots@ == final(self)@[frames@[i].id].state.frame(
                    normal.pixels(),
                    scared.pixels(),
                ),
    {
        let mut sessions: Vec<Session> = self.take();
        let ghost before = sessions@;
        let mut frames: Vec<Frame> = Vec::new();
        let n: usize = sessions.len();
        let mut i: usize = 0;
        while i < n
            invariant
                i <= n,
                n == before.len(),
                sessions@.len() == n,
                frames@.len() == i,
                distinct_ids(before),
                forall|k: int| 0 <= k < n ==> (#[trigger] sessions@[k]).id == before[k].id,
                forall|k: int| i <= k < n ==> sessions@[k] == before[k],
                forall|k: int| 0 <= k < i ==> advanced(before[k], #[trigger] sessions@[k]),
                forall|k: int|
                    0 <= k < i ==> (#[trigger] frames@[k]).id == before[k].id && frames@[k].dots@
                        == sessions@[k]@.state.frame(normal.pixels(), scared.pixels()),
            decreases n - i,
        {
            let session: &mut Session = &mut sessions[i];
            let frame: Frame = session.draw(normal, scared);
            frames.push(frame);
            i = i + 1;
        }
        proof {
            let after = sessions@;
            lemma_table_size(after);
            assert forall|id: u64| listed(before, id) == listed(after, id) by {
                if listed(before, id) {
                    let k = choose|k: int| 0 <= k < before.len() && before[k].id == id;
                    assert(after[k].id == id);
                }
            }
            assert(table_of(after).dom() =~= table_of(before).dom());
            assert forall|id: u64| #[trigger]
                table_of(before).contains_key(id) implies exists|bursts: Bursts|
                table_of(after)[id].state == #[trigger] table_of(before)[id].state.ticked(
                bursts,
            ) by {
                let k = choose|k: int| 0 <= k < before.len() && before[k].id == id;
                lemma_table_entry(before, k);
                lemma_table_entry(after, k);
            }
            assert forall|k: int| 0 <= k < frames@.len() implies table_of(after).contains_key(
                #[trigger] frames@[k].id,
            ) && frames@[k].dots@ == table_of(after)[frames@[k].id].state.frame(
                normal.pixels(),
                scared.pixels(),
            ) by {
                lemma_table_entry(after, k);
            }
        }
        self.sessions = sessions;
        frames
    }
}

/// In a list without repeated ids, the table holds each session under its
/// id.
proof fn lemma_table_entry(sessions: Seq<Session>, i: int)
    requires
        distinct_ids(sessions),
        0 <= i < sessions.len(),
    ensures
        table_of(sessions).contains_key(sessions[i].id),
        table_of(sessions)[sessions[i].id] == sessions[i]@,
{
}

/// A list without repeated ids stands for a table of as many sessions.
proof fn lemma_table_size(sessions: Seq<Session>)
    requires
        distinct_ids(sessions),
    ensures
        table_of(sessions).dom().finite(),
        table_of(sessions).dom().len() == sessions.len(),
{
    let ids = sessions.map(|i: int, s: Session| s.id);
    ids.unique_seq_to_set();
    assert(table_of(sessions).dom() =~= ids.to_set()) by {
        assert forall|id: u64| table_of(sessions).dom().contains(id) implies ids.to_set().contains(
            id,
        ) by {
            let i = choose|i: int| 0 <= i < sessions.len() && sessions[i].id == id;
            assert(ids[i] == id);
        }
    }
}

/// Appending a session with a new id inserts it into the table.
proof fn lemma_table_push(sessions: Seq<Session>, session: Session)
    requires
        distinct_ids(sessions),
        !listed(sessions, session.id),
    ensures
        distinct_ids(sessions.push(session)),
        table_of(sessions.push(session)) == table_of(sessions).insert(session.id, session@),
{
    let longer = sessions.push(session);
    assert(longer[sessions.len() as int] == session);
    assert forall|id: u64| listed(longer, id) == (listed(sessions, id) || id == session.id) by {
        if listed(sessions, id) {
            let k = choose|k: int| 0 <= k < sessions.len() && sessions[k].id == id;
            assert(longer[k].id == id);
        }
    }
    assert forall|id: u64| listed(longer, id) implies table_of(longer)[id] == table_of(
        sessions,
    ).insert(session.id, session@)[id] by {
        let k = choose|k: int| 0 <= k < longer.len() && longer[k].id == id;
        lemma_table_entry(longer, k);
        if k < sessions.len() {
            lemma_table_entry(sessions, k);
        }
    }
}

/// Replacing a session by one of the same id overwrites its table entry.
proof fn lemma_table_update(sessions: Seq<Session>, i: int, session: Session)
    requires
        distinct_ids(sessions),
        0 <= i < sessions.len(),
        sessions[i].id == session.id,
    ensures
        distinct_ids(sessions.update(i, session)),
        table_of(sessions.update(i, session)) == table_of(sessions).insert(session.id, session@),
{
    let changed = sessions.update(i, session);
    assert forall|id: u64| listed(changed, id) == listed(sessions, id) by {
        if listed(sessions, id) {
            let k = choose|k: int| 0 <= k < sessions.len() && sessions[k].id == id;
            assert(changed[k].id == id);
        }
    }
    assert forall|id: u64| listed(changed, id) implies table_of(changed)[id] == table_of(
        sessions,
    ).insert(session.id, session@)[id] by {
        let k = choose|k: int| 0 <= k < changed.len() && changed[k].id == id;
        lemma_table_entry(changed, k);
        lemma_table_entry(sessions, k);
    }
}

/// Taking a session out of the list removes its id from the table.
proof fn lemma_table_remove(sessions: Seq<Session>, i: int)
    requires
        distinct_ids(sessions),
        0 <= i < sessions.len(),
    ensures
        distinct_ids(sessions.remove(i)),
        table_of(sessions.remove(i)) == table_of(sessions).remove(sessions[i].id),
{
    let shorter = sessions.remove(i);
    let gone = sessions[i].id;
    assert forall|id: u64| listed(shorter, id) == (listed(sessions, id) && id != gone) by {
        if listed(sessions, id) && id != gone {
            let k = choose|k: int| 0 <= k < sessions.len() && sessions[k].id == id;
            let k1 = if k < i {
                k
            } else {
                k - 1
            };
            assert(shorter[k1].id == id);
        }
    }
    assert forall|id: u64| listed(shorter, id) implies table_of(shorter)[id] == table_of(
        sessions,
    )[id] by {
        let k = choose|k: int| 0 <= k < shorter.len() && shorter[k].id == id;
        let k0 = if k < i {
            k
        } else {
            k + 1
        };
        lemma_table_entry(shorter, k);
        lemma_table_entry(sessions, k0);
    }
}

/// Closing a session twice is closing it once: the second call finds
/// nothing to close and changes nothing.
pub proof fn lemma_remove_twice(table: Map<u64, SessionView>, id: u64)
    ensures
        table.remove(id).remove(id) == table.remove(id),
        !table.remove(id).contains_key(id),
        table.dom().finite() ==> table.remove(id).remove(id).dom().len() == table.remove(
            id,
        ).dom().len(),
{
}

} // verus!
