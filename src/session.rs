use vstd::prelude::*;
use crate::error::StreamingError;

verus! {

/// A user's playback session: who, and the bitrate currently chosen (0 when unset).
#[derive(Clone, Debug)]
pub struct User {
    pub id: String,
    pub current_bitrate: u32,
}

/// The sessions, keyed by user identifier.
///
/// Entries are kept in a vector with pairwise distinct identifiers; the ghost
/// map `index` is what the store means: user identifier to current bitrate.
pub struct SessionStore {
    users: Vec<User>,
    index: Ghost<Map<Seq<char>, u32>>,
}

impl View for SessionStore {
    type V = Map<Seq<char>, u32>;

    closed spec fn view(&self) -> Map<Seq<char>, u32> {
        self.index@
    }
}

impl SessionStore {
    /// Identifiers are distinct, and the entries are exactly the map's.
    pub closed spec fn wf(&self) -> bool {
        &&& forall|i: int, j: int|
            0 <= i < j < self.users@.len() ==> #[trigger] self.users@[i].id@
                != #[trigger] self.users@[j].id@
        &&& forall|i: int|
            0 <= i < self.users@.len() ==> {
                &&& self.index@.contains_key(#[trigger] self.users@[i].id@)
                &&& self.index@[self.users@[i].id@] == self.users@[i].current_bitrate
            }
        &&& forall|k: Seq<char>|
            #[trigger] self.index@.contains_key(k) ==> exists|i: int|
                0 <= i < self.users@.len() && #[trigger] self.users@[i].id@ == k
    }

    /// A store without sessions.
    pub fn new() -> (r: SessionStore)
        ensures
            r.wf(),
            r@ == Map::<Seq<char>, u32>::empty(),
    {
        SessionStore { users: Vec::new(), index: Ghost(Map::empty()) }
    }

    /// Position of the session of `id`, if there is one.
    fn position(&self, id: &String) -> (r: Option<usize>)
        requires
            self.wf(),
        ensures
            match r {
                Some(i) => i < self.users@.len() && self.users@[i as int].id@ == id@,
                None => !self@.contains_key(id@),
            },
    {
        let mut i: usize = 0;
        while i < self.users.len()
            invariant
                self.wf(),
                i <= self.users@.len(),
                forall|j: int| 0 <= j < i ==> self.users@[j].id@ != id@,
            decreases self.users@.len() - i,
        {
            if self.users[i].id == *id {
                return Some(i);
            }
            i = i + 1;
        }
        None
    }

    /// Inserts the session of `user`, replacing any session with the same identifier.
    pub fn register_user(&mut self, user: User)
        requires
            old(self).wf(),
        ensures
            final(self).wf(),
            final(self)@ == old(self)@.insert(user.id@, user.current_bitrate),
    {
        let ghost key = user.id@;
        let ghost rate = user.current_bitrate;
        let ghost before = self.users@;
        match self.position(&user.id) {
            Some(i) => {
                self.users.set(i, user);
                self.index = Ghost(self.index@.insert(key, rate));
                assert forall|k: Seq<char>| #[trigger] self.index@.contains_key(k) implies exists|j: int|
                    0 <= j < self.users@.len() && #[trigger] self.users@[j].id@ == k by {
                    if k != key {
                        let j = choose|j: int| 0 <= j < before.len() && #[trigger] before[j].id@ == k;
                        assert(self.users@[j].id@ == k);
                    } else {
                        assert(self.users@[i as int].id@ == k);
                    }
                }
            },
            None => {
                self.users.push(user);
                self.index = Ghost(self.index@.insert(key, rate));
                assert forall|k: Seq<char>| #[trigger] self.index@.contains_key(k) implies exists|j: int|
                    0 <= j < self.users@.len() && #[trigger] self.users@[j].id@ == k by {
                    if k != key {
                        let j = choose|j: int| 0 <= j < before.len() && #[trigger] before[j].id@ == k;
                        assert(self.users@[j].id@ == k);
                    } else {
                        assert(self.users@[before.len() as int].id@ == k);
                    }
                }
            },
        }
    }

    /// Replaces the bitrate of the session of `user_id`; fails with
    /// `UserNotFound`, changing nothing, when there is no such session.
    pub fn set_user_bitrate(&mut self, user_id: &str, bitrate: u32) -> (r: Result<(), StreamingError>)
        requires
            old(self).wf(),
        ensures
            final(self).wf(),
            r is Ok <==> old(self)@.contains_key(user_id@),
            r is Err ==> r == Err::<(), StreamingError>(StreamingError::UserNotFound),
            final(self)@ == updated(old(self)@, user_id@, bitrate),
    {
        let key = user_id.to_owned();
        match self.position(&key) {
            Some(i) => {
                let ghost before = self.users@;
                let user = User { id: key, current_bitrate: bitrate };
                self.users.set(i, user);
                self.index = Ghost(self.index@.insert(user_id@, bitrate));
                assert forall|k: Seq<char>| #[trigger] self.index@.contains_key(k) implies exists|j: int|
                    0 <= j < self.users@.len() && #[trigger] self.users@[j].id@ == k by {
                    let j = choose|j: int| 0 <= j < before.len() && #[trigger] before[j].id@ == k;
                    assert(self.users@[j].id@ == k);
                }
                Ok(())
            },
            None => Err(StreamingError::UserNotFound),
        }
    }

    /// A copy of the session of `user_id`, or `UserNotFound`.
    pub fn get_session(&self, user_id: &str) -> (r: Result<User, StreamingError>)
        requires
            self.wf(),
        ensures
            r is Ok <==> self@.contains_key(user_id@),
            r is Err ==> r == Err::<User, StreamingError>(StreamingError::UserNotFound),
            r matches Ok(u) ==> u.id@ == user_id@ && u.current_bitrate == self@[user_id@],
    {
        let key = user_id.to_owned();
        match self.position(&key) {
            Some(i) => Ok(User { id: key, current_bitrate: self.users[i].current_bitrate }),
            None => Err(StreamingError::UserNotFound),
        }
    }
}

/// The sessions after a bitrate update of `id`: changed only where `id` has a session.
pub open spec fn updated(m: Map<Seq<char>, u32>, id: Seq<char>, bitrate: u32) -> Map<Seq<char>, u32> {
    if m.contains_key(id) {
        m.insert(id, bitrate)
    } else {
        m
    }
}

/// One call that writes a user's bitrate: `register_user` or `set_user_bitrate`.
#[derive(Clone, Copy, Debug, PartialEq, Eq, Structural)]
pub enum BitrateWrite {
    Register(u32),
    Update(u32),
}

impl BitrateWrite {
    /// The bitrate the call writes.
    pub open spec fn bitrate(self) -> u32 {
        match self {
            BitrateWrite::Register(b) => b,
            BitrateWrite::Update(b) => b,
        }
    }
}

/// Whether `w` on user `id` completes successfully on sessions `m`.
pub open spec fn write_succeeds(m: Map<Seq<char>, u32>, id: Seq<char>, w: BitrateWrite) -> bool {
    match w {
        BitrateWrite::Register(_) => true,
        BitrateWrite::Update(_) => m.contains_key(id),
    }
}

/// The sessions after `w` on user `id`, as the store's contracts leave them.
pub open spec fn apply_write(m: Map<Seq<char>, u32>, id: Seq<char>, w: BitrateWrite) -> Map<Seq<char>, u32> {
    match w {
        BitrateWrite::Register(b) => m.insert(id, b),
        BitrateWrite::Update(b) => updated(m, id, b),
    }
}

/// The sessions after the writes `ws` on user `id`, in order.
pub open spec fn apply_writes(m: Map<Seq<char>, u32>, id: Seq<char>, ws: Seq<BitrateWrite>) -> Map<Seq<char>, u32>
    decreases ws.len(),
{
    if ws.len() == 0 {
        m
    } else {
        apply_write(apply_writes(m, id, ws.drop_last()), id, ws.last())
    }
}

/// Last write wins: when the write at position `k` succeeds and no later one
/// does, the user's final bitrate is the one that write carried.
pub proof fn lemma_last_successful_write_wins(
    m: Map<Seq<char>, u32>,
    id: Seq<char>,
    ws: Seq<BitrateWrite>,
    k: int,
)
    requires
        0 <= k < ws.len(),
        write_succeeds(apply_writes(m, id, ws.take(k)), id, ws[k]),
        forall|j: int|
            k < j < ws.len() ==> !write_succeeds(#[trigger] apply_writes(m, id, ws.take(j)), id, ws[j]),
    ensures
        apply_writes(m, id, ws).contains_key(id),
        apply_writes(m, id, ws)[id] == ws[k].bitrate(),
    decreases ws.len(),
{
    let front = ws.drop_last();
    assert(ws.take(ws.len() - 1) =~= front);
    if k < ws.len() - 1 {
        assert(front.take(k) =~= ws.take(k));
        assert forall|j: int| k < j < front.len() implies !write_succeeds(
            #[trigger] apply_writes(m, id, front.take(j)),
            id,
            front[j],
        ) by {
            assert(front.take(j) =~= ws.take(j));
        }
        lemma_last_successful_write_wins(m, id, front, k);
        assert(!write_succeeds(apply_writes(m, id, ws.take(ws.len() - 1)), id, ws[ws.len() - 1]));
    }
}

/// No bitrate appears that was never written: a user's final bitrate is the
/// one it started with or one that a write carried.
pub proof fn lemma_bitrate_was_written(m: Map<Seq<char>, u32>, id: Seq<char>, ws: Seq<BitrateWrite>)
    requires
        apply_writes(m, id, ws).contains_key(id),
    ensures
        (m.contains_key(id) && apply_writes(m, id, ws)[id] == m[id]) || exists|j: int|
            0 <= j < ws.len() && #[trigger] ws[j].bitrate() == apply_writes(m, id, ws)[id],
    decreases ws.len(),
{
    if ws.len() > 0 {
        let front = ws.drop_last();
        let mid = apply_writes(m, id, front);
        let last = ws.len() - 1;
        if apply_write(mid, id, ws.last()) == mid {
            lemma_bitrate_was_written(m, id, front);
            if !(m.contains_key(id) && mid[id] == m[id]) {
                let j = choose|j: int| 0 <= j < front.len() && #[trigger] front[j].bitrate() == mid[id];
                assert(ws[j].bitrate() == mid[id]);
            }
        } else {
            assert(ws[last].bitrate() == apply_writes(m, id, ws)[id]);
        }
    }
}

/// Updates alone never create a session: on a user without one, every update
/// fails and the sessions stay as they were.
pub proof fn lemma_updates_never_create(m: Map<Seq<char>, u32>, id: Seq<char>, ws: Seq<BitrateWrite>)
    requires
        !m.contains_key(id),
        forall|j: int| 0 <= j < ws.len() ==> #[trigger] ws[j] is Update,
    ensures
        apply_writes(m, id, ws) == m,
        forall|j: int|
            0 <= j < ws.len() ==> !write_succeeds(#[trigger] apply_writes(m, id, ws.take(j)), id, ws[j]),
    decreases ws.len(),
{
    if ws.len() > 0 {
        let front = ws.drop_last();
        assert forall|j: int| 0 <= j < front.len() implies #[trigger] front[j] is Update by {
            assert(front[j] == ws[j]);
        }
        lemma_updates_never_create(m, id, front);
        assert forall|j: int| 0 <= j < ws.len() implies !write_succeeds(
            #[trigger] apply_writes(m, id, ws.take(j)),
            id,
            ws[j],
        ) by {
            if j < front.len() {
                assert(front.take(j) =~= ws.take(j));
                assert(front[j] == ws[j]);
            } else {
                assert(ws.take(j) =~= front);
            }
        }
    }
}

/// Registering the same session twice leaves the sessions as registering it once does.
pub proof fn lemma_register_idempotent(m: Map<Seq<char>, u32>, id: Seq<char>, bitrate: u32)
    ensures
        m.insert(id, bitrate).insert(id, bitrate) == m.insert(id, bitrate),
{
    assert(m.insert(id, bitrate).insert(id, bitrate) =~= m.insert(id, bitrate));
}

} // verus!
