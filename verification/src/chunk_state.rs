//! The readiness of the chunks of a blob, with at most one fetch per chunk.
//!
//! A chunk is absent until a reader claims it. The first reader that claims
//! an absent chunk has to fetch it, and readers that claim it meanwhile wait.
//! When the fetch is settled the chunk is ready, or absent again if the fetch
//! failed, so that the next reader tries again.

use crate::cache::ChunkMap;
use crate::chunk::{BlobChunkInfo, BlobIoChunk};
use crate::error::StorageError;
use vstd::prelude::*;

verus! {

/// The state of a chunk in local storage.
#[derive(Clone, Copy, Debug, PartialEq, Eq, Structural)]
pub enum ChunkState {
    /// The chunk is not in local storage, and nobody fetches it.
    Absent,
    /// One reader fetches the chunk from the storage backend.
    Fetching,
    /// The chunk is in local storage and was validated.
    Ready,
}

/// What a reader that claims a chunk has to do.
#[derive(Clone, Copy, Debug, PartialEq, Eq, Structural)]
pub enum ChunkClaim {
    /// The chunk is ready: read it from local storage.
    Ready,
    /// The chunk was absent: fetch it, and settle the fetch.
    Fetch,
    /// Another reader fetches the chunk: wait until the fetch is settled.
    Wait,
}

/// What happens to the chunks of a blob.
pub enum ChunkEvent {
    /// A reader claims the chunk with the given identifier.
    Claim(u32),
    /// The fetch of the chunk with the given identifier ends; the flag says
    /// whether the chunk was fetched and found valid.
    Settle(u32, bool),
}

/// The state of a chunk after a reader claimed it.
pub open spec fn claimed(state: ChunkState) -> ChunkState {
    if state == ChunkState::Absent {
        ChunkState::Fetching
    } else {
        state
    }
}

/// What a reader that claims a chunk in state `state` has to do.
pub open spec fn claim_of(state: ChunkState) -> ChunkClaim {
    match state {
        ChunkState::Absent => ChunkClaim::Fetch,
        ChunkState::Fetching => ChunkClaim::Wait,
        ChunkState::Ready => ChunkClaim::Ready,
    }
}

/// The state of a chunk after a fetch of it ended. Only a chunk that is
/// being fetched changes.
pub open spec fn settled(state: ChunkState, fetched: bool) -> ChunkState {
    if state == ChunkState::Fetching {
        if fetched {
            ChunkState::Ready
        } else {
            ChunkState::Absent
        }
    } else {
        state
    }
}

/// The states of the chunks after the event `e`. An event for a chunk that
/// the blob does not have changes nothing.
pub open spec fn step(states: Seq<ChunkState>, e: ChunkEvent) -> Seq<ChunkState> {
    match e {
        ChunkEvent::Claim(id) => if id < states.len() {
            states.update(id as int, claimed(states[id as int]))
        } else {
            states
        },
        ChunkEvent::Settle(id, fetched) => if id < states.len() {
            states.update(id as int, settled(states[id as int], fetched))
        } else {
            states
        },
    }
}

/// The states of the chunks after the events of `trace`, in their order.
pub open spec fn run(states: Seq<ChunkState>, trace: Seq<ChunkEvent>) -> Seq<ChunkState>
    decreases trace.len(),
{
    if trace.len() == 0 {
        states
    } else {
        step(run(states, trace.drop_last()), trace.last())
    }
}

/// The number of fetches of chunk `id` that the events of `trace` start: the
/// claims of the chunk that find it absent.
pub open spec fn started(states: Seq<ChunkState>, trace: Seq<ChunkEvent>, id: u32) -> nat
    decreases trace.len(),
{
    if trace.len() == 0 {
        0
    } else {
        let before = run(states, trace.drop_last());
        let now: nat = if trace.last() == ChunkEvent::Claim(id) && id < before.len()
            && before[id as int] == ChunkState::Absent {
            1
        } else {
            0
        };
        started(states, trace.drop_last(), id) + now
    }
}

/// The number of fetches of chunk `id` that the events of `trace` end.
pub open spec fn ended(states: Seq<ChunkState>, trace: Seq<ChunkEvent>, id: u32) -> nat
    decreases trace.len(),
{
    if trace.len() == 0 {
        0
    } else {
        let before = run(states, trace.drop_last());
        let now: nat = if trace.last() matches ChunkEvent::Settle(chunk, _) && chunk == id && id
            < before.len() && before[id as int] == ChunkState::Fetching {
            1
        } else {
            0
        };
        ended(states, trace.drop_last(), id) + now
    }
}

/// The number of fetches of a chunk in state `state` that are under way.
pub open spec fn in_flight(state: ChunkState) -> nat {
    if state == ChunkState::Fetching {
        1
    } else {
        0
    }
}

/// The events that claim the chunks `ids`, in their order.
pub open spec fn claims(ids: Seq<u32>) -> Seq<ChunkEvent> {
    Seq::new(ids.len(), |i: int| ChunkEvent::Claim(ids[i]))
}

/// The events that settle the fetches of the chunks `ids`, in their order.
pub open spec fn settles(ids: Seq<u32>, fetched: bool) -> Seq<ChunkEvent> {
    Seq::new(ids.len(), |i: int| ChunkEvent::Settle(ids[i], fetched))
}

/// The chunks of `ids` that a reader has to fetch when it claims them in
/// their order: those that are absent when their turn comes.
pub open spec fn granted(states: Seq<ChunkState>, ids: Seq<u32>) -> Seq<u32>
    decreases ids.len(),
{
    if ids.len() == 0 {
        Seq::empty()
    } else {
        let before = run(states, claims(ids.drop_last()));
        let id = ids.last();
        if id < before.len() && before[id as int] == ChunkState::Absent {
            granted(states, ids.drop_last()).push(id)
        } else {
            granted(states, ids.drop_last())
        }
    }
}

/// The states of the chunks after a reader made the chunks `ids` ready: it
/// claimed them, fetched those that it had to, and settled the fetches.
pub open spec fn warmed(states: Seq<ChunkState>, ids: Seq<u32>) -> Seq<ChunkState> {
    run(run(states, claims(ids)), settles(granted(states, ids), true))
}

/// The readiness of the chunks of a blob. The view is the state of each
/// chunk, at the position of its identifier.
pub struct ChunkStateMap {
    states: Vec<ChunkState>,
}

impl View for ChunkStateMap {
    type V = Seq<ChunkState>;

    closed spec fn view(&self) -> Seq<ChunkState> {
        self.states@
    }
}

impl ChunkStateMap {
    /// The map of a blob with `chunk_count` chunks, all of them absent.
    pub fn new(chunk_count: u32) -> (r: Self)
        ensures
            r@.len() == chunk_count,
            forall|id: int| 0 <= id < chunk_count ==> r@[id] == ChunkState::Absent,
    {
        let mut states: Vec<ChunkState> = Vec::new();
        let mut n: u32 = 0;
        while n < chunk_count
            invariant
                n <= chunk_count,
                states@.len() == n,
                forall|id: int| 0 <= id < n ==> states@[id] == ChunkState::Absent,
            decreases chunk_count - n,
        {
            states.push(ChunkState::Absent);
            n += 1;
        }
        ChunkStateMap { states }
    }

    /// The number of chunks of the blob.
    pub fn len(&self) -> (r: usize)
        ensures
            r == self@.len(),
    {
        self.states.len()
    }

    /// The state of chunk `id`; `None` for a chunk that the blob does not have.
    pub fn state(&self, id: u32) -> (r: Option<ChunkState>)
        ensures
            r == if id < self@.len() {
                Some(self@[id as int])
            } else {
                None
            },
    {
        if (id as usize) < self.states.len() {
            Some(self.states[id as usize])
        } else {
            None
        }
    }

    /// Whether chunk `id` is ready; `InvalidInput` for a chunk that the blob
    /// does not have.
    pub fn is_chunk_ready(&self, id: u32) -> (r: Result<bool, StorageError>)
        ensures
            id < self@.len() ==> r == Ok::<bool, StorageError>(
                self@[id as int] == ChunkState::Ready,
            ),
            id >= self@.len() ==> r == Err::<bool, StorageError>(StorageError::InvalidInput),
    {
        match self.state(id) {
            Some(state) => Ok(state == ChunkState::Ready),
            None => Err(StorageError::InvalidInput),
        }
    }

    /// Claim chunk `id` for a reader, and say what the reader has to do. An
    /// absent chunk is being fetched from now on, by this reader.
    /// `InvalidInput` for a chunk that the blob does not have.
    pub fn claim(&mut self, id: u32) -> (r: Result<ChunkClaim, StorageError>)
        ensures
            final(self)@ == step(old(self)@, ChunkEvent::Claim(id)),
            id < old(self)@.len() ==> r == Ok::<ChunkClaim, StorageError>(
                claim_of(old(self)@[id as int]),
            ),
            id >= old(self)@.len() ==> r == Err::<ChunkClaim, StorageError>(
                StorageError::InvalidInput,
            ),
    {
        match self.state(id) {
            Some(ChunkState::Absent) => {
                self.states[id as usize] = ChunkState::Fetching;
                Ok(ChunkClaim::Fetch)
            },
            Some(ChunkState::Fetching) => {
                assert(self@ =~= step(old(self)@, ChunkEvent::Claim(id)));
                Ok(ChunkClaim::Wait)
            },
            Some(ChunkState::Ready) => {
                assert(self@ =~= step(old(self)@, ChunkEvent::Claim(id)));
                Ok(ChunkClaim::Ready)
            },
            None => Err(StorageError::InvalidInput),
        }
    }

    /// Settle the fetch of chunk `id`: the chunk is ready if it was fetched
    /// and found valid, and absent otherwise. `InvalidInput`, and no change,
    /// for a chunk that is not being fetched.
    pub fn settle(&mut self, id: u32, fetched: bool) -> (r: Result<(), StorageError>)
        ensures
            final(self)@ == step(old(self)@, ChunkEvent::Settle(id, fetched)),
            id < old(self)@.len() && old(self)@[id as int] == ChunkState::Fetching ==> r is Ok,
            !(id < old(self)@.len() && old(self)@[id as int] == ChunkState::Fetching) ==> r
                == Err::<(), StorageError>(StorageError::InvalidInput),
    {
        match self.state(id) {
            Some(ChunkState::Fetching) => {
                self.states[id as usize] = if fetched {
                    ChunkState::Ready
                } else {
                    ChunkState::Absent
                };
                Ok(())
            },
            _ => {
                assert(self@ =~= step(old(self)@, ChunkEvent::Settle(id, fetched)));
                Err(StorageError::InvalidInput)
            },
        }
    }

    /// Claim the chunks `ids` in their order, and report those that the
    /// reader has to fetch. `InvalidInput`, and no change, if the blob does
    /// not have one of the chunks.
    pub fn claim_all(&mut self, ids: &[u32]) -> (r: Result<Vec<u32>, StorageError>)
        ensures
            (forall|i: int| 0 <= i < ids@.len() ==> ids@[i] < old(self)@.len()) ==> r is Ok
                && r->Ok_0@ == granted(old(self)@, ids@) && final(self)@ == run(
                old(self)@,
                claims(ids@),
            ),
            !(forall|i: int| 0 <= i < ids@.len() ==> ids@[i] < old(self)@.len()) ==> r
                == Err::<Vec<u32>, StorageError>(StorageError::InvalidInput) && final(self)@
                == old(self)@,
    {
        let mut k: usize = 0;
        while k < ids.len()
            invariant
                k <= ids@.len(),
                self@ == old(self)@,
                forall|i: int| 0 <= i < k ==> ids@[i] < self@.len(),
            decreases ids@.len() - k,
        {
            if ids[k] as usize >= self.states.len() {
                return Err(StorageError::InvalidInput);
            }
            k += 1;
        }
        let mut fetch: Vec<u32> = Vec::new();
        let mut n: usize = 0;
        assert(claims(ids@.take(0)).len() == 0);
        while n < ids.len()
            invariant
                n <= ids@.len(),
                self@.len() == old(self)@.len(),
                forall|i: int| 0 <= i < ids@.len() ==> ids@[i] < old(self)@.len(),
                self@ == run(old(self)@, claims(ids@.take(n as int))),
                fetch@ == granted(old(self)@, ids@.take(n as int)),
            decreases ids@.len() - n,
        {
            proof {
                let head = ids@.take(n + 1);
                assert(head.drop_last() == ids@.take(n as int));
                assert(head.last() == ids@[n as int]);
                assert(claims(head).drop_last() == claims(ids@.take(n as int)));
                assert(claims(head).last() == ChunkEvent::Claim(ids@[n as int]));
            }
            match self.claim(ids[n]) {
                Ok(ChunkClaim::Fetch) => {
                    fetch.push(ids[n]);
                },
                _ => {},
            }
            n += 1;
        }
        assert(ids@.take(ids@.len() as int) == ids@);
        Ok(fetch)
    }

    /// Settle the fetches of the chunks `ids` in their order, all with the
    /// same outcome. A chunk that is not being fetched is left as it is.
    pub fn settle_all(&mut self, ids: &[u32], fetched: bool)
        ensures
            final(self)@ == run(old(self)@, settles(ids@, fetched)),
    {
        let mut n: usize = 0;
        assert(settles(ids@.take(0), fetched).len() == 0);
        while n < ids.len()
            invariant
                n <= ids@.len(),
                self@ == run(old(self)@, settles(ids@.take(n as int), fetched)),
            decreases ids@.len() - n,
        {
            proof {
                let head = ids@.take(n + 1);
                assert(head.drop_last() == ids@.take(n as int));
                assert(settles(head, fetched).drop_last() == settles(
                    ids@.take(n as int),
                    fetched,
                ));
                assert(settles(head, fetched).last() == ChunkEvent::Settle(
                    ids@[n as int],
                    fetched,
                ));
            }
            let _ = self.settle(ids[n], fetched);
            n += 1;
        }
        assert(ids@.take(ids@.len() as int) == ids@);
    }
}

impl<C: BlobChunkInfo> ChunkMap<C> for ChunkStateMap {
    open spec fn present(&self, id: u32) -> bool {
        id < self@.len() && self@[id as int] == ChunkState::Ready
    }

    fn is_ready(&self, chunk: &BlobIoChunk<C>) -> (r: Result<bool, StorageError>)
        ensures
            chunk@.id < self@.len() ==> r == Ok::<bool, StorageError>(
                self@[chunk@.id as int] == ChunkState::Ready,
            ),
            chunk@.id >= self@.len() ==> r == Err::<bool, StorageError>(
                StorageError::InvalidInput,
            ),
    {
        self.is_chunk_ready(chunk.id())
    }
}

/// Events never change the number of chunks.
pub proof fn lemma_run_keeps_len(states: Seq<ChunkState>, trace: Seq<ChunkEvent>)
    ensures
        run(states, trace).len() == states.len(),
    decreases trace.len(),
{
    if trace.len() > 0 {
        lemma_run_keeps_len(states, trace.drop_last());
    }
}

/// Single flight: whatever happens, the fetches of a chunk that were started
/// and have not ended are those under way in its state, which is at most one.
pub proof fn lemma_single_flight(states: Seq<ChunkState>, trace: Seq<ChunkEvent>, id: u32)
    requires
        id < states.len(),
    ensures
        in_flight(states[id as int]) + started(states, trace, id) == ended(states, trace, id)
            + in_flight(run(states, trace)[id as int]),
        in_flight(run(states, trace)[id as int]) <= 1,
    decreases trace.len(),
{
    if trace.len() > 0 {
        lemma_single_flight(states, trace.drop_last(), id);
        lemma_run_keeps_len(states, trace.drop_last());
    }
}

/// A chunk that is ready stays ready, whatever happens.
pub proof fn lemma_ready_stays(states: Seq<ChunkState>, trace: Seq<ChunkEvent>, id: u32)
    requires
        id < states.len(),
        states[id as int] == ChunkState::Ready,
    ensures
        run(states, trace)[id as int] == ChunkState::Ready,
    decreases trace.len(),
{
    if trace.len() > 0 {
        lemma_ready_stays(states, trace.drop_last(), id);
        lemma_run_keeps_len(states, trace.drop_last());
    }
}

/// The states after the chunks `ids` were claimed: those that were absent
/// are being fetched, and nothing else changed.
pub proof fn lemma_claims(states: Seq<ChunkState>, ids: Seq<u32>)
    ensures
        run(states, claims(ids)).len() == states.len(),
        forall|x: u32|
            x < states.len() ==> #[trigger] run(states, claims(ids))[x as int] == if states[x
                as int] == ChunkState::Absent && ids.contains(x) {
                ChunkState::Fetching
            } else {
                states[x as int]
            },
        forall|x: u32|
            granted(states, ids).contains(x) <==> ids.contains(x) && x < states.len()
                && states[x as int] == ChunkState::Absent,
    decreases ids.len(),
{
    if ids.len() > 0 {
        let head = ids.drop_last();
        let id = ids.last();
        lemma_claims(states, head);
        assert(claims(ids).drop_last() == claims(head));
        assert(claims(ids).last() == ChunkEvent::Claim(id));
        let before = run(states, claims(head));
        let after = run(states, claims(ids));
        assert(after == step(before, ChunkEvent::Claim(id)));
        lemma_last_or_before(ids);
        assert forall|x: u32| x < states.len() implies #[trigger] after[x as int] == if states[x
            as int] == ChunkState::Absent && ids.contains(x) {
            ChunkState::Fetching
        } else {
            states[x as int]
        } by {
            assert(ids.contains(x) <==> head.contains(x) || x == id);
            assert(before[x as int] == if states[x as int] == ChunkState::Absent && head.contains(
                x,
            ) {
                ChunkState::Fetching
            } else {
                states[x as int]
            });
        }
        assert forall|x: u32|
            granted(states, ids).contains(x) <==> ids.contains(x) && x < states.len()
                && states[x as int] == ChunkState::Absent by {
            assert(ids.contains(x) <==> head.contains(x) || x == id);
            let old_granted = granted(states, head);
            assert(old_granted.contains(x) <==> head.contains(x) && x < states.len()
                && states[x as int] == ChunkState::Absent);
            if id < before.len() {
                assert(before[id as int] == if states[id as int] == ChunkState::Absent
                    && head.contains(id) {
                    ChunkState::Fetching
                } else {
                    states[id as int]
                });
            }
            if id < before.len() && before[id as int] == ChunkState::Absent {
                let new_granted = old_granted.push(id);
                assert(new_granted.last() == id);
                if old_granted.contains(x) {
                    let i = choose|i: int| 0 <= i < old_granted.len() && old_granted[i] == x;
                    assert(new_granted[i] == x);
                }
                if new_granted.contains(x) {
                    let i = choose|i: int| 0 <= i < new_granted.len() && new_granted[i] == x;
                    if i < old_granted.len() {
                        assert(old_granted[i] == x);
                    }
                }
            }
        }
    } else {
        assert(claims(ids).len() == 0);
    }
}

/// A value is among `ids` if it is the last of them or among those before.
proof fn lemma_last_or_before(ids: Seq<u32>)
    requires
        ids.len() > 0,
    ensures
        forall|x: u32| ids.contains(x) <==> ids.drop_last().contains(x) || x == ids.last(),
{
    let head = ids.drop_last();
    assert forall|x: u32| ids.contains(x) <==> head.contains(x) || x == ids.last() by {
        if head.contains(x) {
            let i = choose|i: int| 0 <= i < head.len() && head[i] == x;
            assert(ids[i] == x);
        }
        if ids.contains(x) {
            let i = choose|i: int| 0 <= i < ids.len() && ids[i] == x;
            if i < head.len() {
                assert(head[i] == x);
            }
        }
        assert(ids[ids.len() - 1] == ids.last());
    }
}

/// The states after the fetches of the chunks `ids` were settled as fetched:
/// those that were being fetched are ready, and nothing else changed.
pub proof fn lemma_settles(states: Seq<ChunkState>, ids: Seq<u32>)
    ensures
        run(states, settles(ids, true)).len() == states.len(),
        forall|x: u32|
            x < states.len() ==> #[trigger] run(states, settles(ids, true))[x as int]
                == if states[x as int] == ChunkState::Fetching && ids.contains(x) {
                ChunkState::Ready
            } else {
                states[x as int]
            },
    decreases ids.len(),
{
    if ids.len() > 0 {
        let head = ids.drop_last();
        let id = ids.last();
        lemma_settles(states, head);
        assert(settles(ids, true).drop_last() == settles(head, true));
        assert(settles(ids, true).last() == ChunkEvent::Settle(id, true));
        let before = run(states, settles(head, true));
        let after = run(states, settles(ids, true));
        assert(after == step(before, ChunkEvent::Settle(id, true)));
        lemma_last_or_before(ids);
        assert forall|x: u32| x < states.len() implies #[trigger] after[x as int] == if states[x
            as int] == ChunkState::Fetching && ids.contains(x) {
            ChunkState::Ready
        } else {
            states[x as int]
        } by {
            assert(ids.contains(x) <==> head.contains(x) || x == id);
            assert(before[x as int] == if states[x as int] == ChunkState::Fetching
                && head.contains(x) {
                ChunkState::Ready
            } else {
                states[x as int]
            });
        }
    } else {
        assert(settles(ids, true).len() == 0);
    }
}

/// After a reader made the chunks `ids` ready, each of them that was absent
/// is ready, and nothing else changed.
pub proof fn lemma_warmed(states: Seq<ChunkState>, ids: Seq<u32>)
    ensures
        warmed(states, ids).len() == states.len(),
        forall|x: u32|
            x < states.len() ==> #[trigger] warmed(states, ids)[x as int] == if states[x as int]
                == ChunkState::Absent && ids.contains(x) {
                ChunkState::Ready
            } else {
                states[x as int]
            },
{
    lemma_claims(states, ids);
    let claimed_states = run(states, claims(ids));
    lemma_settles(claimed_states, granted(states, ids));
    assert forall|x: u32| x < states.len() implies #[trigger] warmed(states, ids)[x as int]
        == if states[x as int] == ChunkState::Absent && ids.contains(x) {
        ChunkState::Ready
    } else {
        states[x as int]
    } by {
        assert(granted(states, ids).contains(x) <==> ids.contains(x) && x < states.len()
            && states[x as int] == ChunkState::Absent);
        assert(claimed_states[x as int] == if states[x as int] == ChunkState::Absent
            && ids.contains(x) {
            ChunkState::Fetching
        } else {
            states[x as int]
        });
        assert(run(claimed_states, settles(granted(states, ids), true))[x as int]
            == if claimed_states[x as int] == ChunkState::Fetching && granted(
            states,
            ids,
        ).contains(x) {
            ChunkState::Ready
        } else {
            claimed_states[x as int]
        });
    }
}

/// Making chunks ready is idempotent: a reader that makes the chunks `ids`
/// ready a second time has nothing to fetch, and leaves every state as it is.
pub proof fn lemma_warm_twice(states: Seq<ChunkState>, ids: Seq<u32>)
    requires
        states.len() <= u32::MAX,
    ensures
        granted(warmed(states, ids), ids).len() == 0,
        warmed(warmed(states, ids), ids) == warmed(states, ids),
{
    let once = warmed(states, ids);
    lemma_warmed(states, ids);
    lemma_warmed(once, ids);
    lemma_claims(once, ids);
    let again = granted(once, ids);
    if again.len() > 0 {
        let x = again[0];
        assert(again.contains(x));
        assert(ids.contains(x) && x < once.len() && once[x as int] == ChunkState::Absent);
        assert(once[x as int] == warmed(states, ids)[x as int]);
    }
    assert forall|j: int| 0 <= j < once.len() implies warmed(once, ids)[j] == once[j] by {
        let x = j as u32;
        assert(x as int == j);
        assert(warmed(once, ids)[x as int] == if once[x as int] == ChunkState::Absent
            && ids.contains(x) {
            ChunkState::Ready
        } else {
            once[x as int]
        });
        assert(once[x as int] == warmed(states, ids)[x as int]);
    }
    assert(warmed(once, ids) =~= once);
}

} // verus!
