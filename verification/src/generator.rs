//! The identifier-issuing state machine.
//!
//! A [`SafeIdGenerator`] combines an immutable [`IdStructure`] with
//! lock-protected mutable counters ([`SimpleState`]). Issuing holds the lock
//! for the whole call: at most one caller computes an identifier at a time,
//! which is how the monotonicity invariant is upheld. The lock is
//! [`vstd::rwlock::RwLock`], whose invariant carries the state's
//! well-formedness and the generator's fixed identity.

use vstd::prelude::*;
use vstd::pervasive::unreached;
use vstd::rwlock::{RwLock, RwLockPredicate};

use crate::encoding::{
    encode_id,
    lemma_encode_fields,
    lemma_encode_increases,
    spec_encode,
    spec_gen_field,
    spec_seq_field,
    spec_time_field,
};
use crate::structure::{ConfigurationError, IdStructure};

verus! {

/// Failure of an issuing attempt: the clock reported a masked timestamp
/// strictly below the last issued one.
#[derive(Clone, Copy, Debug, PartialEq, Eq, Structural)]
pub enum IdErr {
    NonMonotonic,
}

/// The mutable counters of one generator: its fixed identity, the sequence
/// within the current tick, and the masked timestamp of the last issued
/// identifier.
#[derive(Clone, Copy, Debug, PartialEq, Eq, Structural)]
pub struct SimpleState {
    pub id: u64,
    pub sequence: u64,
    pub last_gen: u64,
}

impl SimpleState {
    /// Every counter fits its field of the layout.
    pub open spec fn wf(self, s: IdStructure) -> bool {
        &&& self.id <= s.spec_gen_id_mask()
        &&& self.sequence <= s.spec_sequence_mask()
        &&& self.last_gen <= s.spec_time_mask()
    }
}

/// Outcome of one issuing attempt against one clock reading.
#[derive(Clone, Copy, Debug, PartialEq, Eq, Structural)]
pub enum Attempt {
    /// An identifier was issued and the state advanced.
    Issued(u64),
    /// The sequence space of the current tick is used up; the caller must
    /// wait for the clock to move and try again. The state is unchanged.
    Exhausted,
    /// The clock reading lies before the last issued tick. The state is
    /// unchanged.
    Regressed,
}

/// One successful issuance: how the state after relates to the state before,
/// and what the returned identifier is. The tick never moves backwards; in an
/// unchanged tick the sequence steps by one, in a fresh tick it restarts at
/// zero; the identifier packs exactly the new state.
pub open spec fn issue_step(s: IdStructure, pre: SimpleState, post: SimpleState, id: u64) -> bool {
    &&& post.wf(s)
    &&& post.id == pre.id
    &&& post.last_gen >= pre.last_gen
    &&& (post.last_gen == pre.last_gen ==> pre.sequence < s.spec_sequence_mask() && post.sequence
        == pre.sequence + 1)
    &&& (post.last_gen > pre.last_gen ==> post.sequence == 0)
    &&& id == spec_encode(s, post.last_gen, post.id, post.sequence)
}

/// One attempt of the issuing algorithm against the clock reading
/// `masked_now`, under exclusive access to the state. Exactly one of three
/// things happens: the reading lies before the last issued tick and nothing
/// changes; the current tick's sequence space is used up and nothing
/// changes; or an identifier is issued.
pub fn try_advance(s: &IdStructure, state: &mut SimpleState, masked_now: u64) -> (r: Attempt)
    requires
        s.wf(),
        old(state).wf(*s),
        masked_now <= s.spec_time_mask(),
    ensures
        final(state).wf(*s),
        final(state).id == old(state).id,
        (r is Regressed) <==> masked_now < old(state).last_gen,
        (r is Exhausted) <==> (masked_now == old(state).last_gen && old(state).sequence
            >= s.spec_sequence_mask()),
        r is Regressed ==> *final(state) == *old(state),
        r is Exhausted ==> *final(state) == *old(state),
        r matches Attempt::Issued(id) ==> final(state).last_gen == masked_now && issue_step(
            *s,
            *old(state),
            *final(state),
            id,
        ),
{
    if masked_now < state.last_gen {
        return Attempt::Regressed;
    }
    if masked_now == state.last_gen {
        if state.sequence >= s.get_sequence_mask() {
            return Attempt::Exhausted;
        }
        state.sequence = state.sequence + 1;
    } else {
        state.sequence = 0;
        state.last_gen = masked_now;
    }
    let id = encode_id(s, state.last_gen, state.id, state.sequence);
    Attempt::Issued(id)
}

/// The issuing algorithm, run under exclusive access to the state: read the
/// clock; fail without touching the state if it regressed; if the current
/// tick's sequence space is used up, busy-wait for a fresh tick (still under
/// exclusive access) and re-run; otherwise issue.
fn get_id_locked(s: &IdStructure, state: &mut SimpleState) -> (r: Result<u64, IdErr>)
    requires
        s.wf(),
        old(state).wf(*s),
    ensures
        final(state).wf(*s),
        final(state).id == old(state).id,
        r matches Err(e) ==> e == IdErr::NonMonotonic && *final(state) == *old(state),
        r matches Ok(id) ==> issue_step(*s, *old(state), *final(state), id),
{
    let mask = s.get_time_mask();
    let ticks = s.get_ticks();
    let masked_now = ticks & mask;
    proof {
        assert(masked_now <= mask) by (bit_vector)
            requires
                masked_now == ticks & mask,
        ;
    }
    match try_advance(s, state, masked_now) {
        Attempt::Issued(id) => Ok(id),
        Attempt::Regressed => Err(IdErr::NonMonotonic),
        Attempt::Exhausted => {
            let fresh = s.wait_for_tick_change(masked_now);
            match try_advance(s, state, fresh) {
                Attempt::Issued(id) => Ok(id),
                Attempt::Regressed => Err(IdErr::NonMonotonic),
                // A fresh tick differs from the exhausted one, so a second
                // exhaustion is impossible.
                Attempt::Exhausted => unreached(),
            }
        },
    }
}

/// The lock invariant of a generator: the protected counters are well formed
/// for the generator's structure and carry its fixed identity.
pub struct GenPred {
    pub structure: IdStructure,
    pub gen_id: u64,
}

impl RwLockPredicate<SimpleState> for GenPred {
    open spec fn inv(self, v: SimpleState) -> bool {
        &&& self.structure.wf()
        &&& self.gen_id <= self.structure.spec_gen_id_mask()
        &&& v.wf(self.structure)
        &&& v.id == self.gen_id
    }
}

/// An identifier source: the capability the service layer depends on, so a
/// substitute generator can stand in for tests without a real clock.
pub trait IdGenerator: Send + Sync {
    /// The implementor's validity; what its `get_id` asks of callers.
    spec fn inv(&self) -> bool;

    /// Issues one identifier, or fails on a clock regression.
    fn get_id(&self) -> (r: Result<u64, IdErr>)
        requires
            self.inv(),
    ;
}

/// A generator safe for concurrent use: an immutable layout beside
/// lock-protected counters. All mutation is serialized by the lock, scoped to
/// the duration of one `get_id` call including any busy-wait inside it.
pub struct SafeIdGenerator {
    structure: IdStructure,
    state: RwLock<SimpleState, GenPred>,
}

impl SafeIdGenerator {
    /// The layout this generator packs identifiers with.
    pub closed spec fn spec_structure(self) -> IdStructure {
        self.structure
    }

    /// The fixed identity embedded in every identifier this generator issues.
    pub closed spec fn gen_id(self) -> u64 {
        self.state.pred().gen_id
    }

    /// The generator's validity: the layout is well formed, the identity
    /// fits its field, and the lock's invariant speaks of exactly them.
    pub closed spec fn wf(self) -> bool {
        &&& self.structure.wf()
        &&& self.state.pred() == (GenPred {
            structure: self.structure,
            gen_id: self.state.pred().gen_id,
        })
        &&& self.state.pred().gen_id <= self.structure.spec_gen_id_mask()
    }

    /// A valid generator has a well-formed layout and an identity that fits.
    pub proof fn lemma_wf(self)
        requires
            self.wf(),
        ensures
            self.spec_structure().wf(),
            self.gen_id() <= self.spec_structure().spec_gen_id_mask(),
    {
    }

    pub fn builder() -> (r: IdGenBuilder)
        ensures
            r.spec_structure() is None,
            r.spec_id() is None,
    {
        IdGenBuilder { structure: None, id: None }
    }

    /// Issues one identifier, or fails with the clock-regression fault. The
    /// generator-identity field of every issued identifier is the identity
    /// configured at construction.
    pub fn get_id(&self) -> (r: Result<u64, IdErr>)
        requires
            self.wf(),
        ensures
            r matches Ok(id) ==> spec_gen_field(self.spec_structure(), id) == self.gen_id(),
            r matches Err(e) ==> e == IdErr::NonMonotonic,
    {
        let (mut st, handle) = self.state.acquire_write();
        let r = get_id_locked(&self.structure, &mut st);
        proof {
            if r is Ok {
                lemma_encode_fields(self.structure, st.last_gen, st.id, st.sequence);
            }
        }
        handle.release_write(st);
        r
    }

    /// Repeated issuance as an explicit cursor: each `next` hands out the
    /// identifier fetched ahead and fetches the following one.
    pub fn iter_mut(&mut self) -> (r: IterMut<'_>)
        requires
            old(self).wf(),
        ensures
            r.wf(),
            r.spec_gen() == *old(self),
    {
        let next = match self.get_id() {
            Ok(id) => Some(id),
            Err(_) => None,
        };
        IterMut { generator: self, next }
    }
}

impl IdGenerator for SafeIdGenerator {
    open spec fn inv(&self) -> bool {
        self.wf()
    }

    fn get_id(&self) -> (r: Result<u64, IdErr>) {
        SafeIdGenerator::get_id(self)
    }
}

/// Staged constructor for [`SafeIdGenerator`]: the structure and the
/// generator identity are supplied once, in any order, and
/// [`IdGenBuilder::create`] validates the pair.
pub struct IdGenBuilder {
    structure: Option<IdStructure>,
    id: Option<u64>,
}

impl IdGenBuilder {
    pub closed spec fn spec_structure(self) -> Option<IdStructure> {
        self.structure
    }

    pub closed spec fn spec_id(self) -> Option<u64> {
        self.id
    }

    pub fn structure(self, structure: IdStructure) -> (r: Self)
        ensures
            r.spec_structure() == Some(structure),
            r.spec_id() == self.spec_id(),
    {
        IdGenBuilder { structure: Some(structure), ..self }
    }

    pub fn id(self, id: u64) -> (r: Self)
        ensures
            r.spec_id() == Some(id),
            r.spec_structure() == self.spec_structure(),
    {
        IdGenBuilder { id: Some(id), ..self }
    }

    /// Validates the configuration: both values supplied and an identity
    /// that fits the structure's generator-identity field. Distinct
    /// identities across a deployment are the operator's duty; nothing here
    /// coordinates them.
    pub fn create(self) -> (r: Result<SafeIdGenerator, ConfigurationError>)
        requires
            self.spec_structure() matches Some(st) ==> st.wf(),
        ensures
            self.spec_structure() is None ==> r == Err::<SafeIdGenerator, _>(
                ConfigurationError::MissingStructure,
            ),
            self.spec_structure() is Some && self.spec_id() is None ==> r == Err::<
                SafeIdGenerator,
                _,
            >(ConfigurationError::MissingGeneratorId),
            self.spec_structure() is Some && self.spec_id() is Some ==> ({
                let st = self.spec_structure().unwrap();
                let gid = self.spec_id().unwrap();
                if gid <= st.spec_gen_id_mask() {
                    r matches Ok(g) && g.wf() && g.spec_structure() == st && g.gen_id() == gid
                } else {
                    r == Err::<SafeIdGenerator, _>(ConfigurationError::GeneratorIdExceedsMask)
                }
            }),
    {
        let st = match self.structure {
            Some(s) => s,
            None => {
                return Err(ConfigurationError::MissingStructure);
            },
        };
        let gid = match self.id {
            Some(i) => i,
            None => {
                return Err(ConfigurationError::MissingGeneratorId);
            },
        };
        if gid > st.get_gen_id_mask() {
            return Err(ConfigurationError::GeneratorIdExceedsMask);
        }
        let state = SimpleState { id: gid, sequence: 0, last_gen: 0 };
        let lock = RwLock::new(state, Ghost(GenPred { structure: st, gen_id: gid }));
        Ok(SafeIdGenerator { structure: st, state: lock })
    }
}

/// A cursor over one generator's identifiers, one step ahead.
pub struct IterMut<'a> {
    generator: &'a SafeIdGenerator,
    next: Option<u64>,
}

impl<'a> IterMut<'a> {
    pub closed spec fn spec_gen(self) -> SafeIdGenerator {
        *self.generator
    }

    pub closed spec fn spec_next(self) -> Option<u64> {
        self.next
    }

    pub open spec fn wf(self) -> bool {
        &&& self.spec_gen().wf()
        &&& (self.spec_next() matches Some(id) ==> spec_gen_field(
            self.spec_gen().spec_structure(),
            id,
        ) == self.spec_gen().gen_id())
    }

    /// Hands out the identifier fetched ahead, if the last fetch succeeded,
    /// and fetches the next one.
    pub fn next(&mut self) -> (r: Option<u64>)
        requires
            old(self).wf(),
        ensures
            final(self).wf(),
            final(self).spec_gen() == old(self).spec_gen(),
            r == old(self).spec_next(),
            r matches Some(id) ==> spec_gen_field(
                old(self).spec_gen().spec_structure(),
                id,
            ) == old(self).spec_gen().gen_id(),
    {
        match self.next {
            None => None,
            Some(id) => {
                self.next = match self.generator.get_id() {
                    Ok(fresh) => Some(fresh),
                    Err(_) => None,
                };
                Some(id)
            },
        }
    }
}

/// Law: for a single generator, two sequential issuances yield strictly
/// increasing identifiers — the second identifier always exceeds the first,
/// whatever the (accepted) clock readings were.
pub proof fn lemma_sequential_ids_increase(
    s: IdStructure,
    st0: SimpleState,
    st1: SimpleState,
    st2: SimpleState,
    id1: u64,
    id2: u64,
)
    requires
        s.wf(),
        issue_step(s, st0, st1, id1),
        issue_step(s, st1, st2, id2),
    ensures
        id2 > id1,
{
    lemma_encode_increases(s, st1.last_gen, st1.sequence, st2.last_gen, st2.sequence, st1.id);
}

/// Law: within one tick, consecutive identifiers differ only in their
/// sequence field, which steps by one, and the sequence space was not yet
/// exhausted when the second was issued.
pub proof fn lemma_same_tick_ids_differ_only_in_sequence(
    s: IdStructure,
    st0: SimpleState,
    st1: SimpleState,
    st2: SimpleState,
    id1: u64,
    id2: u64,
)
    requires
        s.wf(),
        issue_step(s, st0, st1, id1),
        issue_step(s, st1, st2, id2),
        st2.last_gen == st1.last_gen,
    ensures
        spec_time_field(s, id2) == spec_time_field(s, id1),
        spec_gen_field(s, id2) == spec_gen_field(s, id1),
        spec_seq_field(s, id2) == spec_seq_field(s, id1) + 1,
        st1.sequence < s.spec_sequence_mask(),
{
    lemma_encode_fields(s, st1.last_gen, st1.id, st1.sequence);
    lemma_encode_fields(s, st2.last_gen, st2.id, st2.sequence);
}

/// Law: once a tick's sequence space is exhausted, the next issued
/// identifier carries a strictly larger timestamp field.
pub proof fn lemma_exhausted_tick_advances(
    s: IdStructure,
    st0: SimpleState,
    st1: SimpleState,
    st2: SimpleState,
    id1: u64,
    id2: u64,
)
    requires
        s.wf(),
        issue_step(s, st0, st1, id1),
        st1.sequence == s.spec_sequence_mask(),
        issue_step(s, st1, st2, id2),
    ensures
        st2.last_gen > st1.last_gen,
        spec_time_field(s, id2) > spec_time_field(s, id1),
{
    lemma_encode_fields(s, st1.last_gen, st1.id, st1.sequence);
    lemma_encode_fields(s, st2.last_gen, st2.id, st2.sequence);
}

/// Along a chain of issuances, identifiers grow strictly with their
/// position.
pub proof fn lemma_issue_chain_increases(
    s: IdStructure,
    states: Seq<SimpleState>,
    ids: Seq<u64>,
    i: int,
    j: int,
)
    requires
        s.wf(),
        states.len() == ids.len() + 1,
        forall|k: int|
            0 <= k < ids.len() ==> issue_step(s, states[k], states[k + 1], #[trigger] ids[k]),
        0 <= i < j < ids.len(),
    ensures
        ids[i] < ids[j],
    decreases j - i,
{
    if j == i + 1 {
        lemma_sequential_ids_increase(s, states[i], states[i + 1], states[j + 1], ids[i], ids[j]);
    } else {
        lemma_issue_chain_increases(s, states, ids, i, j - 1);
        lemma_sequential_ids_increase(
            s,
            states[j - 1],
            states[j],
            states[j + 1],
            ids[j - 1],
            ids[j],
        );
    }
}

/// Law: however many identifiers one generator issues, no two are equal —
/// the serialization of `get_id` calls makes every run of callers a single
/// chain, so a batch taken by concurrent callers has zero duplicates.
pub proof fn lemma_issued_ids_distinct(s: IdStructure, states: Seq<SimpleState>, ids: Seq<u64>)
    requires
        s.wf(),
        states.len() == ids.len() + 1,
        forall|k: int|
            0 <= k < ids.len() ==> issue_step(s, states[k], states[k + 1], #[trigger] ids[k]),
    ensures
        forall|i: int, j: int|
            0 <= i < ids.len() && 0 <= j < ids.len() && i != j ==> ids[i] != ids[j],
{
    assert forall|i: int, j: int|
        0 <= i < ids.len() && 0 <= j < ids.len() && i != j implies ids[i] != ids[j] by {
        if i < j {
            lemma_issue_chain_increases(s, states, ids, i, j);
        } else {
            lemma_issue_chain_increases(s, states, ids, j, i);
        }
    }
}

} // verus!
