//! A mathematical model of the recycling transport's slot protocol.
//!
//! Each slot of the fixed pool is a distinct identifier, and the state
//! records in which of the four places every slot currently lives: the
//! producer's private queue, the supply channel, the consumer's hands, or
//! the recycle channel. The step functions mirror, case for case, what
//! [`crate::tube`] does on each operation, including the silent drop under
//! backpressure and the loss of a slot when an operation fails against a
//! torn-down half. The lemmas state the transport's laws: conservation of
//! slots, a producer that is never blocked, exclusive ownership of a
//! delivered slot, the drop policy under backpressure, and shutdown
//! propagation.

use vstd::prelude::*;

verus! {

/// Where every slot of one transport lives, plus which halves are alive.
pub struct TubeState {
    /// Slots in the producer's private queue, front first.
    pub dishes: Seq<nat>,
    /// Slots committed and not yet received, oldest first.
    pub in_flight: Seq<nat>,
    /// Slots in the consumer's hands, in order of receipt.
    pub held: Seq<nat>,
    /// Slots on their way back to the producer, oldest first.
    pub recycling: Seq<nat>,
    /// The producer half has not been dropped.
    pub producer_live: bool,
    /// The consumer half has not been dropped.
    pub consumer_live: bool,
}

/// What a commit reports to the producer.
pub enum CommitOutcome {
    /// The front slot went out to the consumer.
    Sent,
    /// No recycled slot was available; the commit was silently absorbed.
    DroppedCommit,
    /// The consumer side is gone.
    ShutDown,
}

/// What a receive reports to the consumer.
pub enum ReceiveOutcome {
    /// This slot arrived.
    Received(nat),
    /// The producer side is gone and nothing is left in flight.
    ShutDown,
}

/// What a recycle reports to the consumer.
pub enum RecycleOutcome {
    /// The slot is on its way back to the producer.
    Returned,
    /// The producer side is gone; the slot is lost.
    ShutDown,
}

/// No identifier occurs in both sequences.
pub open spec fn disjoint_slots(a: Seq<nat>, b: Seq<nat>) -> bool {
    forall|x: nat| #[trigger] a.contains(x) ==> !b.contains(x)
}

impl TubeState {
    /// Every slot lives in exactly one place.
    pub open spec fn wf(self) -> bool {
        &&& self.dishes.no_duplicates()
        &&& self.in_flight.no_duplicates()
        &&& self.held.no_duplicates()
        &&& self.recycling.no_duplicates()
        &&& disjoint_slots(self.dishes, self.in_flight)
        &&& disjoint_slots(self.dishes, self.held)
        &&& disjoint_slots(self.dishes, self.recycling)
        &&& disjoint_slots(self.in_flight, self.held)
        &&& disjoint_slots(self.in_flight, self.recycling)
        &&& disjoint_slots(self.held, self.recycling)
    }

    /// How many slots exist, over all four places.
    pub open spec fn total(self) -> nat {
        self.dishes.len() + self.in_flight.len() + self.held.len() + self.recycling.len()
    }

    /// How many slots are on the consumer's side of the transport.
    pub open spec fn consumer_count(self) -> nat {
        self.in_flight.len() + self.held.len()
    }

    /// The producer can commit: its private queue is not empty. This
    /// depends on the producer's own queue alone, never on the consumer.
    pub open spec fn commit_enabled(self) -> bool {
        self.dishes.len() >= 1
    }

    /// A receive would return without waiting: either a slot is in flight
    /// or the producer side is gone.
    pub open spec fn receive_enabled(self) -> bool {
        self.in_flight.len() > 0 || !self.producer_live
    }

    /// The backpressure condition: one slot left in the private queue and
    /// nothing on the recycle path.
    pub open spec fn starved(self) -> bool {
        self.dishes.len() == 1 && self.recycling.len() == 0
    }
}

/// The state of a freshly created transport with `pool` slots, all in the
/// producer's queue.
pub open spec fn fresh_tube(pool: nat) -> TubeState {
    TubeState {
        dishes: Seq::new(pool, |i: int| i as nat),
        in_flight: Seq::empty(),
        held: Seq::empty(),
        recycling: Seq::empty(),
        producer_live: true,
        consumer_live: true,
    }
}

/// Pop the front slot of the private queue and offer it to the supply
/// channel: delivered if the consumer half is alive, lost otherwise (a
/// failed channel send hands the slot back inside the error, which the
/// producer discards).
pub open spec fn offer_front(s: TubeState) -> (TubeState, CommitOutcome)
    recommends
        s.commit_enabled(),
{
    let front = s.dishes[0];
    let rest = s.dishes.drop_first();
    if s.consumer_live {
        (
            TubeState { dishes: rest, in_flight: s.in_flight.push(front), ..s },
            CommitOutcome::Sent,
        )
    } else {
        (TubeState { dishes: rest, ..s }, CommitOutcome::ShutDown)
    }
}

/// One commit: with a single slot left, first pull from the recycle path
/// without blocking — a queued slot is taken even if the consumer has
/// since gone, an empty path absorbs the commit silently, a closed and
/// empty path reports shutdown; with two or more slots the front goes out
/// unconditionally.
pub open spec fn commit_step(s: TubeState) -> (TubeState, CommitOutcome)
    recommends
        s.commit_enabled(),
{
    if s.dishes.len() == 1 {
        if s.recycling.len() > 0 {
            let pulled = TubeState {
                dishes: s.dishes.push(s.recycling[0]),
                recycling: s.recycling.drop_first(),
                ..s
            };
            offer_front(pulled)
        } else if !s.consumer_live {
            (s, CommitOutcome::ShutDown)
        } else {
            (s, CommitOutcome::DroppedCommit)
        }
    } else {
        offer_front(s)
    }
}

/// One receive: the oldest slot in flight moves into the consumer's
/// hands; with nothing in flight and the producer gone, shutdown.
pub open spec fn receive_step(s: TubeState) -> (TubeState, ReceiveOutcome)
    recommends
        s.receive_enabled(),
{
    if s.in_flight.len() > 0 {
        (
            TubeState {
                in_flight: s.in_flight.drop_first(),
                held: s.held.push(s.in_flight[0]),
                ..s
            },
            ReceiveOutcome::Received(s.in_flight[0]),
        )
    } else {
        (s, ReceiveOutcome::ShutDown)
    }
}

/// One recycle of a held slot: back onto the recycle path while the
/// producer is alive; lost otherwise (the failed send's slot is dropped,
/// which the consumer treats as non-fatal).
pub open spec fn recycle_step(s: TubeState, id: nat) -> (TubeState, RecycleOutcome)
    recommends
        s.held.contains(id),
{
    let rest = s.held.remove_value(id);
    if s.producer_live {
        (TubeState { held: rest, recycling: s.recycling.push(id), ..s }, RecycleOutcome::Returned)
    } else {
        (TubeState { held: rest, ..s }, RecycleOutcome::ShutDown)
    }
}

/// Dropping the consumer half destroys what it holds and what is in
/// flight to it; slots already on the recycle path stay available.
pub open spec fn drop_consumer(s: TubeState) -> TubeState {
    TubeState { in_flight: Seq::empty(), held: Seq::empty(), consumer_live: false, ..s }
}

/// Dropping the producer half destroys its queue and the recycle path;
/// slots already in flight stay deliverable.
pub open spec fn drop_producer(s: TubeState) -> TubeState {
    TubeState { dishes: Seq::empty(), recycling: Seq::empty(), producer_live: false, ..s }
}

/// One operation of the protocol, as issued by the two halves.
pub enum TubeOp {
    /// The producer commits its front slot.
    Commit,
    /// The consumer receives the next slot.
    Receive,
    /// The consumer recycles this slot.
    Recycle(nat),
}

/// Apply one operation where it is enabled; a disabled operation (a
/// receive that would wait, a recycle of a slot not held) leaves the
/// state as it is.
pub open spec fn apply_op(s: TubeState, op: TubeOp) -> TubeState {
    match op {
        TubeOp::Commit => if s.commit_enabled() {
            commit_step(s).0
        } else {
            s
        },
        TubeOp::Receive => if s.receive_enabled() {
            receive_step(s).0
        } else {
            s
        },
        TubeOp::Recycle(id) => if s.held.contains(id) {
            recycle_step(s, id).0
        } else {
            s
        },
    }
}

/// Apply a whole sequence of operations, oldest first.
pub open spec fn apply_ops(s: TubeState, ops: Seq<TubeOp>) -> TubeState
    decreases ops.len(),
{
    if ops.len() == 0 {
        s
    } else {
        apply_ops(apply_op(s, ops[0]), ops.drop_first())
    }
}

/// Dropping the front of a duplicate-free sequence keeps it duplicate-free
/// and keeps exactly the other elements.
proof fn lemma_drop_first_facts(s: Seq<nat>)
    requires
        s.len() >= 1,
        s.no_duplicates(),
    ensures
        s.drop_first().no_duplicates(),
        forall|x: nat| #[trigger] s.drop_first().contains(x) ==> s.contains(x),
        !s.drop_first().contains(s[0]),
        forall|x: nat| s.contains(x) && x != s[0] ==> s.drop_first().contains(x),
{
    let t = s.drop_first();
    assert forall|x: nat| #[trigger] t.contains(x) implies s.contains(x) by {
        let i = choose|i: int| 0 <= i < t.len() && t[i] == x;
        assert(s[i + 1] == x);
    }
    assert forall|x: nat| s.contains(x) && x != s[0] implies t.contains(x) by {
        let i = choose|i: int| 0 <= i < s.len() && s[i] == x;
        assert(t[i - 1] == x);
    }
    if t.contains(s[0]) {
        let i = choose|i: int| 0 <= i < t.len() && t[i] == s[0];
        assert(s[i + 1] == s[0]);
        assert(false);
    }
    assert forall|i: int, j: int|
        0 <= i < t.len() && 0 <= j < t.len() && i != j implies t[i] != t[j] by {
        assert(t[i] == s[i + 1]);
        assert(t[j] == s[j + 1]);
    }
}

/// Pushing a new element onto a duplicate-free sequence keeps it
/// duplicate-free and adds exactly that element.
proof fn lemma_push_facts(s: Seq<nat>, x: nat)
    requires
        s.no_duplicates(),
        !s.contains(x),
    ensures
        s.push(x).no_duplicates(),
        forall|y: nat| #[trigger] s.push(x).contains(y) <==> (s.contains(y) || y == x),
{
    let t = s.push(x);
    assert forall|y: nat| #[trigger] t.contains(y) implies s.contains(y) || y == x by {
        let i = choose|i: int| 0 <= i < t.len() && t[i] == y;
        if i < s.len() {
            assert(s[i] == y);
        }
    }
    assert forall|y: nat| s.contains(y) || y == x implies #[trigger] t.contains(y) by {
        if s.contains(y) {
            let i = choose|i: int| 0 <= i < s.len() && s[i] == y;
            assert(t[i] == y);
        } else {
            assert(t[s.len() as int] == y);
        }
    }
    assert forall|i: int, j: int|
        0 <= i < t.len() && 0 <= j < t.len() && i != j implies t[i] != t[j] by {
        if i < s.len() && j < s.len() {
        } else if i < s.len() {
            assert(t[j] == x && t[i] == s[i]);
        } else if j < s.len() {
            assert(t[i] == x && t[j] == s[j]);
        }
    }
}

/// Removing one value from a duplicate-free sequence keeps it
/// duplicate-free and removes exactly that value.
proof fn lemma_remove_value_facts(s: Seq<nat>, x: nat)
    requires
        s.no_duplicates(),
        s.contains(x),
    ensures
        s.remove_value(x).no_duplicates(),
        s.remove_value(x).len() == s.len() - 1,
        !s.remove_value(x).contains(x),
        forall|y: nat| #[trigger] s.remove_value(x).contains(y) ==> s.contains(y),
        forall|y: nat| s.contains(y) && y != x ==> s.remove_value(x).contains(y),
{
    s.index_of_first_ensures(x);
    let k = s.index_of_first(x)->Some_0;
    let t = s.remove_value(x);
    assert(t == s.remove(k));
    s.remove_ensures(k);
    assert forall|y: nat| #[trigger] t.contains(y) implies s.contains(y) by {
        let i = choose|i: int| 0 <= i < t.len() && t[i] == y;
        if i < k {
            assert(s[i] == y);
        } else {
            assert(s[i + 1] == y);
        }
    }
    assert forall|y: nat| s.contains(y) && y != x implies t.contains(y) by {
        let i = choose|i: int| 0 <= i < s.len() && s[i] == y;
        if i < k {
            assert(t[i] == y);
        } else {
            assert(i != k);
            assert(t[i - 1] == s[i]);
        }
    }
    if t.contains(x) {
        let i = choose|i: int| 0 <= i < t.len() && t[i] == x;
        if i < k {
            assert(s[i] == x);
            assert(i != k && s[k] == x);
            assert(false);
        } else {
            assert(s[i + 1] == x);
            assert(i + 1 != k && s[k] == x);
            assert(false);
        }
    }
    assert forall|i: int, j: int|
        0 <= i < t.len() && 0 <= j < t.len() && i != j implies t[i] != t[j] by {
        let si = if i < k {
            i
        } else {
            i + 1
        };
        let sj = if j < k {
            j
        } else {
            j + 1
        };
        assert(t[i] == s[si]);
        assert(t[j] == s[sj]);
    }
}

/// What one offer of the front slot does: the slot leaves the producer's
/// queue; it reaches the supply channel exactly when the consumer half is
/// alive, and is destroyed otherwise.
pub proof fn lemma_offer_front(s: TubeState)
    requires
        s.wf(),
        s.commit_enabled(),
    ensures
        offer_front(s).0.wf(),
        offer_front(s).0.dishes == s.dishes.drop_first(),
        offer_front(s).0.held == s.held,
        offer_front(s).0.recycling == s.recycling,
        offer_front(s).0.producer_live == s.producer_live,
        offer_front(s).0.consumer_live == s.consumer_live,
        s.consumer_live ==> offer_front(s).1 is Sent && offer_front(s).0.total() == s.total()
            && offer_front(s).0.in_flight == s.in_flight.push(s.dishes[0]),
        !s.consumer_live ==> offer_front(s).1 is ShutDown && offer_front(s).0.total() + 1
            == s.total() && offer_front(s).0.in_flight == s.in_flight,
{
    let front = s.dishes[0];
    lemma_drop_first_facts(s.dishes);
    if s.consumer_live {
        assert(s.dishes.contains(front));
        assert(!s.in_flight.contains(front));
        lemma_push_facts(s.in_flight, front);
    }
}

/// What one commit does, whatever the consumer has done or left undone:
/// the producer's queue never empties, slots are conserved while the
/// consumer half is alive, a starved commit is silently absorbed, and a
/// commit against a dropped consumer reports shutdown.
pub proof fn lemma_commit_step(s: TubeState)
    requires
        s.wf(),
        s.commit_enabled(),
    ensures
        commit_step(s).0.wf(),
        commit_step(s).0.commit_enabled(),
        commit_step(s).0.producer_live == s.producer_live,
        commit_step(s).0.consumer_live == s.consumer_live,
        commit_step(s).0.held == s.held,
        s.consumer_live ==> commit_step(s).0.total() == s.total(),
        s.consumer_live ==> !(commit_step(s).1 is ShutDown),
        !s.consumer_live ==> commit_step(s).1 is ShutDown,
        s.consumer_live && s.starved() ==> commit_step(s).0 == s && commit_step(s).1
            is DroppedCommit,
        commit_step(s).1 is Sent ==> commit_step(s).0.consumer_count() == s.consumer_count() + 1,
        !(commit_step(s).1 is Sent) ==> commit_step(s).0.consumer_count() == s.consumer_count(),
        commit_step(s).1 is Sent ==> commit_step(s).0.in_flight == s.in_flight.push(s.dishes[0])
            && !commit_step(s).0.dishes.contains(s.dishes[0]),
{
    if s.dishes.len() == 1 {
        if s.recycling.len() > 0 {
            let r0 = s.recycling[0];
            assert(s.recycling.contains(r0));
            assert(!s.dishes.contains(r0));
            lemma_push_facts(s.dishes, r0);
            lemma_drop_first_facts(s.recycling);
            let pulled = TubeState {
                dishes: s.dishes.push(r0),
                recycling: s.recycling.drop_first(),
                ..s
            };
            assert(pulled.wf());
            lemma_offer_front(pulled);
            assert(pulled.dishes[0] == s.dishes[0]);
            if s.consumer_live {
                let post = offer_front(pulled).0;
                assert(post.in_flight == s.in_flight.push(s.dishes[0]));
                assert(!post.dishes.contains(s.dishes[0]));
            }
        }
    } else {
        lemma_offer_front(s);
        if s.consumer_live {
            let post = offer_front(s).0;
            assert(post.in_flight == s.in_flight.push(s.dishes[0]));
            assert(!post.dishes.contains(s.dishes[0]));
        }
    }
}

/// What one receive does: the oldest slot in flight moves into the
/// consumer's hands and into no other place; nothing on the producer's
/// side moves.
pub proof fn lemma_receive_step(s: TubeState)
    requires
        s.wf(),
        s.receive_enabled(),
    ensures
        receive_step(s).0.wf(),
        receive_step(s).0.total() == s.total(),
        receive_step(s).0.consumer_count() == s.consumer_count(),
        receive_step(s).0.dishes == s.dishes,
        receive_step(s).0.recycling == s.recycling,
        receive_step(s).0.producer_live == s.producer_live,
        receive_step(s).0.consumer_live == s.consumer_live,
        !s.producer_live && s.in_flight.len() == 0 ==> receive_step(s).1 is ShutDown,
        s.in_flight.len() > 0 ==> receive_step(s).1 == ReceiveOutcome::Received(s.in_flight[0])
            && receive_step(s).0.held == s.held.push(s.in_flight[0]) && !receive_step(
            s,
        ).0.dishes.contains(s.in_flight[0]),
{
    if s.in_flight.len() > 0 {
        let front = s.in_flight[0];
        assert(s.in_flight.contains(front));
        assert(!s.held.contains(front));
        lemma_push_facts(s.held, front);
        lemma_drop_first_facts(s.in_flight);
    }
}

/// What one recycle does: the slot leaves the consumer's hands; it reaches
/// the recycle path exactly when the producer half is alive, and is
/// destroyed otherwise, which the consumer treats as non-fatal.
pub proof fn lemma_recycle_step(s: TubeState, id: nat)
    requires
        s.wf(),
        s.held.contains(id),
    ensures
        recycle_step(s, id).0.wf(),
        recycle_step(s, id).0.dishes == s.dishes,
        recycle_step(s, id).0.in_flight == s.in_flight,
        recycle_step(s, id).0.producer_live == s.producer_live,
        recycle_step(s, id).0.consumer_live == s.consumer_live,
        !recycle_step(s, id).0.held.contains(id),
        forall|y: nat| #[trigger] recycle_step(s, id).0.held.contains(y) <==> (s.held.contains(y)
            && y != id),
        s.producer_live ==> recycle_step(s, id).1 is Returned && recycle_step(s, id).0.total()
            == s.total() && recycle_step(s, id).0.recycling == s.recycling.push(id),
        !s.producer_live ==> recycle_step(s, id).1 is ShutDown && recycle_step(s, id).0.total() + 1
            == s.total() && recycle_step(s, id).0.recycling == s.recycling,
{
    lemma_remove_value_facts(s.held, id);
    if s.producer_live {
        assert(!s.recycling.contains(id));
        lemma_push_facts(s.recycling, id);
    }
}

/// Non-blocking producer: filling the write slot touches no channel at
/// all, and a commit is enabled in every well-formed state — its enabling
/// condition speaks only of the producer's own queue — and leaves commits
/// enabled again, whatever the consumer has done, including never
/// recycling and including having been dropped. The executable commit
/// performs only a non-blocking poll of the recycle path and a send into
/// an unbounded channel, so no commit ever waits on the consumer.
pub proof fn lemma_producer_never_blocked(s: TubeState)
    requires
        s.wf(),
        s.commit_enabled(),
    ensures
        commit_step(s).0.wf(),
        commit_step(s).0.commit_enabled(),
{
    lemma_commit_step(s);
}

/// Conservation: while both halves are alive, no sequence of commit,
/// receive and recycle operations changes the number of slots in
/// existence, and the state stays well formed.
pub proof fn lemma_conservation(s: TubeState, ops: Seq<TubeOp>)
    requires
        s.wf(),
        s.producer_live,
        s.consumer_live,
    ensures
        apply_ops(s, ops).wf(),
        apply_ops(s, ops).total() == s.total(),
        apply_ops(s, ops).producer_live,
        apply_ops(s, ops).consumer_live,
    decreases ops.len(),
{
    if ops.len() > 0 {
        let s1 = apply_op(s, ops[0]);
        match ops[0] {
            TubeOp::Commit => {
                if s.commit_enabled() {
                    lemma_commit_step(s);
                }
            },
            TubeOp::Receive => {
                if s.receive_enabled() {
                    lemma_receive_step(s);
                }
            },
            TubeOp::Recycle(id) => {
                if s.held.contains(id) {
                    lemma_recycle_step(s, id);
                }
            },
        }
        lemma_conservation(s1, ops.drop_first());
    }
}

/// No double ownership: a slot in the consumer's hands stays there, and in
/// particular never reappears in the producer's queue, under any sequence
/// of operations that does not recycle that slot.
pub proof fn lemma_no_double_ownership(s: TubeState, ops: Seq<TubeOp>, id: nat)
    requires
        s.wf(),
        s.producer_live,
        s.consumer_live,
        s.held.contains(id),
        forall|i: int| 0 <= i < ops.len() ==> ops[i] != TubeOp::Recycle(id),
    ensures
        apply_ops(s, ops).held.contains(id),
        !apply_ops(s, ops).dishes.contains(id),
    decreases ops.len(),
{
    lemma_conservation(s, ops);
    if ops.len() == 0 {
        assert(!s.dishes.contains(id));
    } else {
        let s1 = apply_op(s, ops[0]);
        match ops[0] {
            TubeOp::Commit => {
                if s.commit_enabled() {
                    lemma_commit_step(s);
                }
            },
            TubeOp::Receive => {
                if s.receive_enabled() {
                    lemma_receive_step(s);
                    if s.in_flight.len() > 0 {
                        assert(s.in_flight.contains(s.in_flight[0]));
                        lemma_push_facts(s.held, s.in_flight[0]);
                    }
                }
            },
            TubeOp::Recycle(other) => {
                if s.held.contains(other) {
                    lemma_recycle_step(s, other);
                }
            },
        }
        assert(s1.held.contains(id));
        lemma_no_double_ownership(s1, ops.drop_first(), id);
    }
}

/// In-order delivery: a commit that goes through appends the producer's
/// front slot to the tail of the supply queue, and a receive takes from
/// its head, so slots reach the consumer in commit order.
pub proof fn lemma_delivery_in_commit_order(s: TubeState)
    requires
        s.wf(),
        s.commit_enabled(),
        s.consumer_live,
        !s.starved(),
    ensures
        commit_step(s).1 is Sent,
        commit_step(s).0.in_flight == s.in_flight.push(s.dishes[0]),
        s.in_flight.len() > 0 ==> receive_step(s).1 == ReceiveOutcome::Received(s.in_flight[0]),
{
    lemma_commit_step(s);
    if s.in_flight.len() > 0 {
        lemma_receive_step(s);
    }
}

/// Drop under backpressure, one step: while the consumer holds everything
/// back, a commit from a starved producer succeeds, changes nothing, and
/// delivers nothing.
pub proof fn lemma_starved_commit_drops(s: TubeState)
    requires
        s.consumer_live,
        s.starved(),
    ensures
        commit_step(s).0 == s,
        commit_step(s).1 is DroppedCommit,
{
}

/// Drop under backpressure, any run: once the producer is starved, a
/// consumer that receives but never recycles keeps it starved, and no
/// further slot ever reaches the consumer's side.
pub proof fn lemma_backpressure(s: TubeState, ops: Seq<TubeOp>)
    requires
        s.wf(),
        s.producer_live,
        s.consumer_live,
        s.starved(),
        forall|i: int| 0 <= i < ops.len() ==> (ops[i] is Commit || ops[i] is Receive),
    ensures
        apply_ops(s, ops).starved(),
        apply_ops(s, ops).consumer_count() == s.consumer_count(),
    decreases ops.len(),
{
    if ops.len() > 0 {
        let s1 = apply_op(s, ops[0]);
        match ops[0] {
            TubeOp::Commit => {
                lemma_starved_commit_drops(s);
            },
            TubeOp::Receive => {
                if s.receive_enabled() {
                    lemma_receive_step(s);
                }
            },
            TubeOp::Recycle(_) => {
                assert(false);
            },
        }
        lemma_backpressure(s1, ops.drop_first());
    }
}

/// A fresh transport is well formed and owns exactly its pool.
pub proof fn lemma_fresh_tube(pool: nat)
    ensures
        fresh_tube(pool).wf(),
        fresh_tube(pool).total() == pool,
        fresh_tube(pool).consumer_count() == 0,
{
}

/// The reference scenario's opening move: from a fresh two-slot transport
/// the first commit delivers its slot and leaves the producer starved, so
/// [`lemma_backpressure`] applies to everything that follows.
pub proof fn lemma_first_commit_starves()
    ensures
        commit_step(fresh_tube(2)).1 is Sent,
        commit_step(fresh_tube(2)).0.starved(),
        commit_step(fresh_tube(2)).0.consumer_count() == 1,
{
    lemma_fresh_tube(2);
    lemma_commit_step(fresh_tube(2));
}

/// Shutdown propagation to the producer: once the consumer half is
/// dropped, the very next commit reports shutdown.
pub proof fn lemma_shutdown_commit(s: TubeState)
    requires
        s.commit_enabled(),
    ensures
        commit_step(drop_consumer(s)).1 is ShutDown,
{
}

/// A commit that fails against a closed and empty recycle path leaves the
/// whole state untouched: the producer's queue keeps its one slot, ready
/// to be overwritten. (With a recycled slot still queued, the failing
/// commit pulls it in and loses the front instead: that shape is the
/// `offer_front` case of [`commit_step`], covered by
/// [`lemma_commit_step`].)
pub proof fn lemma_failed_commit_leaves_queue(s: TubeState)
    requires
        s.dishes.len() == 1,
        s.recycling.len() == 0,
        !s.consumer_live,
    ensures
        commit_step(s).0 == s,
        commit_step(s).1 is ShutDown,
{
}

/// Shutdown propagation to the consumer: once the producer half is
/// dropped and nothing is left in flight, the next receive reports
/// shutdown.
pub proof fn lemma_shutdown_receive(s: TubeState)
    requires
        s.in_flight.len() == 0,
    ensures
        receive_step(drop_producer(s)).1 is ShutDown,
{
}

/// Shutdown propagation to the recycle path: once the producer half is
/// dropped, recycling reports shutdown and the slot is simply dropped.
pub proof fn lemma_shutdown_recycle(s: TubeState, id: nat)
    requires
        s.held.contains(id),
    ensures
        recycle_step(drop_producer(s), id).1 is ShutDown,
{
}

} // verus!
