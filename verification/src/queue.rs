use vstd::prelude::*;
use crate::identity::{Address, U256Value, TxId, bytes_eq, derive_tx_id, tx_id_of};

verus! {

/// Minimum delay between scheduling time and an operation's timestamp.
pub const MIN_DELAY: u64 = 10;

/// Maximum delay between scheduling time and an operation's timestamp.
pub const MAX_DELAY: u64 = 1000;

/// Window after an operation's timestamp during which it may be executed.
pub const GRACE_PERIOD: u64 = 1000;

/// A lifecycle notification emitted by the queue.
#[derive(Debug)]
pub enum Event {
    Queue {
        tx_id: TxId,
        target: Address,
        value: U256Value,
        func: String,
        data: Vec<u8>,
        timestamp: u64,
    },
    Execute {
        tx_id: TxId,
        target: Address,
        value: U256Value,
        func: String,
        data: Vec<u8>,
        timestamp: u64,
    },
    Cancel { tx_id: TxId },
}

/// The failures the queue reports to its callers.
#[derive(Debug)]
pub enum TimeLockError {
    NotOwnerError,
    AlreadyQueuedError { tx_id: TxId },
    TimestampNotInRangeError { block_timestamp: u64, timestamp: u64 },
    NotQueuedError { tx_id: TxId },
    TimestampNotPassedError { block_timestamp: u64, timestamp: u64 },
    TimestampExpiredError { block_timestamp: u64, expires_at: u64 },
    TxFailedError,
}

/// What the external dispatcher is asked to perform after a successful
/// `execute`: call `target` with `value` and the opaque payload.
#[derive(Debug)]
pub struct DispatchRequest {
    pub target: Address,
    pub value: U256Value,
    pub data: Vec<u8>,
}

/// The decision `queue` takes, in its validation order.
pub enum QueueCheck {
    Accept,
    RejectNotOwner,
    RejectAlreadyQueued,
    RejectNotInRange,
}

/// The decision `execute` takes, in its validation order.
pub enum ExecuteCheck {
    Accept,
    RejectNotOwner,
    RejectNotQueued,
    RejectNotPassed,
    RejectExpired,
}

/// The decision `cancel` takes, in its validation order.
pub enum CancelCheck {
    Accept,
    RejectNotOwner,
    RejectNotQueued,
}

/// How `queue` decides, checking authority, then pending status, then the
/// scheduling window `[now + MIN_DELAY, now + MAX_DELAY]`.
pub open spec fn queue_check(
    owner: Seq<u8>,
    queued: Set<Seq<u8>>,
    caller: Seq<u8>,
    id: Seq<u8>,
    now: u64,
    timestamp: u64,
) -> QueueCheck {
    if caller != owner {
        QueueCheck::RejectNotOwner
    } else if queued.contains(id) {
        QueueCheck::RejectAlreadyQueued
    } else if timestamp < now + MIN_DELAY || timestamp > now + MAX_DELAY {
        QueueCheck::RejectNotInRange
    } else {
        QueueCheck::Accept
    }
}

/// How `execute` decides, checking authority, then pending status, then the
/// execution window `[timestamp, timestamp + GRACE_PERIOD]`.
pub open spec fn execute_check(
    owner: Seq<u8>,
    queued: Set<Seq<u8>>,
    caller: Seq<u8>,
    id: Seq<u8>,
    now: u64,
    timestamp: u64,
) -> ExecuteCheck {
    if caller != owner {
        ExecuteCheck::RejectNotOwner
    } else if !queued.contains(id) {
        ExecuteCheck::RejectNotQueued
    } else if now < timestamp {
        ExecuteCheck::RejectNotPassed
    } else if now > timestamp + GRACE_PERIOD {
        ExecuteCheck::RejectExpired
    } else {
        ExecuteCheck::Accept
    }
}

/// How `cancel` decides, checking authority, then pending status.
pub open spec fn cancel_check(
    owner: Seq<u8>,
    queued: Set<Seq<u8>>,
    caller: Seq<u8>,
    id: Seq<u8>,
) -> CancelCheck {
    if caller != owner {
        CancelCheck::RejectNotOwner
    } else if !queued.contains(id) {
        CancelCheck::RejectNotQueued
    } else {
        CancelCheck::Accept
    }
}

/// One step of an identity's lifecycle: a successful `queue`, or a
/// consumption of the pending flag (an execution attempt or a cancellation).
pub enum Action {
    Queued { id: Seq<u8> },
    Consumed { id: Seq<u8> },
}

/// Whether `id` is pending after the steps in `history`: its most recent
/// lifecycle step, if any, queued it.
pub open spec fn pending_in(history: Seq<Action>, id: Seq<u8>) -> bool
    decreases history.len(),
{
    if history.len() == 0 {
        false
    } else {
        match history.last() {
            Action::Queued { id: qid } => if qid == id {
                true
            } else {
                pending_in(history.drop_last(), id)
            },
            Action::Consumed { id: cid } => if cid == id {
                false
            } else {
                pending_in(history.drop_last(), id)
            },
        }
    }
}

/// Appending a step settles pending status for its identity and leaves every
/// other identity's status unchanged.
pub proof fn lemma_pending_in_push(history: Seq<Action>, step: Action, id: Seq<u8>)
    ensures
        pending_in(history.push(step), id) == match step {
            Action::Queued { id: qid } => if qid == id {
                true
            } else {
                pending_in(history, id)
            },
            Action::Consumed { id: cid } => if cid == id {
                false
            } else {
                pending_in(history, id)
            },
        },
{
    assert(history.push(step).last() == step);
    assert(history.push(step).drop_last() =~= history);
}

/// The timelocked command queue: the owner's identity, the set of pending
/// operation identities, and the notifications emitted so far.
pub struct TimeLock {
    pub owner: Address,
    pub pending: Vec<TxId>,
    pub events: Vec<Event>,
    pub history: Ghost<Seq<Action>>,
}

impl TimeLock {
    /// The set of identities currently queued.
    pub open spec fn queued_ids(&self) -> Set<Seq<u8>> {
        Set::new(
            |id: Seq<u8>|
                exists|i: int| 0 <= i < self.pending@.len() && self.pending@[i]@ == id,
        )
    }

    pub open spec fn wf(&self) -> bool {
        &&& self.owner.wf()
        &&& forall|i: int|
            0 <= i < self.pending@.len() ==> (#[trigger] self.pending@[i]).wf()
        &&& forall|i: int, j: int|
            0 <= i < j < self.pending@.len() ==> self.pending@[i]@ != self.pending@[j]@
        &&& forall|id: Seq<u8>|
            #[trigger] pending_in(self.history@, id) == self.queued_ids().contains(id)
    }

    /// A fresh queue under the given owner: nothing pending, nothing emitted.
    pub fn new(owner: Address) -> (r: TimeLock)
        requires
            owner.wf(),
        ensures
            r.wf(),
            r.owner@ == owner@,
            r.queued_ids() == Set::<Seq<u8>>::empty(),
            r.events@.len() == 0,
            r.history@ == Seq::<Action>::empty(),
    {
        let r = TimeLock {
            owner,
            pending: Vec::new(),
            events: Vec::new(),
            history: Ghost(Seq::empty()),
        };
        proof {
            assert(r.queued_ids() =~= Set::<Seq<u8>>::empty());
        }
        r
    }

    /// Where `id` sits in the pending list, if it is queued.
    fn find_pending(&self, id: &TxId) -> (r: Option<usize>)
        ensures
            match r {
                Some(j) => j < self.pending@.len() && self.pending@[j as int]@ == id@,
                None => !self.queued_ids().contains(id@),
            },
    {
        let mut i: usize = 0;
        while i < self.pending.len()
            invariant
                i <= self.pending@.len(),
                forall|k: int| 0 <= k < i ==> self.pending@[k]@ != id@,
            decreases self.pending@.len() - i,
        {
            if bytes_eq(&self.pending[i].bytes, &id.bytes) {
                return Some(i);
            }
            i += 1;
        }
        None
    }

    /// Whether an operation with this identity is currently queued.
    pub fn is_queued(&self, id: &TxId) -> (r: bool)
        ensures
            r == self.queued_ids().contains(id@),
    {
        match self.find_pending(id) {
            Some(j) => {
                proof {
                    assert(self.queued_ids().contains(id@)) by {
                        assert(0 <= j < self.pending@.len() && self.pending@[j as int]@ == id@);
                    }
                }
                true
            },
            None => false,
        }
    }

    /// Derive the identity the queue would use for these parameters.
    pub fn get_tx_id(
        &self,
        target: &Address,
        value: &U256Value,
        func: &String,
        data: &Vec<u8>,
        timestamp: u64,
    ) -> (r: TxId)
        requires
            target.wf(),
            value.wf(),
        ensures
            r@ == tx_id_of(target@, value@, func@, data@, timestamp),
            r.wf(),
    {
        derive_tx_id(target, value, func, data, timestamp)
    }

    /// All notifications emitted so far, oldest first.
    pub fn events(&self) -> (r: &Vec<Event>)
        ensures
            r@ == self.events@,
    {
        &self.events
    }

    /// Schedule an operation: only the owner may queue, the identity must not
    /// already be pending, and the timestamp must lie in
    /// `[now + MIN_DELAY, now + MAX_DELAY]`. On success the identity becomes
    /// pending and a `Queue` notification is emitted.
    pub fn queue(
        &mut self,
        caller: &Address,
        now: u64,
        target: Address,
        value: U256Value,
        func: String,
        data: Vec<u8>,
        timestamp: u64,
    ) -> (r: Result<(), TimeLockError>)
        requires
            old(self).wf(),
            target.wf(),
            value.wf(),
        ensures
            final(self).wf(),
            final(self).owner == old(self).owner,
            ({
                let id = tx_id_of(target@, value@, func@, data@, timestamp);
                match queue_check(
                    old(self).owner@,
                    old(self).queued_ids(),
                    caller@,
                    id,
                    now,
                    timestamp,
                ) {
                    QueueCheck::Accept => {
                        &&& r is Ok
                        &&& final(self).queued_ids() == old(self).queued_ids().insert(id)
                        &&& final(self).history@ == old(self).history@.push(
                            (Action::Queued { id }),
                        )
                        &&& final(self).events@.len() == old(self).events@.len() + 1
                        &&& final(self).events@.drop_last() == old(self).events@
                        &&& (final(self).events@.last() matches Event::Queue {
                            tx_id,
                            target: et,
                            value: ev,
                            func: ef,
                            data: ed,
                            timestamp: ets,
                        } && tx_id@ == id && et@ == target@ && ev@ == value@ && ef@ == func@
                            && ed@ == data@ && ets == timestamp)
                    },
                    QueueCheck::RejectNotOwner => {
                        &&& (r matches Err(TimeLockError::NotOwnerError))
                        &&& *final(self) == *old(self)
                    },
                    QueueCheck::RejectAlreadyQueued => {
                        &&& (r matches Err(TimeLockError::AlreadyQueuedError { tx_id }) && tx_id@
                            == id)
                        &&& *final(self) == *old(self)
                    },
                    QueueCheck::RejectNotInRange => {
                        &&& (r matches Err(TimeLockError::TimestampNotInRangeError {
                            block_timestamp,
                            timestamp: ts,
                        }) && block_timestamp == now && ts == timestamp)
                        &&& *final(self) == *old(self)
                    },
                }
            }),
    {
        if !bytes_eq(&caller.bytes, &self.owner.bytes) {
            return Err(TimeLockError::NotOwnerError);
        }
        let tx_id = self.get_tx_id(&target, &value, &func, &data, timestamp);
        if self.is_queued(&tx_id) {
            return Err(TimeLockError::AlreadyQueuedError { tx_id });
        }
        let too_early = (timestamp as u128) < (now as u128) + (MIN_DELAY as u128);
        let too_late = (timestamp as u128) > (now as u128) + (MAX_DELAY as u128);
        if too_early || too_late {
            return Err(TimeLockError::TimestampNotInRangeError { block_timestamp: now, timestamp });
        }
        let ghost id = tx_id_of(target@, value@, func@, data@, timestamp);
        let id_copy = tx_id.duplicate();
        self.pending.push(id_copy);
        self.history = Ghost(self.history@.push(Action::Queued { id }));
        self.events.push(Event::Queue { tx_id, target, value, func, data, timestamp });
        proof {
            let oldp = old(self).pending@;
            let newp = self.pending@;
            assert forall|x: Seq<u8>|
                self.queued_ids().contains(x) == (old(self).queued_ids().contains(x) || x
                    == id) by {
                if self.queued_ids().contains(x) {
                    let i = choose|i: int| 0 <= i < newp.len() && newp[i]@ == x;
                    if i < oldp.len() {
                        assert(oldp[i]@ == x);
                        assert(old(self).queued_ids().contains(x));
                    } else {
                        assert(x == id);
                    }
                }
                if old(self).queued_ids().contains(x) {
                    let i = choose|i: int| 0 <= i < oldp.len() && oldp[i]@ == x;
                    assert(newp[i]@ == x);
                    assert(self.queued_ids().contains(x));
                }
                if x == id {
                    assert(newp[newp.len() - 1]@ == x);
                    assert(self.queued_ids().contains(x));
                }
            }
            assert(self.queued_ids() =~= old(self).queued_ids().insert(id));
            assert forall|i: int, j: int| 0 <= i < j < newp.len() implies newp[i]@ != newp[j]@ by {
                if j == newp.len() - 1 {
                    assert(oldp[i]@ == newp[i]@);
                    if newp[i]@ == id {
                        assert(old(self).queued_ids().contains(id));
                    }
                }
            }
            assert forall|x: Seq<u8>|
                #[trigger] pending_in(self.history@, x) == self.queued_ids().contains(x) by {
                lemma_pending_in_push(old(self).history@, Action::Queued { id }, x);
                assert(pending_in(old(self).history@, x) == old(self).queued_ids().contains(x));
            }
            assert(self.events@.drop_last() =~= old(self).events@);
        }
        Ok(())
    }

    /// Clear the pending flag of the identity at index `j`, recording the
    /// consumption in the lifecycle history.
    fn consume_at(&mut self, j: usize) -> (removed: TxId)
        requires
            old(self).wf(),
            j < old(self).pending@.len(),
        ensures
            final(self).wf(),
            removed == old(self).pending@[j as int],
            final(self).owner == old(self).owner,
            final(self).events == old(self).events,
            final(self).queued_ids() == old(self).queued_ids().remove(
                old(self).pending@[j as int]@,
            ),
            final(self).history@ == old(self).history@.push(
                (Action::Consumed { id: old(self).pending@[j as int]@ }),
            ),
    {
        let ghost id = self.pending@[j as int]@;
        let removed = self.pending.remove(j);
        self.history = Ghost(self.history@.push(Action::Consumed { id }));
        proof {
            let oldp = old(self).pending@;
            let newp = self.pending@;
            oldp.remove_ensures(j as int);
            assert forall|x: Seq<u8>|
                self.queued_ids().contains(x) == (old(self).queued_ids().contains(x) && x
                    != id) by {
                if self.queued_ids().contains(x) {
                    let i = choose|i: int| 0 <= i < newp.len() && newp[i]@ == x;
                    if i < j {
                        assert(oldp[i]@ == x);
                        assert(old(self).queued_ids().contains(x));
                        assert(x != id);
                    } else {
                        assert(newp[i] == oldp[i + 1]);
                        assert(oldp[i + 1]@ == x);
                        assert(old(self).queued_ids().contains(x));
                        assert(x != id);
                    }
                }
                if old(self).queued_ids().contains(x) && x != id {
                    let i = choose|i: int| 0 <= i < oldp.len() && oldp[i]@ == x;
                    assert(i != j);
                    if i < j {
                        assert(newp[i]@ == x);
                    } else {
                        assert(newp[i - 1] == oldp[i]);
                        assert(newp[i - 1]@ == x);
                    }
                    assert(self.queued_ids().contains(x));
                }
            }
            assert(self.queued_ids() =~= old(self).queued_ids().remove(id));
            assert forall|i1: int, i2: int|
                0 <= i1 < i2 < newp.len() implies newp[i1]@ != newp[i2]@ by {
                let k1: int = if i1 < j { i1 } else { i1 + 1 };
                let k2: int = if i2 < j { i2 } else { i2 + 1 };
                assert(newp[i1] == oldp[k1]);
                assert(newp[i2] == oldp[k2]);
                assert(k1 < k2);
                assert(oldp[k1]@ != oldp[k2]@);
            }
            assert forall|x: Seq<u8>|
                #[trigger] pending_in(self.history@, x) == self.queued_ids().contains(x) by {
                lemma_pending_in_push(old(self).history@, Action::Consumed { id }, x);
                assert(pending_in(old(self).history@, x) == old(self).queued_ids().contains(x));
            }
        }
        removed
    }

    /// Execute a pending operation: only the owner may execute, the identity
    /// must be pending, and `now` must lie in
    /// `[timestamp, timestamp + GRACE_PERIOD]`. On success the pending flag is
    /// cleared before anything is dispatched, and the call to perform is
    /// returned; the caller reports the dispatch outcome to
    /// `finish_execute`.
    pub fn execute(
        &mut self,
        caller: &Address,
        now: u64,
        target: Address,
        value: U256Value,
        func: String,
        data: Vec<u8>,
        timestamp: u64,
    ) -> (r: Result<DispatchRequest, TimeLockError>)
        requires
            old(self).wf(),
            target.wf(),
            value.wf(),
        ensures
            final(self).wf(),
            final(self).owner == old(self).owner,
            ({
                let id = tx_id_of(target@, value@, func@, data@, timestamp);
                match execute_check(
                    old(self).owner@,
                    old(self).queued_ids(),
                    caller@,
                    id,
                    now,
                    timestamp,
                ) {
                    ExecuteCheck::Accept => {
                        &&& (r matches Ok(req) && req.target@ == target@ && req.value@ == value@
                            && req.data@ == data@)
                        &&& final(self).queued_ids() == old(self).queued_ids().remove(id)
                        &&& final(self).history@ == old(self).history@.push(
                            (Action::Consumed { id }),
                        )
                        &&& final(self).events == old(self).events
                    },
                    ExecuteCheck::RejectNotOwner => {
                        &&& (r matches Err(TimeLockError::NotOwnerError))
                        &&& *final(self) == *old(self)
                    },
                    ExecuteCheck::RejectNotQueued => {
                        &&& (r matches Err(TimeLockError::NotQueuedError { tx_id }) && tx_id@ == id)
                        &&& *final(self) == *old(self)
                    },
                    ExecuteCheck::RejectNotPassed => {
                        &&& (r matches Err(TimeLockError::TimestampNotPassedError {
                            block_timestamp,
                            timestamp: ts,
                        }) && block_timestamp == now && ts == timestamp)
                        &&& *final(self) == *old(self)
                    },
                    ExecuteCheck::RejectExpired => {
                        &&& (r matches Err(TimeLockError::TimestampExpiredError {
                            block_timestamp,
                            expires_at,
                        }) && block_timestamp == now && expires_at == timestamp + GRACE_PERIOD)
                        &&& *final(self) == *old(self)
                    },
                }
            }),
    {
        if !bytes_eq(&caller.bytes, &self.owner.bytes) {
            return Err(TimeLockError::NotOwnerError);
        }
        let tx_id = self.get_tx_id(&target, &value, &func, &data, timestamp);
        let j = match self.find_pending(&tx_id) {
            Some(j) => j,
            None => {
                return Err(TimeLockError::NotQueuedError { tx_id });
            },
        };
        proof {
            assert(self.queued_ids().contains(tx_id@)) by {
                assert(0 <= j < self.pending@.len() && self.pending@[j as int]@ == tx_id@);
            }
        }
        if now < timestamp {
            return Err(TimeLockError::TimestampNotPassedError { block_timestamp: now, timestamp });
        }
        if (now as u128) > (timestamp as u128) + (GRACE_PERIOD as u128) {
            let expires_at: u64 = timestamp + GRACE_PERIOD;
            return Err(TimeLockError::TimestampExpiredError { block_timestamp: now, expires_at });
        }
        self.consume_at(j);
        Ok(DispatchRequest { target, value, data })
    }

    /// Report the dispatcher's outcome for an operation whose pending flag
    /// `execute` has just cleared: on success an `Execute` notification is
    /// emitted; on failure the call ends with `TxFailedError`, and the flag
    /// stays cleared either way.
    pub fn finish_execute(
        &mut self,
        dispatch_ok: bool,
        target: Address,
        value: U256Value,
        func: String,
        data: Vec<u8>,
        timestamp: u64,
    ) -> (r: Result<(), TimeLockError>)
        requires
            old(self).wf(),
            target.wf(),
            value.wf(),
        ensures
            final(self).wf(),
            final(self).owner == old(self).owner,
            !dispatch_ok ==> (r matches Err(TimeLockError::TxFailedError)) && *final(self) == *old(
                self,
            ),
            dispatch_ok ==> ({
                let id = tx_id_of(target@, value@, func@, data@, timestamp);
                &&& r is Ok
                &&& final(self).pending == old(self).pending
                &&& final(self).history == old(self).history
                &&& final(self).events@.len() == old(self).events@.len() + 1
                &&& final(self).events@.drop_last() == old(self).events@
                &&& (final(self).events@.last() matches Event::Execute {
                    tx_id,
                    target: et,
                    value: ev,
                    func: ef,
                    data: ed,
                    timestamp: ets,
                } && tx_id@ == id && et@ == target@ && ev@ == value@ && ef@ == func@ && ed@ == data@
                    && ets == timestamp)
            }),
    {
        if !dispatch_ok {
            return Err(TimeLockError::TxFailedError);
        }
        let tx_id = self.get_tx_id(&target, &value, &func, &data, timestamp);
        self.events.push(Event::Execute { tx_id, target, value, func, data, timestamp });
        proof {
            assert(self.events@.drop_last() =~= old(self).events@);
        }
        Ok(())
    }

    /// Withdraw a pending operation: only the owner may cancel, and the
    /// identity must be pending. The flag is cleared and a `Cancel`
    /// notification carrying only the identity is emitted.
    pub fn cancel(
        &mut self,
        caller: &Address,
        target: Address,
        value: U256Value,
        func: String,
        data: Vec<u8>,
        timestamp: u64,
    ) -> (r: Result<(), TimeLockError>)
        requires
            old(self).wf(),
            target.wf(),
            value.wf(),
        ensures
            final(self).wf(),
            final(self).owner == old(self).owner,
            ({
                let id = tx_id_of(target@, value@, func@, data@, timestamp);
                match cancel_check(old(self).owner@, old(self).queued_ids(), caller@, id) {
                    CancelCheck::Accept => {
                        &&& r is Ok
                        &&& final(self).queued_ids() == old(self).queued_ids().remove(id)
                        &&& final(self).history@ == old(self).history@.push(
                            (Action::Consumed { id }),
                        )
                        &&& final(self).events@.len() == old(self).events@.len() + 1
                        &&& final(self).events@.drop_last() == old(self).events@
                        &&& (final(self).events@.last() matches Event::Cancel { tx_id } && tx_id@
                            == id)
                    },
                    CancelCheck::RejectNotOwner => {
                        &&& (r matches Err(TimeLockError::NotOwnerError))
                        &&& *final(self) == *old(self)
                    },
                    CancelCheck::RejectNotQueued => {
                        &&& (r matches Err(TimeLockError::NotQueuedError { tx_id }) && tx_id@ == id)
                        &&& *final(self) == *old(self)
                    },
                }
            }),
    {
        if !bytes_eq(&caller.bytes, &self.owner.bytes) {
            return Err(TimeLockError::NotOwnerError);
        }
        let tx_id = self.get_tx_id(&target, &value, &func, &data, timestamp);
        let j = match self.find_pending(&tx_id) {
            Some(j) => j,
            None => {
                return Err(TimeLockError::NotQueuedError { tx_id });
            },
        };
        proof {
            assert(self.queued_ids().contains(tx_id@)) by {
                assert(0 <= j < self.pending@.len() && self.pending@[j as int]@ == tx_id@);
            }
        }
        let removed = self.consume_at(j);
        self.events.push(Event::Cancel { tx_id: removed });
        proof {
            assert(self.events@.drop_last() =~= old(self).events@);
        }
        Ok(())
    }
}

/// An identity is pending exactly when a queue for it succeeded more recently
/// than any consuming step — an execution attempt or a cancellation — took
/// its pending flag.
pub proof fn lemma_queued_iff_recently_queued(tl: &TimeLock, id: Seq<u8>)
    requires
        tl.wf(),
    ensures
        tl.queued_ids().contains(id) <==> pending_in(tl.history@, id),
{
    assert(pending_in(tl.history@, id) == tl.queued_ids().contains(id));
}

/// A caller other than the owner is turned away by queue, execute, and
/// cancel alike, whatever the other arguments.
pub proof fn lemma_non_owner_rejected(
    owner: Seq<u8>,
    queued: Set<Seq<u8>>,
    caller: Seq<u8>,
    id: Seq<u8>,
    now: u64,
    timestamp: u64,
)
    requires
        caller != owner,
    ensures
        queue_check(owner, queued, caller, id, now, timestamp) == QueueCheck::RejectNotOwner,
        execute_check(owner, queued, caller, id, now, timestamp) == ExecuteCheck::RejectNotOwner,
        cancel_check(owner, queued, caller, id) == CancelCheck::RejectNotOwner,
{
}

/// While an identity is pending, the owner cannot queue it again: the second
/// queue is rejected as already queued.
pub proof fn lemma_double_queue_rejected(
    owner: Seq<u8>,
    queued: Set<Seq<u8>>,
    id: Seq<u8>,
    now: u64,
    timestamp: u64,
)
    ensures
        queue_check(owner, queued.insert(id), owner, id, now, timestamp)
            == QueueCheck::RejectAlreadyQueued,
{
}

/// Once execute or cancel has taken an identity's pending flag, the owner may
/// queue the same identity again: within the scheduling window the queue is
/// accepted.
pub proof fn lemma_requeue_after_consumption(
    owner: Seq<u8>,
    queued: Set<Seq<u8>>,
    id: Seq<u8>,
    now: u64,
    timestamp: u64,
)
    requires
        now + MIN_DELAY <= timestamp,
        timestamp <= now + MAX_DELAY,
    ensures
        queue_check(owner, queued.remove(id), owner, id, now, timestamp) == QueueCheck::Accept,
{
}

/// For the owner and an identity not yet pending, queue accepts exactly the
/// timestamps in `[now + MIN_DELAY, now + MAX_DELAY]`, both boundaries
/// included, and rejects every other timestamp as out of range.
pub proof fn lemma_queue_window(
    owner: Seq<u8>,
    queued: Set<Seq<u8>>,
    id: Seq<u8>,
    now: u64,
    timestamp: u64,
)
    requires
        !queued.contains(id),
    ensures
        queue_check(owner, queued, owner, id, now, timestamp) == QueueCheck::Accept <==> now
            + MIN_DELAY <= timestamp <= now + MAX_DELAY,
        queue_check(owner, queued, owner, id, now, timestamp) == QueueCheck::RejectNotInRange
            <==> (timestamp < now + MIN_DELAY || timestamp > now + MAX_DELAY),
{
}

/// For the owner and a pending identity, execute accepts exactly the moments
/// in `[timestamp, timestamp + GRACE_PERIOD]`, both boundaries included;
/// earlier moments are rejected as not passed, later ones as expired.
pub proof fn lemma_execute_window(
    owner: Seq<u8>,
    queued: Set<Seq<u8>>,
    id: Seq<u8>,
    now: u64,
    timestamp: u64,
)
    requires
        queued.contains(id),
    ensures
        execute_check(owner, queued, owner, id, now, timestamp) == ExecuteCheck::Accept
            <==> timestamp <= now <= timestamp + GRACE_PERIOD,
        execute_check(owner, queued, owner, id, now, timestamp) == ExecuteCheck::RejectNotPassed
            <==> now < timestamp,
        execute_check(owner, queued, owner, id, now, timestamp) == ExecuteCheck::RejectExpired
            <==> now > timestamp + GRACE_PERIOD,
{
}

} // verus!
