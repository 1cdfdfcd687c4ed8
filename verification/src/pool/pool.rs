//! The state of the pool behind its lock: the idle connections and the
//! callers that wait for one.

use crate::trusted::{channel, is_closed, send};
use std::collections::VecDeque;
use std::future::Future;
use tokio::sync::oneshot::error::RecvError;
use tokio::sync::oneshot::{Receiver, Sender};
use vstd::prelude::*;

verus! {

/// What became of a connection that came back to the pool.
#[derive(Debug, Clone, Copy, PartialEq, Eq, Structural)]
pub enum Placement {
    /// A waiter took it; the `skipped` waiters before that one were passed
    /// over and left the queue without it.
    HandedOff { skipped: usize },
    /// No waiter took it, and it was put among the idle connections.
    Idle,
    /// No waiter took it and the idle connections were at their bound: it
    /// was dropped.
    Dropped,
}

/// What a caller gets when it asks for a connection.
#[verifier::reject_recursive_types(T)]
pub enum Checkout<T> {
    /// An idle connection.
    Ready(T),
    /// Nothing was idle. The caller is queued, and a returned connection
    /// will arrive here unless the caller builds its own first.
    Wait(Receiver<T>),
}

/// Something that can be kept in a pool.
pub trait Elem {

}

/// Something that makes fresh elements for a pool.
pub trait ElemBuilder {
    type Item: Elem;

    type Future: Future<Output = Self::Item>;

    fn build(&self) -> Self::Future;
}

/// Which side finished first when a queued caller also built a connection
/// of its own, and how it ended.
#[verifier::reject_recursive_types(T)]
#[verifier::reject_recursive_types(E)]
pub enum Winner<T, E> {
    /// The waiter: a returned connection arrived, or the queue let go of
    /// the caller.
    Waiter(Result<T, RecvError>),
    /// The builder: a fresh connection, or the error of making one.
    Builder(Result<T, E>),
}

/// How a request for a connection ends.
#[verifier::reject_recursive_types(T)]
#[verifier::reject_recursive_types(E)]
pub enum Settled<T, E> {
    /// The caller leases `conn`. With `detach_builder`, the builder is left
    /// to finish on its own and what it builds goes to the pool.
    Lease { conn: T, detach_builder: bool },
    /// No connection could be built.
    BuilderFailed(E),
    /// The wait ended without a connection.
    WaiterFailed(RecvError),
}

/// Settles the race between waiting and building.
///
/// A connection, whichever side it came from, becomes the lease. When it
/// came from the waiter while the builder was already at work, that work is
/// not thrown away: the builder is detached. A failure of either side is
/// the result, as it is.
pub fn settle<T, E>(winner: Winner<T, E>, builder_started: bool) -> (out: Settled<T, E>)
    ensures
        out == match winner {
            Winner::Waiter(Ok(conn)) => Settled::Lease { conn, detach_builder: builder_started },
            Winner::Waiter(Err(e)) => Settled::WaiterFailed(e),
            Winner::Builder(Ok(conn)) => Settled::Lease { conn, detach_builder: false },
            Winner::Builder(Err(e)) => Settled::BuilderFailed(e),
        },
{
    match winner {
        Winner::Waiter(Ok(conn)) => Settled::Lease { conn, detach_builder: builder_started },
        Winner::Waiter(Err(e)) => Settled::WaiterFailed(e),
        Winner::Builder(Ok(conn)) => Settled::Lease { conn, detach_builder: false },
        Winner::Builder(Err(e)) => Settled::BuilderFailed(e),
    }
}

/// The mathematical content of an [`Inner`].
#[verifier::reject_recursive_types(T)]
pub struct InnerView<T> {
    /// The idle connections; the last is leased first.
    pub idle: Seq<T>,
    /// The waiting callers, oldest first.
    pub waiters: Seq<Sender<T>>,
    /// The bound on the number of idle connections.
    pub max_idle: nat,
}

impl<T> InnerView<T> {
    /// No more idle connections than the bound allows, and none while a
    /// caller waits.
    pub open spec fn wf(self) -> bool {
        &&& self.idle.len() <= self.max_idle
        &&& self.waiters.len() > 0 ==> self.idle.len() == 0
    }

    /// Whether a connection that comes back in this state can end as
    /// `placed` says.
    pub open spec fn admits(self, placed: Placement) -> bool {
        match placed {
            Placement::HandedOff { skipped } => skipped < self.waiters.len(),
            Placement::Idle => self.idle.len() < self.max_idle,
            Placement::Dropped => self.idle.len() >= self.max_idle,
        }
    }

    /// The state after the connection `t` came back and ended as `placed`
    /// says. A waiter that was passed over is not asked again.
    pub open spec fn returned(self, t: T, placed: Placement) -> Self {
        match placed {
            Placement::HandedOff { skipped } => InnerView {
                waiters: self.waiters.skip(skipped + 1),
                ..self
            },
            Placement::Idle => InnerView {
                idle: self.idle.push(t),
                waiters: Seq::empty(),
                ..self
            },
            Placement::Dropped => InnerView { waiters: Seq::empty(), ..self },
        }
    }

    /// Where a returned connection ends when no waiter takes it.
    pub open spec fn unclaimed(self) -> Placement {
        if self.idle.len() < self.max_idle {
            Placement::Idle
        } else {
            Placement::Dropped
        }
    }

    /// The state after the connections `conns` came back one after another
    /// and no waiter took any.
    pub open spec fn returned_all(self, conns: Seq<T>) -> Self
        decreases conns.len(),
    {
        if conns.len() == 0 {
            self
        } else {
            let before = self.returned_all(conns.drop_last());
            before.returned(conns.last(), before.unclaimed())
        }
    }

    /// How many of the connections `conns` were dropped when they came back
    /// one after another and no waiter took any.
    pub open spec fn dropped_of(self, conns: Seq<T>) -> nat
        decreases conns.len(),
    {
        if conns.len() == 0 {
            0
        } else {
            let before = self.returned_all(conns.drop_last());
            let earlier = self.dropped_of(conns.drop_last());
            if before.unclaimed() == Placement::Dropped {
                earlier + 1
            } else {
                earlier
            }
        }
    }
}

/// A connection that a waiter takes does not become idle: the idle
/// connections stay as they were, which is none, and the waiter leaves the
/// queue.
pub proof fn taken_connection_is_not_idle<T>(pool: InnerView<T>, t: T, skipped: usize)
    requires
        pool.wf(),
        pool.admits(Placement::HandedOff { skipped }),
    ensures
        pool.returned(t, Placement::HandedOff { skipped }).idle == pool.idle,
        pool.returned(t, Placement::HandedOff { skipped }).idle.len() == 0,
        pool.returned(t, Placement::HandedOff { skipped }).waiters.len() < pool.waiters.len(),
        pool.returned(t, Placement::HandedOff { skipped }).wf(),
{
}

/// A waiter that is passed over is not asked again: wherever a returned
/// connection ends, the queue afterwards is what stood behind the waiters
/// that were asked. The waiter that took it and the `skipped` ones before
/// it are gone, and when nobody took it the queue is empty.
pub proof fn asked_waiters_leave<T>(pool: InnerView<T>, t: T, placed: Placement)
    requires
        pool.admits(placed),
    ensures
        match placed {
            Placement::HandedOff { skipped } => pool.returned(t, placed).waiters
                == pool.waiters.skip(skipped + 1),
            _ => pool.returned(t, placed).waiters == pool.waiters.skip(
                pool.waiters.len() as int,
            ),
        },
{
    assert(pool.waiters.skip(pool.waiters.len() as int) =~= Seq::empty());
}

/// When nobody waits, a returned connection ends where there is room for
/// it: among the idle ones below the bound, dropped at the bound.
pub proof fn unclaimed_without_waiters<T>(pool: InnerView<T>, placed: Placement)
    requires
        pool.waiters.len() == 0,
        pool.admits(placed),
    ensures
        placed == pool.unclaimed(),
{
}

/// The bound on idle connections holds however many come back: of the
/// connections returned while nobody takes one, as many become idle as the
/// bound leaves room for, in the order they came, and every other one is
/// dropped.
pub proof fn returns_fill_to_the_bound<T>(pool: InnerView<T>, conns: Seq<T>)
    requires
        pool.wf(),
    ensures
        pool.returned_all(conns).wf(),
        pool.returned_all(conns).max_idle == pool.max_idle,
        pool.idle.len() + conns.len() <= pool.max_idle ==> {
            &&& pool.returned_all(conns).idle == pool.idle + conns
            &&& pool.dropped_of(conns) == 0
        },
        pool.idle.len() + conns.len() > pool.max_idle ==> {
            &&& pool.returned_all(conns).idle.len() == pool.max_idle
            &&& pool.dropped_of(conns) == pool.idle.len() + conns.len() - pool.max_idle
        },
    decreases conns.len(),
{
    if conns.len() > 0 {
        let earlier = conns.drop_last();
        returns_fill_to_the_bound(pool, earlier);
        if pool.idle.len() + conns.len() <= pool.max_idle {
            assert(pool.returned_all(conns).idle =~= pool.idle + conns);
        }
    } else {
        assert(pool.idle + conns =~= pool.idle);
    }
}

/// The idle connections and the queue of waiters.
#[verifier::reject_recursive_types(T)]
pub struct Inner<T> {
    idle: Vec<T>,
    waiters: VecDeque<Sender<T>>,
    max_idle: usize,
}

impl<T> View for Inner<T> {
    type V = InnerView<T>;

    closed spec fn view(&self) -> InnerView<T> {
        InnerView { idle: self.idle@, waiters: self.waiters@, max_idle: self.max_idle as nat }
    }
}

impl<T> Inner<T> {
    /// An empty pool that keeps at most `max_idle` idle connections.
    pub fn new(max_idle: usize) -> (inner: Self)
        ensures
            inner@.wf(),
            inner@.idle.len() == 0,
            inner@.waiters.len() == 0,
            inner@.max_idle == max_idle,
    {
        Inner { idle: Vec::new(), waiters: VecDeque::new(), max_idle }
    }

    /// The number of idle connections.
    pub fn idle_len(&self) -> (n: usize)
        ensures
            n == self@.idle.len(),
    {
        self.idle.len()
    }

    /// The number of queued waiters.
    pub fn waiting(&self) -> (n: usize)
        ensures
            n == self@.waiters.len(),
    {
        self.waiters.len()
    }

    /// The bound on the number of idle connections.
    pub fn max_idle(&self) -> (n: usize)
        ensures
            n == self@.max_idle,
    {
        self.max_idle
    }

    /// Takes a returned connection.
    ///
    /// The waiters are asked oldest first; one whose caller is gone is
    /// passed over and leaves the queue. The first that accepts gets the
    /// connection. When none does, the connection becomes idle if the bound
    /// allows and is dropped if not.
    pub fn put(&mut self, t: T) -> (placed: Placement)
        ensures
            old(self)@.wf() ==> final(self)@.wf(),
            old(self)@.admits(placed),
            final(self)@ == old(self)@.returned(t, placed),
    {
        let ghost before = self@;
        let mut value = t;
        let queued = self.waiters.len();
        let mut skipped: usize = 0;
        assert(before.waiters.skip(0) =~= before.waiters);
        loop
            invariant
                value == t,
                before == old(self)@,
                skipped <= queued == before.waiters.len(),
                self@.idle == before.idle,
                self@.max_idle == before.max_idle,
                self@.waiters == before.waiters.skip(skipped as int),
            ensures
                self@.waiters.len() == 0,
            decreases before.waiters.len() - skipped,
        {
            let waiter = match self.waiters.pop_front() {
                Some(waiter) => waiter,
                None => {
                    break ;
                },
            };
            assert(self@.waiters =~= before.waiters.skip(skipped + 1));
            if !is_closed(&waiter) {
                match send(waiter, value) {
                    Ok(()) => {
                        return Placement::HandedOff { skipped };
                    },
                    Err(back) => {
                        value = back;
                    },
                }
            }
            skipped += 1;
        }
        assert(self@.waiters =~= Seq::empty());
        if self.idle.len() < self.max_idle {
            self.idle.push(value);
            Placement::Idle
        } else {
            Placement::Dropped
        }
    }

    /// Leases the idle connection that came back last, or queues the caller
    /// when nothing is idle.
    pub fn checkout(&mut self) -> (got: Checkout<T>)
        ensures
            old(self)@.wf() ==> final(self)@.wf(),
            final(self)@.max_idle == old(self)@.max_idle,
            old(self)@.idle.len() > 0 ==> {
                &&& got == Checkout::Ready(old(self)@.idle.last())
                &&& final(self)@.idle == old(self)@.idle.drop_last()
                &&& final(self)@.waiters == old(self)@.waiters
            },
            old(self)@.idle.len() == 0 ==> {
                &&& got is Wait
                &&& final(self)@.idle == old(self)@.idle
                &&& final(self)@.waiters.len() == old(self)@.waiters.len() + 1
                &&& final(self)@.waiters.drop_last() == old(self)@.waiters
            },
    {
        if let Some(idle) = self.idle.pop() {
            return Checkout::Ready(idle);
        }
        let (tx, rx) = channel();
        self.waiters.push_back(tx);
        assert(self@.waiters.drop_last() =~= old(self)@.waiters);
        Checkout::Wait(rx)
    }
}

} // verus!
