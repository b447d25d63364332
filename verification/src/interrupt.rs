//! The state a runtime shares with its interrupt handles.
//!
//! The lock around the runtime's address is the lifetime guard for a
//! cross-thread termination request. A request is made while the lock is held,
//! and closing the state takes the same lock, so once it is closed no request is
//! in flight and none will be made.

use vstd::prelude::*;
use vstd::rwlock::{RwLock, RwLockPredicate, WriteHandle};

verus! {

/// The right to close a state. It is made with the state and spent by closing
/// it; it stays with the runtime and cannot be copied, so that whoever only
/// borrows the runtime, and every handle, leaves the state open.
pub struct ClosingRight {
    raw: usize,
}

impl ClosingRight {
    /// The address of the runtime the right belongs to.
    pub closed spec fn raw(self) -> usize {
        self.raw
    }
}

/// Spends the right for what the lock holds once an address is withdrawn: zero,
/// which names no runtime.
fn withdraw(_right: ClosingRight) -> (raw_address: usize)
    ensures
        raw_address == 0,
{
    0
}

/// The right to close a state at this address was spent. Outside this module
/// that is known from `InterruptState::close` alone. An address that a later
/// runtime is given again keeps it.
pub closed spec fn withdrawn(raw: usize) -> bool {
    exists|right: ClosingRight|
        right.raw() == raw && #[trigger] call_ensures(withdraw, (right,), 0)
}

/// The shared address is the owning runtime's, or zero once it is withdrawn.
pub struct OwnedBy {
    owner: usize,
}

impl RwLockPredicate<usize> for OwnedBy {
    closed spec fn inv(self, raw_address: usize) -> bool {
        if raw_address == 0 {
            withdrawn(self.owner)
        } else {
            raw_address == self.owner
        }
    }
}

/// Makes the request that an address allows: zero names no runtime, and any
/// other address is asked to terminate.
pub fn request_termination<F: FnOnce(usize)>(raw_address: usize, request: F) -> (sent: bool)
    requires
        raw_address != 0 ==> call_requires(request, (raw_address,)),
    ensures
        sent == (raw_address != 0),
        sent ==> call_ensures(request, (raw_address,), ()),
{
    if raw_address == 0 {
        return false;
    }
    request(raw_address);
    true
}

/// Makes the request that an address allows while the lock is held: the guard
/// is lent for as long as the request lasts.
fn request_under_lock<F: FnOnce(usize)>(
    _guard: &WriteHandle<'_, usize, OwnedBy>,
    raw_address: usize,
    request: F,
) -> (sent: bool)
    requires
        raw_address != 0 ==> call_requires(request, (raw_address,)),
    ensures
        sent == (raw_address != 0),
        sent ==> call_ensures(request, (raw_address,), ()),
{
    request_termination(raw_address, request)
}

/// The shared state.
pub struct InterruptState {
    raw_address: RwLock<usize, OwnedBy>,
}

impl InterruptState {
    /// The address of the runtime the state was made for.
    pub closed spec fn owner(self) -> usize {
        self.raw_address.pred().owner
    }

    /// The lock around the shared address.
    pub closed spec fn lock(self) -> RwLock<usize, OwnedBy> {
        self.raw_address
    }

    /// The lock was made holding the owner's address, so that the state starts
    /// out open.
    pub closed spec fn opened(self) -> bool {
        call_ensures(
            RwLock::<usize, OwnedBy>::new,
            (self.owner(), Ghost(OwnedBy { owner: self.owner() })),
            self.raw_address,
        )
    }

    /// The state of a runtime at `raw`, and the right to close it.
    pub(crate) fn new(raw: usize) -> (made: (InterruptState, ClosingRight))
        requires
            raw != 0,
        ensures
            made.0.owner() == raw,
            made.0.opened(),
            made.1.raw() == raw,
    {
        let raw_address = RwLock::new(raw, Ghost(OwnedBy { owner: raw }));
        (InterruptState { raw_address }, ClosingRight { raw })
    }

    /// `sent` is the answer to what was found under the lock: an address, to
    /// which the request was made while the lock was still held, or zero. What
    /// was found was put back, so that a request leaves the state as it was.
    pub closed spec fn answered<F: FnOnce(usize)>(self, request: F, sent: bool) -> bool {
        exists|raw_address: usize, guard: WriteHandle<'_, usize, OwnedBy>|
            {
                &&& #[trigger] call_ensures(
                    RwLock::<usize, OwnedBy>::acquire_write,
                    (&self.raw_address,),
                    (raw_address, guard),
                )
                &&& call_ensures(
                    request_under_lock::<F>,
                    (&guard, raw_address, request),
                    sent,
                )
                &&& sent == (raw_address != 0)
                &&& call_ensures(
                    WriteHandle::<usize, OwnedBy>::release_write,
                    (guard, raw_address),
                    (),
                )
            }
    }

    /// Requests termination of the owner, unless the state was closed.
    pub(crate) fn request<F: FnOnce(usize)>(&self, request: F) -> (sent: bool)
        requires
            call_requires(request, (self.owner(),)),
        ensures
            self.answered(request, sent),
            sent ==> call_ensures(request, (self.owner(),), ()),
            !sent ==> withdrawn(self.owner()),
    {
        let (raw_address, guard) = self.raw_address.acquire_write();
        let sent = request_under_lock(&guard, raw_address, request);
        guard.release_write(raw_address);
        sent
    }

    /// The lock was taken and given back holding zero.
    pub closed spec fn cleared(self) -> bool {
        exists|raw_address: usize, guard: WriteHandle<'_, usize, OwnedBy>|
            #[trigger] call_ensures(
                RwLock::<usize, OwnedBy>::acquire_write,
                (&self.raw_address,),
                (raw_address, guard),
            ) && #[trigger] call_ensures(
                WriteHandle::<usize, OwnedBy>::release_write,
                (guard, 0usize),
                (),
            )
    }

    /// Clears the shared address, after waiting for a request in flight. What
    /// the lock holds at a later moment is no part of the state's value; that
    /// this call was made is what a contract can say of it.
    pub(crate) fn close(&self, right: ClosingRight)
        requires
            right.raw() == self.owner(),
        ensures
            self.cleared(),
            withdrawn(self.owner()),
    {
        let (_, guard) = self.raw_address.acquire_write();
        guard.release_write(withdraw(right));
    }
}

/// Closing gives back zero, whatever address the lock held: a cleared state's
/// own lock was taken, and the guard that came with it was released holding
/// zero.
pub proof fn closing_gives_back_zero(state: &InterruptState)
    requires
        state.cleared(),
    ensures
        exists|raw_address: usize, guard: WriteHandle<'_, usize, OwnedBy>|
            #[trigger] call_ensures(
                RwLock::<usize, OwnedBy>::acquire_write,
                (&state.lock(),),
                (raw_address, guard),
            ) && #[trigger] call_ensures(
                WriteHandle::<usize, OwnedBy>::release_write,
                (guard, 0usize),
                (),
            ),
{
    assert(state.lock() == state.raw_address);
}

/// A state is made open: its own lock was made holding the owner's address.
pub proof fn states_are_made_with_their_owner(state: &InterruptState)
    requires
        state.opened(),
    ensures
        exists|pred: OwnedBy| #[trigger]
            call_ensures(
                RwLock::<usize, OwnedBy>::new,
                (state.owner(), Ghost(pred)),
                state.lock(),
            ),
{
    assert(state.lock() == state.raw_address);
}

/// A request follows what the lock held: it was sent exactly when that was no
/// zero, it was made to that very address, and the guard was released holding
/// the address that it came with.
pub proof fn requests_follow_the_lock<F: FnOnce(usize)>(
    state: &InterruptState,
    request: F,
    sent: bool,
)
    requires
        state.answered(request, sent),
    ensures
        exists|raw_address: usize, guard: WriteHandle<'_, usize, OwnedBy>|
            {
                &&& #[trigger] call_ensures(
                    RwLock::<usize, OwnedBy>::acquire_write,
                    (&state.lock(),),
                    (raw_address, guard),
                )
                &&& raw_address == 0 <==> !sent
                &&& raw_address != 0 ==> call_ensures(request, (raw_address,), ())
                &&& call_ensures(
                    WriteHandle::<usize, OwnedBy>::release_write,
                    (guard, raw_address),
                    (),
                )
            },
{
    assert(state.lock() == state.raw_address);
}

/// A request is made under the lock: the guard that came with the address is
/// lent for as long as the request lasts.
proof fn requests_are_made_under_the_lock<F: FnOnce(usize)>(
    state: &InterruptState,
    request: F,
    sent: bool,
)
    requires
        state.answered(request, sent),
    ensures
        exists|raw_address: usize, guard: WriteHandle<'_, usize, OwnedBy>|
            #[trigger] call_ensures(
                RwLock::<usize, OwnedBy>::acquire_write,
                (&state.lock(),),
                (raw_address, guard),
            ) && call_ensures(request_under_lock::<F>, (&guard, raw_address, request), sent),
{
    assert(state.lock() == state.raw_address);
}

/// An address is withdrawn only by spending a right that belongs to it.
proof fn withdrawing_spends_the_right(raw: usize)
    requires
        withdrawn(raw),
    ensures
        exists|right: ClosingRight|
            right.raw == raw && #[trigger] call_ensures(withdraw, (right,), 0),
{
}

/// The lock of a state holds the owner's address, or zero once that address is
/// withdrawn, and nothing else.
pub proof fn locks_hold_the_owner_or_zero(state: &InterruptState, raw_address: usize)
    requires
        state.lock().inv(raw_address),
    ensures
        raw_address == state.owner() || (raw_address == 0 && withdrawn(state.owner())),
{
}

} // verus!
