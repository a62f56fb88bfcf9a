//! The control handle: shared access to the socket registry, and the wake
//! signal that makes the driver loop re-evaluate at once.
use vstd::prelude::*;
use std::sync::Arc;
use tokio::sync::Notify;

verus! {

/// tokio's broadcast notification primitive, carried as an opaque value.
#[verifier::external_type_specification]
#[verifier::external_body]
pub struct ExNotify(tokio::sync::Notify);

/// Relies on tokio's `Notify::new`: a signal with no waiters and no stored permit.
pub assume_specification[ tokio::sync::Notify::new ]() -> tokio::sync::Notify;

/// Relies on tokio's `Notify::notify_waiters`: wakes the tasks waiting now,
/// stores nothing for later ones, and does not panic.
pub assume_specification[ tokio::sync::Notify::notify_waiters ](n: &tokio::sync::Notify);

/// Handle shared by the tasks that manage sockets and by whoever wants the
/// driver loop to re-poll early.
pub struct Reactor<A> {
    socket_alloctor: Arc<A>,
    notify: Arc<Notify>,
}

impl<A> Reactor<A> {
    /// The socket registry that the handle shares.
    pub closed spec fn registry(&self) -> A {
        *self.socket_alloctor
    }

    /// The wake signal that the handle triggers.
    pub closed spec fn wake_spec(&self) -> Notify {
        *self.notify
    }

    /// A handle over `socket_alloctor` with a fresh wake signal. The driver
    /// loop is started separately, over the same registry and signal.
    pub fn new(socket_alloctor: A) -> (r: Reactor<A>)
        ensures
            r.registry() == socket_alloctor,
    {
        Reactor { socket_alloctor: Arc::new(socket_alloctor), notify: Arc::new(Notify::new()) }
    }

    /// The shared socket registry. Callers lock it, change sockets and
    /// release it without awaiting in between.
    pub fn socket_alloctor(&self) -> (r: &Arc<A>)
        ensures
            **r == self.registry(),
    {
        &self.socket_alloctor
    }

    /// The wake signal, for the driver loop to wait on.
    pub fn wake_signal(&self) -> (r: &Arc<Notify>)
        ensures
            **r == self.wake_spec(),
    {
        &self.notify
    }

    /// Wakes the driver loop if it is waiting; a wake with no waiter is not
    /// remembered.
    pub fn notify(&self) {
        self.notify.notify_waiters();
    }
}

} // verus!
