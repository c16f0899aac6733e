//! The dispatch component: a registry shared behind a reader-writer lock, and
//! the path from a process name to a finished response envelope. Lookups
//! proceed concurrently; a registration excludes readers and other writers
//! for the duration of the change.

use vstd::prelude::*;
use vstd::rwlock::{RwLock, RwLockPredicate};
use core::marker::PhantomData;
use crate::clock::{elapsed_cost, monotonic_now, unix_now_secs};
use crate::envelope::Envelope;
use crate::registry::{ProcessUnit, Registry};

verus! {

/// The lock invariant: whatever registry sits in the lock keeps its keys
/// unique, so every reader may resolve against it.
pub struct RegistryWf<U> {
    marker: PhantomData<U>,
}

impl<U> RwLockPredicate<Registry<U>> for RegistryWf<U> {
    open spec fn inv(self, v: Registry<U>) -> bool {
        v.wf()
    }
}

/// The dispatch server: the one piece of state shared across concurrent
/// request handlers, a registry behind a reader-writer lock.
pub struct Server<U: ProcessUnit> {
    processes: RwLock<Registry<U>, RegistryWf<U>>,
}

impl<U: ProcessUnit> Server<U> {
    /// A server with an empty registry: every dispatch yields the not-found
    /// envelope until a unit is registered.
    pub fn new() -> Server<U> {
        Server {
            processes: RwLock::new(
                Registry::new(),
                Ghost(RegistryWf { marker: PhantomData }),
            ),
        }
    }

    /// Registers `unit` under `name`, silently replacing an earlier unit with
    /// the same name. Takes the write side of the lock: concurrent readers
    /// wait and never observe a half-inserted entry.
    pub fn add_process(&self, name: &str, unit: U) {
        let (mut registry, handle) = self.processes.acquire_write();
        registry.register(name, unit);
        handle.release_write(registry);
    }

    /// Serves one request: resolves `name`, runs the unit at most once while
    /// holding the read side of the lock, and builds the envelope. An unknown
    /// name yields the not-found envelope without running anything; a unit's
    /// failure branch is rendered like its success branch, with the fields
    /// the unit supplied. Either way the envelope is freshly computed
    /// (`cache` is `false`) and carries the hash of its canonical bytes.
    pub fn dispatch(&self, name: &str) -> (e: Envelope)
        ensures
            e.cache == false,
            e.cost.wf(),
            e.hash_ok(),
    {
        let read_handle = self.processes.acquire_read();
        let ran = {
            let registry = read_handle.borrow();
            match registry.resolve(name) {
                Some(unit) => {
                    let start = monotonic_now();
                    let outcome = unit.invoke();
                    let cost = elapsed_cost(&start);
                    Some((outcome, cost))
                },
                None => None,
            }
        };
        read_handle.release_read();
        let timestamp = unix_now_secs();
        match ran {
            Some((Ok(outcome), cost)) => Envelope::from_outcome(outcome, cost, timestamp),
            Some((Err(outcome), cost)) => Envelope::from_outcome(outcome, cost, timestamp),
            None => Envelope::not_found(timestamp),
        }
    }
}

} // verus!
