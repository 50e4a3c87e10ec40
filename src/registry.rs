//! The process-wide table of live jobs: each job's progress hub and, while
//! its process may still be cancelled, its cancellation trigger.
use vstd::prelude::*;
use std::collections::HashMap;
use tokio::sync::{broadcast, oneshot};
use crate::event::ProgressEvent;
use crate::job::JobId;

verus! {

broadcast use vstd::std_specs::hash::group_hash_axioms;

#[verifier::external_type_specification]
#[verifier::external_body]
#[verifier::reject_recursive_types(T)]
pub struct ExHubSender<T>(broadcast::Sender<T>);

#[verifier::external_type_specification]
#[verifier::external_body]
#[verifier::reject_recursive_types(T)]
pub struct ExHubReceiver<T>(broadcast::Receiver<T>);

#[verifier::external_type_specification]
#[verifier::external_body]
#[verifier::reject_recursive_types(T)]
pub struct ExTriggerSender<T>(oneshot::Sender<T>);

#[verifier::external_type_specification]
#[verifier::external_body]
#[verifier::reject_recursive_types(T)]
pub struct ExTriggerReceiver<T>(oneshot::Receiver<T>);

#[verifier::external_type_specification]
#[verifier::external_body]
pub struct ExTriggerRecvError(oneshot::error::RecvError);

/// How many events a hub keeps for an observer that falls behind.
pub const HUB_CAPACITY: usize = 16;

/// Relies on `tokio::sync::broadcast::channel`: a new channel whose sender is
/// kept; it panics only for a capacity of 0 or above `usize::MAX / 2`.
#[verifier::external_body]
fn new_hub(capacity: usize) -> broadcast::Sender<ProgressEvent>
    requires
        0 < capacity <= usize::MAX / 2,
{
    broadcast::channel(capacity).0
}

/// Relies on `Clone` for `tokio::sync::broadcast::Sender`: another sender of the same channel.
#[verifier::external_body]
fn share_hub(hub: &broadcast::Sender<ProgressEvent>) -> broadcast::Sender<ProgressEvent> {
    hub.clone()
}

/// Relies on `tokio::sync::broadcast::Sender::subscribe`: a receiver of the
/// events sent after the call.
#[verifier::external_body]
fn subscribe_hub(hub: &broadcast::Sender<ProgressEvent>) -> broadcast::Receiver<ProgressEvent> {
    hub.subscribe()
}

/// Relies on `tokio::sync::oneshot::channel`: a new single-use channel.
#[verifier::external_body]
fn new_trigger() -> (oneshot::Sender<()>, oneshot::Receiver<()>) {
    oneshot::channel()
}

/// Relies on `tokio::sync::oneshot::Sender::send`, which consumes the sender:
/// the signal reaches the receiver unless it was dropped.
#[verifier::external_body]
fn fire_trigger(trigger: oneshot::Sender<()>) {
    let _ = trigger.send(());
}

/// What a cancellation request found.
#[derive(Clone, Copy, Debug, PartialEq, Eq, Structural)]
pub enum CancelOutcome {
    /// The job was cancellable; its trigger has fired.
    Accepted,
    /// No such job, or it can no longer be cancelled.
    NotFound,
}

/// The table of live jobs.
pub struct Registry {
    hubs: HashMap<u128, broadcast::Sender<ProgressEvent>>,
    cancels: HashMap<u128, oneshot::Sender<()>>,
}

/// Model of a [`Registry`]: the jobs with a hub, and those still cancellable.
pub struct RegistryView {
    pub hubs: Set<u128>,
    pub cancels: Set<u128>,
}

impl View for Registry {
    type V = RegistryView;

    closed spec fn view(&self) -> RegistryView {
        RegistryView { hubs: self.hubs@.dom(), cancels: self.cancels@.dom() }
    }
}

/// A job is cancellable only while it is registered.
pub open spec fn well_formed(r: RegistryView) -> bool {
    r.cancels.subset_of(r.hubs)
}

/// The table after job `id` was registered.
pub open spec fn after_register(r: RegistryView, id: u128) -> RegistryView {
    RegistryView { hubs: r.hubs.insert(id), cancels: r.cancels.insert(id) }
}

/// What a cancellation request for `id` finds.
pub open spec fn cancel_outcome(r: RegistryView, id: u128) -> CancelOutcome {
    if r.cancels.contains(id) {
        CancelOutcome::Accepted
    } else {
        CancelOutcome::NotFound
    }
}

/// The table once job `id` can no longer be cancelled: after its trigger
/// fired, or after its supervisor disarmed it.
pub open spec fn after_disarm(r: RegistryView, id: u128) -> RegistryView {
    RegistryView { cancels: r.cancels.remove(id), ..r }
}

/// The table after job `id` was removed.
pub open spec fn after_deregister(r: RegistryView, id: u128) -> RegistryView {
    RegistryView { hubs: r.hubs.remove(id), cancels: r.cancels.remove(id) }
}

/// A job's own handles: the sender it publishes on and the receiver its
/// cancellation arrives on.
pub struct JobHandles {
    pub hub: broadcast::Sender<ProgressEvent>,
    pub cancel: oneshot::Receiver<()>,
}

impl Registry {
    /// An empty table.
    pub fn new() -> (r: Registry)
        ensures
            r@.hubs.is_empty(),
            r@.cancels.is_empty(),
            well_formed(r@),
    {
        let r = Registry { hubs: HashMap::new(), cancels: HashMap::new() };
        assert(r@.hubs =~= Set::empty());
        assert(r@.cancels =~= Set::empty());
        r
    }

    /// Registers job `id` with a new hub and a new cancellation trigger, and
    /// hands the job its ends of both.
    pub fn register(&mut self, id: JobId) -> (r: JobHandles)
        ensures
            final(self)@ == after_register(old(self)@, id.value),
            well_formed(old(self)@) ==> well_formed(final(self)@),
    {
        let hub = new_hub(HUB_CAPACITY);
        let own = share_hub(&hub);
        let (trigger, cancel) = new_trigger();
        self.hubs.insert(id.value, hub);
        self.cancels.insert(id.value, trigger);
        assert(self@.hubs =~= old(self)@.hubs.insert(id.value));
        assert(self@.cancels =~= old(self)@.cancels.insert(id.value));
        JobHandles { hub: own, cancel }
    }

    /// A new observer of job `id`'s events, or `None` when no such job is registered.
    pub fn subscribe(&self, id: JobId) -> (r: Option<broadcast::Receiver<ProgressEvent>>)
        ensures
            r is Some <==> self@.hubs.contains(id.value),
    {
        match self.hubs.get(&id.value) {
            Some(hub) => Some(subscribe_hub(hub)),
            None => None,
        }
    }

    /// Fires job `id`'s cancellation trigger and removes it, if the job is
    /// still cancellable.
    pub fn cancel(&mut self, id: JobId) -> (r: CancelOutcome)
        ensures
            r == cancel_outcome(old(self)@, id.value),
            final(self)@ == after_disarm(old(self)@, id.value),
            well_formed(old(self)@) ==> well_formed(final(self)@),
    {
        let r = match self.cancels.remove(&id.value) {
            Some(trigger) => {
                fire_trigger(trigger);
                CancelOutcome::Accepted
            },
            None => CancelOutcome::NotFound,
        };
        assert(self@.cancels =~= old(self)@.cancels.remove(id.value));
        assert(self@.hubs =~= old(self)@.hubs);
        r
    }

    /// Makes job `id` no longer cancellable, without firing its trigger.
    pub fn disarm(&mut self, id: JobId)
        ensures
            final(self)@ == after_disarm(old(self)@, id.value),
            well_formed(old(self)@) ==> well_formed(final(self)@),
    {
        let _ = self.cancels.remove(&id.value);
        assert(self@.cancels =~= old(self)@.cancels.remove(id.value));
        assert(self@.hubs =~= old(self)@.hubs);
    }

    /// Removes job `id` from the table.
    pub fn deregister(&mut self, id: JobId)
        ensures
            final(self)@ == after_deregister(old(self)@, id.value),
            well_formed(old(self)@) ==> well_formed(final(self)@),
    {
        let _ = self.hubs.remove(&id.value);
        let _ = self.cancels.remove(&id.value);
        assert(self@.cancels =~= old(self)@.cancels.remove(id.value));
        assert(self@.hubs =~= old(self)@.hubs.remove(id.value));
    }
}

/// A second cancellation of a job finds nothing and changes nothing: the
/// trigger fires at most once.
pub proof fn lemma_cancel_twice(r: RegistryView, id: u128)
    ensures
        cancel_outcome(after_disarm(r, id), id) == CancelOutcome::NotFound,
        after_disarm(after_disarm(r, id), id) == after_disarm(r, id),
{
    assert(after_disarm(after_disarm(r, id), id).cancels =~= after_disarm(r, id).cancels);
}

/// Once a job's supervisor has disarmed it (on reaching its finishing
/// phase), a cancellation finds nothing and leaves the table as it is.
pub proof fn lemma_cancel_after_disarm(r: RegistryView, id: u128)
    ensures
        cancel_outcome(after_disarm(r, id), id) == CancelOutcome::NotFound,
        after_disarm(after_disarm(r, id), id) == after_disarm(r, id),
{
    lemma_cancel_twice(r, id);
}

/// Once a job is deregistered, an observer finds no hub for it and a
/// cancellation finds nothing.
pub proof fn lemma_gone_after_deregister(r: RegistryView, id: u128)
    requires
        well_formed(r),
    ensures
        !after_deregister(r, id).hubs.contains(id),
        cancel_outcome(after_deregister(r, id), id) == CancelOutcome::NotFound,
        well_formed(after_deregister(r, id)),
{
}

} // verus!
