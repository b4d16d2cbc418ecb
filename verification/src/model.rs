//! The registry's data model: the device record, the error taxonomy, the
//! event record, and a mathematical view of the whole registry together with
//! the transition functions that the executable operations are specified
//! against.

use vstd::prelude::*;

verus! {

/// An opaque principal identifier supplied by the hosting execution
/// environment, modeled as a machine word.
pub type AccountId = u64;

/// A device identifier. In this design the registering caller's own
/// principal identifier is the device identifier.
pub type DevId = AccountId;

/// The validation failures an operation can surface to its caller.
#[derive(Clone, Copy, Debug, PartialEq, Eq, Structural)]
pub enum Error {
    /// An operation referenced an identifier with no device record.
    DevDoesNotExist,
    /// A registration named an identifier already present.
    DevExists,
    /// A caller attempted a state mutation on a device they do not own.
    NotDevOwner,
}

/// The claim status of a device: unclaimed, or claimed by one principal.
#[derive(Clone, Copy, Debug, PartialEq, Eq, Structural)]
pub enum Owner {
    /// No principal owns the device; no one may mutate its state.
    Unclaimed,
    /// The named principal owns the device and alone may mutate its state.
    ClaimedBy(AccountId),
}

/// One enrolled device: a boolean state and its claim status.
#[derive(Clone, Copy, Debug, PartialEq, Eq, Structural)]
pub struct Dev {
    /// The device's boolean state, mutable only by the recorded owner.
    pub state: bool,
    /// The principal that owns the device, if any.
    pub owner: Owner,
}

/// The event recorded on every successful state change, in call order; it is
/// the sole way external observers learn that a device's state changed.
#[derive(Clone, Copy, Debug, PartialEq, Eq, Structural)]
pub struct StateChange {
    /// The device whose state changed.
    pub device: DevId,
    /// The value the state was set to.
    pub new_state: bool,
}

/// The mathematical view of a registry: the device table, the ownership
/// index, the per-owner counters, the administrative principal captured at
/// construction, and the events emitted so far.
#[verifier::ext_equal]
pub struct RegistryView {
    /// The device table, keyed by device identifier.
    pub devs: Map<DevId, Dev>,
    /// The ownership index: `(owner, ordinal)` to device identifier, with
    /// ordinals assigned per owner in registration order.
    pub index: Map<(AccountId, nat), DevId>,
    /// The per-owner device counters.
    pub counts: Map<AccountId, nat>,
    /// The principal that constructed the registry.
    pub ceo: AccountId,
    /// The events emitted so far, in call order.
    pub events: Seq<StateChange>,
}

/// The number of devices attributed to `p`; an absent counter reads as zero.
pub open spec fn count_of(m: RegistryView, p: AccountId) -> nat {
    if m.counts.dom().contains(p) {
        m.counts[p]
    } else {
        0
    }
}

/// Whether a device record exists under `dev_id`.
pub open spec fn has_device(m: RegistryView, dev_id: DevId) -> bool {
    m.devs.dom().contains(dev_id)
}

/// The registry's internal invariant.
///
/// For every owner the index ordinals are contiguous from `0` to `count - 1`
/// with no gaps, and every indexed device exists and is claimed by the owner
/// under whose key it is indexed.
pub open spec fn inv(m: RegistryView) -> bool {
    &&& forall|p: AccountId, i: nat|
        #[trigger] m.index.dom().contains((p, i)) <==> i < count_of(m, p)
    &&& forall|p: AccountId, i: nat|
        #[trigger] m.index.dom().contains((p, i)) ==> has_device(m, m.index[(p, i)])
            && m.devs[m.index[(p, i)]].owner == Owner::ClaimedBy(p)
}

/// The view of a freshly constructed registry: empty tables, no events, and
/// `ceo` set to the constructing principal.
pub open spec fn initial(ceo: AccountId) -> RegistryView {
    RegistryView {
        devs: Map::empty(),
        index: Map::empty(),
        counts: Map::empty(),
        ceo: ceo,
        events: Seq::empty(),
    }
}

/// Whether a registration under `dev_id` succeeds: the identifier must be
/// free.
pub open spec fn register_ok(m: RegistryView, dev_id: DevId) -> bool {
    !has_device(m, dev_id)
}

/// The outcome a registration under `dev_id` reports.
pub open spec fn register_result(m: RegistryView, dev_id: DevId) -> Result<(), Error> {
    if register_ok(m, dev_id) {
        Ok(())
    } else {
        Err(Error::DevExists)
    }
}

/// The registry after a successful registration of `dev_id` with owner
/// `owner`: a new device with state `false`, an index entry at the owner's
/// next ordinal, and the owner's counter incremented — as one atomic unit.
pub open spec fn register_post(m: RegistryView, dev_id: DevId, owner: AccountId) -> RegistryView {
    RegistryView {
        devs: m.devs.insert(dev_id, Dev { state: false, owner: Owner::ClaimedBy(owner) }),
        index: m.index.insert((owner, count_of(m, owner)), dev_id),
        counts: m.counts.insert(owner, count_of(m, owner) + 1),
        ceo: m.ceo,
        events: m.events,
    }
}

/// The registry after a registration attempt of `dev_id` with owner `owner`:
/// changed on success, untouched on failure.
pub open spec fn register_step(m: RegistryView, dev_id: DevId, owner: AccountId) -> RegistryView {
    if register_ok(m, dev_id) {
        register_post(m, dev_id, owner)
    } else {
        m
    }
}

/// Whether `caller` may change the state of `dev_id`: the device must exist
/// and be claimed by `caller`. An unclaimed device is mutable by no one.
pub open spec fn change_ok(m: RegistryView, caller: AccountId, dev_id: DevId) -> bool {
    &&& has_device(m, dev_id)
    &&& m.devs[dev_id].owner == Owner::ClaimedBy(caller)
}

/// The outcome a state change by `caller` on `dev_id` reports.
pub open spec fn change_result(m: RegistryView, caller: AccountId, dev_id: DevId) -> Result<
    (),
    Error,
> {
    if !has_device(m, dev_id) {
        Err(Error::DevDoesNotExist)
    } else if m.devs[dev_id].owner != Owner::ClaimedBy(caller) {
        Err(Error::NotDevOwner)
    } else {
        Ok(())
    }
}

/// The event a successful state change of `dev_id` to `new_state` emits.
pub open spec fn event_of(dev_id: DevId, new_state: bool) -> StateChange {
    StateChange { device: dev_id, new_state: new_state }
}

/// The registry after a successful state change of `dev_id` to `new_state`:
/// the device's state is overwritten (its owner kept) and exactly one event
/// is appended. Setting the same value twice succeeds and still emits.
pub open spec fn change_post(m: RegistryView, dev_id: DevId, new_state: bool) -> RegistryView {
    RegistryView {
        devs: m.devs.insert(dev_id, Dev { state: new_state, owner: m.devs[dev_id].owner }),
        index: m.index,
        counts: m.counts,
        ceo: m.ceo,
        events: m.events.push(event_of(dev_id, new_state)),
    }
}

/// The registry after a state-change attempt: changed on success, untouched
/// on failure.
pub open spec fn change_step(
    m: RegistryView,
    caller: AccountId,
    dev_id: DevId,
    new_state: bool,
) -> RegistryView {
    if change_ok(m, caller, dev_id) {
        change_post(m, dev_id, new_state)
    } else {
        m
    }
}

/// The outcome a state read of `dev_id` reports: the recorded state, or a
/// rejection when no device record exists.
pub open spec fn get_result(m: RegistryView, dev_id: DevId) -> Result<bool, Error> {
    if has_device(m, dev_id) {
        Ok(m.devs[dev_id].state)
    } else {
        Err(Error::DevDoesNotExist)
    }
}

/// A successful registration preserves the invariant: the fresh index entry
/// sits at the owner's next ordinal, and the new device is claimed by the
/// named owner.
pub proof fn lemma_register_preserves_inv(m: RegistryView, dev_id: DevId, owner: AccountId)
    requires
        inv(m),
        register_ok(m, dev_id),
    ensures
        inv(register_post(m, dev_id, owner)),
{
    let post = register_post(m, dev_id, owner);
    let c = count_of(m, owner);
    assert forall|p: AccountId, i: nat|
        #[trigger] post.index.dom().contains((p, i)) <==> i < count_of(post, p) by {
        assert(m.index.dom().contains((p, i)) <==> i < count_of(m, p));
    }
    assert forall|p: AccountId, i: nat| #[trigger] post.index.dom().contains((p, i)) implies
        has_device(post, post.index[(p, i)]) && post.devs[post.index[(p, i)]].owner
        == Owner::ClaimedBy(p) by {
        if (p, i) != (owner, c) {
            assert(m.index.dom().contains((p, i)));
            assert(m.index[(p, i)] != dev_id);
        }
    }
}

/// A successful state change preserves the invariant: the index and the
/// counters are untouched, and the device keeps its owner.
pub proof fn lemma_change_preserves_inv(
    m: RegistryView,
    caller: AccountId,
    dev_id: DevId,
    new_state: bool,
)
    requires
        inv(m),
    ensures
        inv(change_step(m, caller, dev_id, new_state)),
{
    if change_ok(m, caller, dev_id) {
        let post = change_post(m, dev_id, new_state);
        assert forall|p: AccountId, i: nat| #[trigger] post.index.dom().contains((p, i)) implies
            has_device(post, post.index[(p, i)]) && post.devs[post.index[(p, i)]].owner
            == Owner::ClaimedBy(p) by {
            assert(m.index.dom().contains((p, i)));
        }
    }
}

} // verus!
