//! The registry's laws, stated over the model's transition functions and
//! proved once and for all: whatever sequence of operations the hosting
//! environment applies, these hold of every reachable registry.

use vstd::prelude::*;

use crate::model::AccountId;
use crate::model::DevId;
use crate::model::Error;
use crate::model::Owner;
use crate::model::RegistryView;
use crate::model::change_ok;
use crate::model::change_result;
use crate::model::change_step;
use crate::model::count_of;
use crate::model::event_of;
use crate::model::get_result;
use crate::model::has_device;
use crate::model::initial;
use crate::model::register_ok;
use crate::model::register_result;
use crate::model::register_step;

verus! {

/// One operation as the hosting environment submits it: an authenticated
/// caller principal together with the operation's own arguments. Reads do
/// not mutate, so only the two mutating operations appear.
pub enum Op {
    /// The caller registers its own identifier as a device claimed by
    /// `owner`.
    Register { caller: AccountId, owner: AccountId },
    /// The caller asks to overwrite the state of `dev_id` with `new_state`.
    Change { caller: AccountId, dev_id: DevId, new_state: bool },
}

/// The registry after one submitted operation: changed on success,
/// untouched on failure.
pub open spec fn apply(m: RegistryView, op: Op) -> RegistryView {
    match op {
        Op::Register { caller, owner } => register_step(m, caller, owner),
        Op::Change { caller, dev_id, new_state } => change_step(m, caller, dev_id, new_state),
    }
}

/// The registry after a sequence of submitted operations, applied in order.
pub open spec fn apply_seq(m: RegistryView, ops: Seq<Op>) -> RegistryView
    decreases ops.len(),
{
    if ops.len() == 0 {
        m
    } else {
        apply(apply_seq(m, ops.drop_last()), ops.last())
    }
}

/// The number of registrations in `ops` that name `p` as owner and succeed
/// at the point they are applied, starting from `m`.
pub open spec fn successful_registrations_for(m: RegistryView, ops: Seq<Op>, p: AccountId) -> nat
    decreases ops.len(),
{
    if ops.len() == 0 {
        0
    } else {
        successful_registrations_for(m, ops.drop_last(), p) + match ops.last() {
            Op::Register { caller, owner } => if owner == p && register_ok(
                apply_seq(m, ops.drop_last()),
                caller,
            ) {
                1nat
            } else {
                0nat
            },
            Op::Change { .. } => 0nat,
        }
    }
}

/// A device record, once present, is never removed: no operation shrinks the
/// device table.
pub proof fn lemma_device_persists(m: RegistryView, op: Op, d: DevId)
    requires
        has_device(m, d),
    ensures
        has_device(apply(m, op), d),
{
}

/// Registration uniqueness: once a device exists under `d`, every later
/// registration naming `d` — whatever operations come in between — fails
/// with `Error::DevExists`.
pub proof fn lemma_registration_unique(m: RegistryView, ops: Seq<Op>, d: DevId)
    requires
        has_device(m, d),
    ensures
        has_device(apply_seq(m, ops), d),
        register_result(apply_seq(m, ops), d) == Err::<(), Error>(Error::DevExists),
    decreases ops.len(),
{
    if ops.len() > 0 {
        lemma_registration_unique(m, ops.drop_last(), d);
        lemma_device_persists(apply_seq(m, ops.drop_last()), ops.last(), d);
    }
}

/// Counter consistency, step form: applying a sequence of operations raises
/// an owner's counter by exactly the number of successful registrations in
/// the sequence that name that owner.
pub proof fn lemma_counter_tracks_registrations(m: RegistryView, ops: Seq<Op>, p: AccountId)
    ensures
        count_of(apply_seq(m, ops), p) == count_of(m, p) + successful_registrations_for(m, ops, p),
    decreases ops.len(),
{
    if ops.len() > 0 {
        lemma_counter_tracks_registrations(m, ops.drop_last(), p);
    }
}

/// Counter consistency: from construction on, an owner's counter always
/// equals the number of successful registrations that named that owner.
pub proof fn lemma_counter_consistency(ceo: AccountId, ops: Seq<Op>, p: AccountId)
    ensures
        count_of(apply_seq(initial(ceo), ops), p) == successful_registrations_for(
            initial(ceo),
            ops,
            p,
        ),
{
    lemma_counter_tracks_registrations(initial(ceo), ops, p);
}

/// Ownership gate: a state change on a device claimed by `p`, attempted by
/// any other principal `q`, fails with `Error::NotDevOwner` and leaves the
/// registry — the device's readable state included — untouched.
pub proof fn lemma_ownership_gate(
    m: RegistryView,
    p: AccountId,
    q: AccountId,
    d: DevId,
    s: bool,
)
    requires
        has_device(m, d),
        m.devs[d].owner == Owner::ClaimedBy(p),
        q != p,
    ensures
        change_result(m, q, d) == Err::<(), Error>(Error::NotDevOwner),
        change_step(m, q, d, s) == m,
        get_result(change_step(m, q, d, s), d) == get_result(m, d),
{
}

/// An unclaimed device is mutable by no one: a state change attempted by
/// any principal fails with `Error::NotDevOwner` and leaves the registry
/// untouched.
pub proof fn lemma_unclaimed_rejects(m: RegistryView, q: AccountId, d: DevId, s: bool)
    requires
        has_device(m, d),
        m.devs[d].owner == Owner::Unclaimed,
    ensures
        change_result(m, q, d) == Err::<(), Error>(Error::NotDevOwner),
        change_step(m, q, d, s) == m,
{
}

/// Read-after-write: after a successful state change of `d` to `s` by its
/// owner, a read of `d` returns `s`, and exactly one event — recording `d`
/// and `s` — was appended.
pub proof fn lemma_read_after_write(m: RegistryView, p: AccountId, d: DevId, s: bool)
    requires
        change_ok(m, p, d),
    ensures
        change_result(m, p, d) == Ok::<(), Error>(()),
        get_result(change_step(m, p, d, s), d) == Ok::<bool, Error>(s),
        change_step(m, p, d, s).events == m.events.push(event_of(d, s)),
{
}

/// Unknown-device rejection: a read or a state change naming an identifier
/// with no device record fails with `Error::DevDoesNotExist`, and the
/// attempted change leaves the registry untouched.
pub proof fn lemma_unknown_device_rejected(m: RegistryView, caller: AccountId, d: DevId, s: bool)
    requires
        !has_device(m, d),
    ensures
        get_result(m, d) == Err::<bool, Error>(Error::DevDoesNotExist),
        change_result(m, caller, d) == Err::<(), Error>(Error::DevDoesNotExist),
        change_step(m, caller, d, s) == m,
{
}

} // verus!
