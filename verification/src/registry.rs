//! The executable registry: the device table, the ownership index, the
//! per-owner counters, and the four operations, each specified against the
//! transition functions of the model.

use std::collections::HashMap;
use vstd::prelude::*;

use crate::model::AccountId;
use crate::model::Dev;
use crate::model::DevId;
use crate::model::Error;
use crate::model::Owner;
use crate::model::RegistryView;
use crate::model::StateChange;
use crate::model::change_result;
use crate::model::change_step;
use crate::model::count_of;
use crate::model::get_result;
use crate::model::initial;
use crate::model::inv;
use crate::model::register_ok;
use crate::model::register_post;
use crate::model::register_result;
use crate::model::register_step;

verus! {

broadcast use vstd::std_specs::hash::group_hash_axioms;

/// The ownership-index entries as a map, later entries winning; entries are
/// only ever appended under fresh keys, so no entry is ever overwritten.
pub closed spec fn index_view(s: Seq<((AccountId, u32), DevId)>) -> Map<(AccountId, nat), DevId>
    decreases s.len(),
{
    if s.len() == 0 {
        Map::empty()
    } else {
        index_view(s.drop_last()).insert((s.last().0.0, s.last().0.1 as nat), s.last().1)
    }
}

/// The per-owner counters widened to mathematical naturals.
pub closed spec fn counts_view(m: Map<AccountId, u32>) -> Map<AccountId, nat> {
    Map::new(|p: AccountId| m.dom().contains(p), |p: AccountId| m[p] as nat)
}

/// The device registry. It owns the device table, the ownership index and
/// the per-owner counters exclusively; all access goes through its
/// operations, and each operation either commits all of its effects or
/// commits nothing.
pub struct Smarthome {
    devs: HashMap<DevId, Dev>,
    /// The ownership index: `(owner, ordinal)` to the device registered
    /// under that slot, appended to in registration order.
    owner_to_dev: Vec<((AccountId, u32), DevId)>,
    owner_devs_count: HashMap<AccountId, u32>,
    ceo: AccountId,
    /// The events emitted so far, in call order, as the hosting environment
    /// observes them.
    events: Vec<StateChange>,
}

impl View for Smarthome {
    type V = RegistryView;

    closed spec fn view(&self) -> RegistryView {
        RegistryView {
            devs: self.devs@,
            index: index_view(self.owner_to_dev@),
            counts: counts_view(self.owner_devs_count@),
            ceo: self.ceo,
            events: self.events@,
        }
    }
}

impl Smarthome {
    /// The registry's well-formedness: its view satisfies the model
    /// invariant. Constructors establish it and every operation preserves
    /// it.
    pub open spec fn wf(&self) -> bool {
        inv(self@)
    }

    /// Constructor: an empty registry whose administrative principal is the
    /// invoking caller.
    pub fn new(caller: AccountId) -> (s: Self)
        ensures
            s.wf(),
            s@ == initial(caller),
    {
        let s = Self {
            ceo: caller,
            devs: HashMap::new(),
            owner_to_dev: Vec::new(),
            owner_devs_count: HashMap::new(),
            events: Vec::new(),
        };
        proof {
            assert(s@ =~~= initial(caller));
        }
        s
    }

    /// Registers the caller's own principal identifier as a new device
    /// claimed by `owner`, with initial state `false`.
    ///
    /// Fails with `Error::DevExists`, leaving the registry untouched, if and
    /// only if a device already exists under the caller's identifier. On
    /// success the device insert, the index append and the counter increment
    /// are applied as one atomic unit, and no event is emitted.
    pub fn add_new_device(&mut self, caller: AccountId, owner: AccountId) -> (r: Result<(), Error>)
        requires
            old(self).wf(),
            register_ok(old(self)@, caller) ==> count_of(old(self)@, owner) < u32::MAX,
        ensures
            final(self).wf(),
            r == register_result(old(self)@, caller),
            final(self)@ == register_step(old(self)@, caller, owner),
    {
        let dev_id = caller;
        let dev_opt = self.devs.get(&dev_id);
        if dev_opt.is_some() {
            return Err(Error::DevExists);
        }
        self.mint_device(dev_id, owner);

        Ok(())
    }

    /// Overwrites the state of `dev_id` with `new_state` and emits exactly
    /// one `StateChange` event.
    ///
    /// Fails with `Error::DevDoesNotExist` if no device exists under
    /// `dev_id`, and with `Error::NotDevOwner` if the device is unclaimed or
    /// claimed by a principal other than the caller; a failing call leaves
    /// the registry, its events included, untouched. Setting the same value
    /// twice succeeds and still emits.
    pub fn change_state(&mut self, caller: AccountId, dev_id: DevId, new_state: bool) -> (r: Result<
        (),
        Error,
    >)
        requires
            old(self).wf(),
        ensures
            final(self).wf(),
            r == change_result(old(self)@, caller, dev_id),
            final(self)@ == change_step(old(self)@, caller, dev_id, new_state),
    {
        let dev: Dev = match self.devs.get(&dev_id) {
            Some(d) => *d,
            None => {
                return Err(Error::DevDoesNotExist);
            },
        };
        if let Err(e) = Self::caller_is_owner(caller, &dev) {
            return Err(e);
        }
        self.devs.insert(dev_id, Dev { state: new_state, owner: dev.owner });
        self.events.push(StateChange { device: dev_id, new_state: new_state });
        proof {
            crate::model::lemma_change_preserves_inv(old(self)@, caller, dev_id, new_state);
            assert(self@ =~~= change_step(old(self)@, caller, dev_id, new_state));
        }
        Ok(())
    }

    /// Reads the state of `dev_id`; fails with `Error::DevDoesNotExist` if
    /// absent. No authorization check is applied to reads.
    pub fn get_state(&self, dev_id: DevId) -> (r: Result<bool, Error>)
        ensures
            r == get_result(self@, dev_id),
    {
        let dev = match self.devs.get(&dev_id) {
            Some(d) => d,
            None => {
                return Err(Error::DevDoesNotExist);
            },
        };
        Ok(dev.state)
    }

    /// Get the number of devices for an account; an owner that has never
    /// registered a device reads as zero. Always succeeds.
    pub fn device_count(&self, owner: AccountId) -> (r: Result<u32, Error>)
        ensures
            count_of(self@, owner) <= u32::MAX,
            r == Ok::<u32, Error>(count_of(self@, owner) as u32),
    {
        let cnt: u32 = match self.owner_devs_count.get(&owner) {
            Some(c) => *c,
            None => 0,
        };
        Ok(cnt)
    }

    /// The events emitted so far, in call order.
    pub fn events(&self) -> (r: &Vec<StateChange>)
        ensures
            r@ == self@.events,
    {
        &self.events
    }

    /// Applies the three registration mutations — device insert, index
    /// append, counter increment — as one atomic unit.
    fn mint_device(&mut self, dev_id: DevId, owner: AccountId)
        requires
            old(self).wf(),
            register_ok(old(self)@, dev_id),
            count_of(old(self)@, owner) < u32::MAX,
        ensures
            final(self).wf(),
            final(self)@ == register_post(old(self)@, dev_id, owner),
    {
        let dev = Dev { state: false, owner: Owner::ClaimedBy(owner) };
        self.devs.insert(dev_id, dev);

        let owner_dev_count: u32 = match self.owner_devs_count.get(&owner) {
            Some(c) => *c,
            None => 0,
        };

        proof {
            assert(owner_dev_count as nat == count_of(old(self)@, owner));
        }
        self.owner_to_dev.push(((owner, owner_dev_count), dev_id));
        self.owner_devs_count.insert(owner, owner_dev_count + 1);
        proof {
            let m0 = old(self)@;
            let s0 = old(self).owner_to_dev@;
            let x = ((owner, owner_dev_count), dev_id);
            assert(s0.push(x).drop_last() =~= s0);
            assert(s0.push(x).last() == x);
            assert(index_view(s0.push(x)) == index_view(s0).insert(
                (owner, owner_dev_count as nat),
                dev_id,
            ));
            assert(counts_view(
                old(self).owner_devs_count@.insert(owner, (owner_dev_count + 1) as u32),
            ) =~= counts_view(old(self).owner_devs_count@).insert(
                owner,
                (owner_dev_count + 1) as nat,
            ));
            crate::model::lemma_register_preserves_inv(m0, dev_id, owner);
            assert(self@ =~~= register_post(m0, dev_id, owner));
        }
    }

    /// Whether `caller` is the recorded owner of `dev`: `Ok` exactly when
    /// the device is claimed by `caller`; an unclaimed device rejects every
    /// caller.
    fn caller_is_owner(caller: AccountId, dev: &Dev) -> (r: Result<(), Error>)
        ensures
            r is Ok <==> dev.owner == Owner::ClaimedBy(caller),
            r is Err ==> r == Err::<(), Error>(Error::NotDevOwner),
    {
        match dev.owner {
            Owner::ClaimedBy(p) => if p == caller {
                Ok(())
            } else {
                Err(Error::NotDevOwner)
            },
            Owner::Unclaimed => Err(Error::NotDevOwner),
        }
    }
}

} // verus!
