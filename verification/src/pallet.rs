use vstd::prelude::*;

use std::collections::HashMap;

use crate::hashing::{blake2_128, encode_seed_payload, spec_random_dna};
use crate::system::{System, SystemModel};
use crate::types::{ensure_signed, DispatchError, Error, Event, Kitty, Origin};

verus! {

broadcast use vstd::std_specs::hash::group_hash_axioms;

/// The value of one DNA byte of a child: where a bit of `selector` is set the bit comes
/// from `dna1`, elsewhere from `dna2`.
pub open spec fn spec_combine_dna(dna1: u8, dna2: u8, selector: u8) -> u8 {
    (selector & dna1) | (!selector & dna2)
}

/// A child's DNA: each byte mixes the parents' bytes at that position under the
/// selector's byte there.
pub open spec fn spec_bred_dna(dna1: Seq<u8>, dna2: Seq<u8>, selector: Seq<u8>) -> Seq<u8> {
    Seq::new(dna1.len(), |i: int| spec_combine_dna(dna1[i], dna2[i], selector[i]))
}

/// The abstract storage of the pallet: the DNA of each kitty by index, the counter of
/// kitties, and the owner recorded for each index.
#[verifier::ext_equal]
pub struct KittiesModel {
    pub kitties: Map<u32, Seq<u8>>,
    pub kitties_count: u32,
    pub kitty_owners: Map<u32, u64>,
}

/// What a dispatched call returns, and the pallet's and the system's storage after it.
#[verifier::ext_equal]
pub struct Outcome<T> {
    pub result: Result<T, DispatchError>,
    pub kitties: KittiesModel,
    pub system: SystemModel,
}

impl KittiesModel {
    /// The storage at genesis: no kitty, the counter at zero, no owner.
    pub open spec fn genesis() -> KittiesModel {
        KittiesModel { kitties: Map::empty(), kitties_count: 0, kitty_owners: Map::empty() }
    }

    /// The index the next kitty gets, unless the counter has reached the largest index.
    pub open spec fn next_kitty_id(self) -> Result<u32, DispatchError> {
        if self.kitties_count == u32::MAX {
            Err(DispatchError::Module(Error::KittiesCountOverflow))
        } else {
            Ok(self.kitties_count)
        }
    }

    /// The storage after storing a kitty of DNA `dna` under `id` for `owner`: the
    /// counter becomes `id + 1`.
    pub open spec fn insert_kitty(self, owner: u64, id: u32, dna: Seq<u8>) -> KittiesModel
        recommends
            id < u32::MAX,
    {
        KittiesModel {
            kitties: self.kitties.insert(id, dna),
            kitties_count: (id + 1) as u32,
            kitty_owners: self.kitty_owners.insert(id, owner),
        }
    }

    /// Every stored kitty has an index below the counter.
    pub open spec fn ids_below_count(self) -> bool {
        forall|id: u32| #[trigger] self.kitties.contains_key(id) ==> id < self.kitties_count
    }

    /// The storage the calls keep: a kitty is stored at exactly the indices below the
    /// counter, and every stored kitty has an owner.
    pub open spec fn consistent(self) -> bool {
        &&& forall|id: u32| #[trigger] self.kitties.contains_key(id) <==> id < self.kitties_count
        &&& forall|id: u32| #[trigger] self.kitties.contains_key(id) ==> self.kitty_owners.contains_key(id)
    }

    /// `create` dispatched by `origin`, with `seed` the randomness source's seed.
    pub open spec fn create(self, sys: SystemModel, origin: Origin, seed: Seq<u8>) -> Outcome<()> {
        match origin {
            Origin::Signed(sender) => match self.next_kitty_id() {
                Ok(id) => Outcome {
                    result: Ok(()),
                    kitties: self.insert_kitty(
                        sender,
                        id,
                        spec_random_dna(seed, sender, sys.extrinsic_index),
                    ),
                    system: sys.deposit(Event::Created(sender, id)),
                },
                Err(e) => Outcome { result: Err(e), kitties: self, system: sys },
            },
            _ => Outcome { result: Err(DispatchError::BadOrigin), kitties: self, system: sys },
        }
    }

    /// `transfer` dispatched by `origin`: the owner entry of `id` is set to `to`, whether
    /// or not a kitty is stored under `id` and whoever owned it.
    pub open spec fn transfer(self, sys: SystemModel, origin: Origin, to: u64, id: u32) -> Outcome<()> {
        match origin {
            Origin::Signed(sender) => Outcome {
                result: Ok(()),
                kitties: KittiesModel { kitty_owners: self.kitty_owners.insert(id, to), ..self },
                system: sys.deposit(Event::Transferred(sender, to, id)),
            },
            _ => Outcome { result: Err(DispatchError::BadOrigin), kitties: self, system: sys },
        }
    }

    /// Breeding the kitties `id1` and `id2` for `sender`: the child gets the next index
    /// and DNA mixed from its parents under a selector drawn from `seed`.
    pub open spec fn do_breed(
        self,
        sys: SystemModel,
        sender: u64,
        id1: u32,
        id2: u32,
        seed: Seq<u8>,
    ) -> Outcome<u32> {
        if !self.kitties.contains_key(id1) || !self.kitties.contains_key(id2) {
            Outcome {
                result: Err(DispatchError::Module(Error::InvalidKittyId)),
                kitties: self,
                system: sys,
            }
        } else if id1 == id2 {
            Outcome {
                result: Err(DispatchError::Module(Error::RequireDifferentParent)),
                kitties: self,
                system: sys,
            }
        } else {
            match self.next_kitty_id() {
                Ok(id) => Outcome {
                    result: Ok(id),
                    kitties: self.insert_kitty(
                        sender,
                        id,
                        spec_bred_dna(
                            self.kitties[id1],
                            self.kitties[id2],
                            spec_random_dna(seed, sender, sys.extrinsic_index),
                        ),
                    ),
                    system: sys,
                },
                Err(e) => Outcome { result: Err(e), kitties: self, system: sys },
            }
        }
    }

    /// `breed` dispatched by `origin`.
    pub open spec fn breed(
        self,
        sys: SystemModel,
        origin: Origin,
        id1: u32,
        id2: u32,
        seed: Seq<u8>,
    ) -> Outcome<()> {
        match origin {
            Origin::Signed(sender) => {
                let o = self.do_breed(sys, sender, id1, id2, seed);
                match o.result {
                    Ok(id) => Outcome {
                        result: Ok(()),
                        kitties: o.kitties,
                        system: sys.deposit(Event::Created(sender, id)),
                    },
                    Err(e) => Outcome { result: Err(e), kitties: self, system: sys },
                }
            },
            _ => Outcome { result: Err(DispatchError::BadOrigin), kitties: self, system: sys },
        }
    }
}

/// The pallet's storage.
pub struct Module {
    kitties: HashMap<u32, Kitty>,
    kitties_count: u32,
    kitty_owners: HashMap<u32, u64>,
}

impl View for Module {
    type V = KittiesModel;

    closed spec fn view(&self) -> KittiesModel {
        KittiesModel {
            kitties: self.kitties@.map_values(|k: Kitty| k.0@),
            kitties_count: self.kitties_count,
            kitty_owners: self.kitty_owners@,
        }
    }
}

impl Module {
    /// The storage at genesis.
    pub fn new() -> (m: Module)
        ensures
            m@ == KittiesModel::genesis(),
    {
        let m = Module { kitties: HashMap::new(), kitties_count: 0, kitty_owners: HashMap::new() };
        assert(m@.kitties =~= Map::empty());
        m
    }

    /// The kitty stored under `id`, if any.
    pub fn kitties(&self, id: u32) -> (r: Option<Kitty>)
        ensures
            r is Some <==> self@.kitties.contains_key(id),
            r matches Some(k) ==> k.0@ == self@.kitties[id],
    {
        match self.kitties.get(&id) {
            Some(k) => Some(*k),
            None => None,
        }
    }

    /// The counter of kitties: the index the next kitty gets.
    pub fn kitties_count(&self) -> (n: u32)
        ensures
            n == self@.kitties_count,
    {
        self.kitties_count
    }

    /// The owner recorded for `id`, if any.
    pub fn kitty_owner(&self, id: u32) -> (r: Option<u64>)
        ensures
            r == (if self@.kitty_owners.contains_key(id) {
                Some(self@.kitty_owners[id])
            } else {
                None
            }),
    {
        match self.kitty_owners.get(&id) {
            Some(o) => Some(*o),
            None => None,
        }
    }

    /// The index the next kitty gets, or `KittiesCountOverflow` once the counter has
    /// reached the largest index.
    fn next_kitty_id(&self) -> (r: Result<u32, DispatchError>)
        ensures
            r == self@.next_kitty_id(),
    {
        let kitty_id = self.kitties_count;
        if kitty_id == u32::MAX {
            return Err(DispatchError::Module(Error::KittiesCountOverflow));
        }
        Ok(kitty_id)
    }

    /// Sixteen pseudo-random bytes for `sender`: the Blake2b-128 digest of the SCALE
    /// encoding of the randomness seed, the sender and the current extrinsic index.
    fn random_value(system: &System, random_seed: [u8; 32], sender: &u64) -> (dna: [u8; 16])
        ensures
            dna@ == spec_random_dna(random_seed@, *sender, system@.extrinsic_index),
    {
        let payload = encode_seed_payload(random_seed, *sender, system.extrinsic_index());
        blake2_128(payload.as_slice())
    }

    /// Stores `kitty` under `kitty_id` for `owner` and sets the counter to `kitty_id + 1`.
    pub fn insert_kitty(&mut self, owner: &u64, kitty_id: u32, kitty: Kitty)
        requires
            kitty_id < u32::MAX,
        ensures
            final(self)@ == old(self)@.insert_kitty(*owner, kitty_id, kitty.0@),
    {
        self.kitties_count = kitty_id + 1;
        self.kitty_owners.insert(kitty_id, *owner);
        self.kitties.insert(kitty_id, kitty);
        assert(self@.kitties =~= old(self)@.kitties.insert(kitty_id, kitty.0@));
    }

    /// Breeds the kitties `kitty_id_1` and `kitty_id_2` for `sender` and returns the
    /// child's index. Both parents must be stored and differ, and the counter must not
    /// have reached the largest index.
    fn do_breed(
        &mut self,
        system: &System,
        sender: &u64,
        kitty_id_1: u32,
        kitty_id_2: u32,
        random_seed: [u8; 32],
    ) -> (r: Result<u32, DispatchError>)
        ensures
            r == old(self)@.do_breed(system@, *sender, kitty_id_1, kitty_id_2, random_seed@).result,
            final(self)@ == old(self)@.do_breed(
                system@,
                *sender,
                kitty_id_1,
                kitty_id_2,
                random_seed@,
            ).kitties,
    {
        let kitty1 = match self.kitties.get(&kitty_id_1) {
            Some(k) => *k,
            None => return Err(DispatchError::Module(Error::InvalidKittyId)),
        };
        let kitty2 = match self.kitties.get(&kitty_id_2) {
            Some(k) => *k,
            None => return Err(DispatchError::Module(Error::InvalidKittyId)),
        };
        if kitty_id_1 == kitty_id_2 {
            return Err(DispatchError::Module(Error::RequireDifferentParent));
        }
        let kitty_id = match self.next_kitty_id() {
            Ok(id) => id,
            Err(e) => return Err(e),
        };
        let kitty1_dna = kitty1.0;
        let kitty2_dna = kitty2.0;
        let selector = Self::random_value(system, random_seed, sender);
        let mut new_dna = [0u8; 16];
        for i in 0..16
            invariant
                forall|j: int|
                    0 <= j < i ==> #[trigger] new_dna@[j] == spec_combine_dna(
                        kitty1_dna@[j],
                        kitty2_dna@[j],
                        selector@[j],
                    ),
        {
            new_dna[i] = Self::combine_dna(kitty1_dna[i], kitty2_dna[i], selector[i]);
        }
        assert(new_dna@ =~= spec_bred_dna(kitty1_dna@, kitty2_dna@, selector@));
        self.insert_kitty(sender, kitty_id, Kitty(new_dna));
        Ok(kitty_id)
    }

    /// Creates a kitty for the signed sender, with DNA drawn from `random_seed` (the
    /// runtime randomness source's current seed), under the next index, and deposits
    /// `Created(sender, index)`.
    pub fn create(&mut self, system: &mut System, origin: Origin, random_seed: [u8; 32]) -> (r: Result<(), DispatchError>)
        ensures
            r == old(self)@.create(old(system)@, origin, random_seed@).result,
            final(self)@ == old(self)@.create(old(system)@, origin, random_seed@).kitties,
            final(system)@ == old(self)@.create(old(system)@, origin, random_seed@).system,
    {
        let sender = match ensure_signed(origin) {
            Ok(who) => who,
            Err(e) => return Err(e),
        };
        let kitty_id = match self.next_kitty_id() {
            Ok(id) => id,
            Err(e) => return Err(e),
        };
        let dna = Self::random_value(system, random_seed, &sender);
        let kitty = Kitty(dna);
        self.insert_kitty(&sender, kitty_id, kitty);
        system.deposit_event(Event::Created(sender, kitty_id));
        Ok(())
    }

    /// Records `to` as the owner of `kitty_id` and deposits `Transferred(sender, to,
    /// kitty_id)`. Any signed sender may do so, for any index.
    pub fn transfer(&mut self, system: &mut System, origin: Origin, to: u64, kitty_id: u32) -> (r: Result<(), DispatchError>)
        ensures
            r == old(self)@.transfer(old(system)@, origin, to, kitty_id).result,
            final(self)@ == old(self)@.transfer(old(system)@, origin, to, kitty_id).kitties,
            final(system)@ == old(self)@.transfer(old(system)@, origin, to, kitty_id).system,
    {
        let sender = match ensure_signed(origin) {
            Ok(who) => who,
            Err(e) => return Err(e),
        };
        self.kitty_owners.insert(kitty_id, to);
        system.deposit_event(Event::Transferred(sender, to, kitty_id));
        Ok(())
    }

    /// Breeds two stored kitties for the signed sender, with the selector drawn from
    /// `random_seed`, and deposits `Created(sender, child index)`.
    pub fn breed(
        &mut self,
        system: &mut System,
        origin: Origin,
        kitty_id_1: u32,
        kitty_id_2: u32,
        random_seed: [u8; 32],
    ) -> (r: Result<(), DispatchError>)
        ensures
            r == old(self)@.breed(old(system)@, origin, kitty_id_1, kitty_id_2, random_seed@).result,
            final(self)@ == old(self)@.breed(
                old(system)@,
                origin,
                kitty_id_1,
                kitty_id_2,
                random_seed@,
            ).kitties,
            final(system)@ == old(self)@.breed(
                old(system)@,
                origin,
                kitty_id_1,
                kitty_id_2,
                random_seed@,
            ).system,
    {
        let sender = match ensure_signed(origin) {
            Ok(who) => who,
            Err(e) => return Err(e),
        };
        let new_kitty_id = match self.do_breed(system, &sender, kitty_id_1, kitty_id_2, random_seed) {
            Ok(id) => id,
            Err(e) => return Err(e),
        };
        system.deposit_event(Event::Created(sender, new_kitty_id));
        Ok(())
    }

    /// Mixes one byte of two parents' DNA under a selector byte.
    pub fn combine_dna(dna1: u8, dna2: u8, selector: u8) -> (r: u8)
        ensures
            r == spec_combine_dna(dna1, dna2, selector),
    {
        (selector & dna1) | (!selector & dna2)
    }
}

} // verus!
