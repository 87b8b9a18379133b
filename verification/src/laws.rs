use vstd::prelude::*;

use crate::hashing::spec_random_dna;
use crate::pallet::{spec_bred_dna, spec_combine_dna, KittiesModel};
use crate::system::SystemModel;
use crate::types::{DispatchError, Error, Event, EventRecord, Origin};

verus! {

/// Bit `b` of `x`.
pub open spec fn bit(x: u8, b: u8) -> bool {
    (x >> b) & 1u8 == 1u8
}

/// Every bit of a combined DNA byte is the first parent's bit where the selector's bit is
/// set and the second parent's bit elsewhere; so combining a byte with itself gives it
/// back, an all-ones selector picks the first parent, an all-zeros selector the second,
/// and swapping the parents is the same as inverting the selector.
pub proof fn lemma_combine_dna(dna1: u8, dna2: u8, selector: u8)
    ensures
        forall|b: u8|
            b < 8 ==> (bit(spec_combine_dna(dna1, dna2, selector), b) == if bit(selector, b) {
                bit(dna1, b)
            } else {
                bit(dna2, b)
            }),
        spec_combine_dna(dna1, dna1, selector) == dna1,
        spec_combine_dna(dna1, dna2, 0xffu8) == dna1,
        spec_combine_dna(dna1, dna2, 0u8) == dna2,
        spec_combine_dna(dna1, dna2, selector) == spec_combine_dna(dna2, dna1, !selector),
{
    assert forall|b: u8| b < 8 implies (bit(spec_combine_dna(dna1, dna2, selector), b) == if bit(
        selector,
        b,
    ) {
        bit(dna1, b)
    } else {
        bit(dna2, b)
    }) by {
        assert(b < 8 ==> ((((selector & dna1) | (!selector & dna2)) >> b) & 1u8 == 1u8) == if (
        selector >> b) & 1u8 == 1u8 {
            (dna1 >> b) & 1u8 == 1u8
        } else {
            (dna2 >> b) & 1u8 == 1u8
        }) by (bit_vector);
    }
    assert((selector & dna1) | (!selector & dna1) == dna1) by (bit_vector);
    assert((0xffu8 & dna1) | (!0xffu8 & dna2) == dna1) by (bit_vector);
    assert((0u8 & dna1) | (!0u8 & dna2) == dna2) by (bit_vector);
    assert((selector & dna1) | (!selector & dna2) == (!selector & dna2) | (!!selector & dna1))
        by (bit_vector);
}

/// A child of two kitties with the same DNA has that DNA, whatever the selector.
pub proof fn lemma_bred_dna_of_twins(dna: Seq<u8>, selector: Seq<u8>)
    ensures
        spec_bred_dna(dna, dna, selector) == dna,
{
    assert forall|i: int| 0 <= i < dna.len() implies spec_bred_dna(dna, dna, selector)[i]
        == dna[i] by {
        lemma_combine_dna(dna[i], dna[i], selector[i]);
    }
    assert(spec_bred_dna(dna, dna, selector) =~= dna);
}

/// A refused call changes nothing: when `create`, `transfer` or `breed` returns an
/// error, the pallet's storage and the system's storage are as they were.
pub proof fn lemma_refused_calls_change_nothing(
    m: KittiesModel,
    s: SystemModel,
    origin: Origin,
    seed: Seq<u8>,
    to: u64,
    id: u32,
    id1: u32,
    id2: u32,
)
    ensures
        m.create(s, origin, seed).result is Err ==> m.create(s, origin, seed).kitties == m
            && m.create(s, origin, seed).system == s,
        m.transfer(s, origin, to, id).result is Err ==> m.transfer(s, origin, to, id).kitties == m
            && m.transfer(s, origin, to, id).system == s,
        m.breed(s, origin, id1, id2, seed).result is Err ==> m.breed(s, origin, id1, id2, seed).kitties
            == m && m.breed(s, origin, id1, id2, seed).system == s,
{
}

/// Only a signed origin may dispatch: any other origin is answered `BadOrigin`.
pub proof fn lemma_unsigned_origins_refused(
    m: KittiesModel,
    s: SystemModel,
    origin: Origin,
    seed: Seq<u8>,
    to: u64,
    id: u32,
    id1: u32,
    id2: u32,
)
    requires
        !(origin is Signed),
    ensures
        m.create(s, origin, seed).result == Err::<(), _>(DispatchError::BadOrigin),
        m.transfer(s, origin, to, id).result == Err::<(), _>(
            DispatchError::BadOrigin,
        ),
        m.breed(s, origin, id1, id2, seed).result == Err::<(), _>(
            DispatchError::BadOrigin,
        ),
{
}

/// Every stored kitty has an index below the counter at genesis, and every dispatched
/// call keeps it so; the counter never goes down.
pub proof fn lemma_ids_below_count_invariant(
    m: KittiesModel,
    s: SystemModel,
    origin: Origin,
    seed: Seq<u8>,
    to: u64,
    id: u32,
    id1: u32,
    id2: u32,
)
    requires
        m.ids_below_count(),
    ensures
        KittiesModel::genesis().ids_below_count(),
        m.create(s, origin, seed).kitties.ids_below_count(),
        m.transfer(s, origin, to, id).kitties.ids_below_count(),
        m.breed(s, origin, id1, id2, seed).kitties.ids_below_count(),
        m.kitties_count <= m.create(s, origin, seed).kitties.kitties_count,
        m.kitties_count <= m.transfer(s, origin, to, id).kitties.kitties_count,
        m.kitties_count <= m.breed(s, origin, id1, id2, seed).kitties.kitties_count,
{
}

/// The storage is consistent at genesis and every call keeps it so, whatever its result:
/// a kitty is stored at exactly the indices below the counter, and every stored kitty has
/// an owner. Breeding keeps it too.
pub proof fn lemma_storage_consistent_invariant(
    m: KittiesModel,
    s: SystemModel,
    origin: Origin,
    sender: u64,
    seed: Seq<u8>,
    to: u64,
    id: u32,
    id1: u32,
    id2: u32,
)
    requires
        m.consistent(),
    ensures
        KittiesModel::genesis().consistent(),
        m.create(s, origin, seed).kitties.consistent(),
        m.transfer(s, origin, to, id).kitties.consistent(),
        m.do_breed(s, sender, id1, id2, seed).kitties.consistent(),
        m.breed(s, origin, id1, id2, seed).kitties.consistent(),
{
    let g = KittiesModel::genesis();
    assert forall|k: u32| #[trigger] g.kitties.contains_key(k) <==> k < g.kitties_count by {}
    let a = m.create(s, origin, seed).kitties;
    assert forall|k: u32| #[trigger] a.kitties.contains_key(k) <==> k < a.kitties_count by {
        if a != m {
            assert(m.kitties.contains_key(k) <==> k < m.kitties_count);
        }
    }
    let b = m.do_breed(s, sender, id1, id2, seed).kitties;
    assert forall|k: u32| #[trigger] b.kitties.contains_key(k) <==> k < b.kitties_count by {
        if b != m {
            assert(m.kitties.contains_key(k) <==> k < m.kitties_count);
        }
    }
}

/// The DNA of a created kitty depends on the seed, the sender and the extrinsic index
/// alone: two successful creations by the same sender, from the same seed and at the same
/// extrinsic index, store the same DNA, whatever else the storage holds.
pub proof fn lemma_created_dna_deterministic(
    m1: KittiesModel,
    s1: SystemModel,
    m2: KittiesModel,
    s2: SystemModel,
    sender: u64,
    seed: Seq<u8>,
)
    requires
        s1.extrinsic_index == s2.extrinsic_index,
        m1.create(s1, Origin::Signed(sender), seed).result is Ok,
        m2.create(s2, Origin::Signed(sender), seed).result is Ok,
    ensures
        m1.create(s1, Origin::Signed(sender), seed).kitties.kitties[m1.kitties_count]
            == m2.create(s2, Origin::Signed(sender), seed).kitties.kitties[m2.kitties_count],
        m1.create(s1, Origin::Signed(sender), seed).kitties.kitties[m1.kitties_count]
            == spec_random_dna(seed, sender, s1.extrinsic_index),
{
}

/// A created kitty never replaces a stored one: on success `create` stores the new kitty
/// under the former counter, where nothing was stored, gives it to the sender, raises the
/// counter by one, and leaves every other kitty and owner entry as it was.
pub proof fn lemma_create_adds_fresh_kitty(
    m: KittiesModel,
    s: SystemModel,
    sender: u64,
    seed: Seq<u8>,
)
    requires
        m.ids_below_count(),
        m.create(s, Origin::Signed(sender), seed).result is Ok,
    ensures
        ({
            let after = m.create(s, Origin::Signed(sender), seed).kitties;
            let id = m.kitties_count;
            &&& !m.kitties.contains_key(id)
            &&& after.kitties.contains_key(id)
            &&& after.kitty_owners[id] == sender
            &&& after.kitties_count == id + 1
            &&& after.kitties.remove(id) == m.kitties
            &&& forall|j: u32| j != id ==> #[trigger] after.kitty_owners.contains_key(j)
                == m.kitty_owners.contains_key(j) && after.kitty_owners[j] == m.kitty_owners[j]
        }),
{
    let after = m.create(s, Origin::Signed(sender), seed).kitties;
    assert(after.kitties.remove(m.kitties_count) =~= m.kitties);
}

/// A bred kitty never replaces a stored one either: on success `breed` stores the child
/// under the former counter, where nothing was stored, gives it to the sender, and its
/// DNA mixes the two parents' DNA byte by byte under the selector drawn from the seed.
pub proof fn lemma_breed_adds_fresh_child(
    m: KittiesModel,
    s: SystemModel,
    sender: u64,
    id1: u32,
    id2: u32,
    seed: Seq<u8>,
)
    requires
        m.ids_below_count(),
        m.breed(s, Origin::Signed(sender), id1, id2, seed).result is Ok,
    ensures
        ({
            let after = m.breed(s, Origin::Signed(sender), id1, id2, seed).kitties;
            let id = m.kitties_count;
            &&& m.kitties.contains_key(id1) && m.kitties.contains_key(id2) && id1 != id2
            &&& !m.kitties.contains_key(id)
            &&& after.kitty_owners[id] == sender
            &&& after.kitties_count == id + 1
            &&& after.kitties.remove(id) == m.kitties
            &&& after.kitties[id] == spec_bred_dna(
                m.kitties[id1],
                m.kitties[id2],
                spec_random_dna(seed, sender, s.extrinsic_index),
            )
        }),
{
    let after = m.breed(s, Origin::Signed(sender), id1, id2, seed).kitties;
    assert(after.kitties.remove(m.kitties_count) =~= m.kitties);
}

/// A signed `transfer` always succeeds and touches only the owner entry it names, for any
/// index: the kitties and the counter stay, and after genesis exactly the event
/// `Transferred(sender, to, id)` is appended.
pub proof fn lemma_transfer_sets_owner_only(
    m: KittiesModel,
    s: SystemModel,
    sender: u64,
    to: u64,
    id: u32,
)
    ensures
        ({
            let o = m.transfer(s, Origin::Signed(sender), to, id);
            let after = o.kitties;
            &&& o.result is Ok
            &&& after.kitties == m.kitties
            &&& after.kitties_count == m.kitties_count
            &&& after.kitty_owners.contains_key(id)
            &&& after.kitty_owners[id] == to
            &&& after.kitty_owners.remove(id) == m.kitty_owners.remove(id)
            &&& o.system == (SystemModel {
                events: if s.block_number == 0 {
                    s.events
                } else {
                    s.events.push(
                        EventRecord {
                            phase: s.current_phase(),
                            event: Event::Transferred(sender, to, id),
                        },
                    )
                },
                ..s
            })
        }),
{
    let after = m.transfer(s, Origin::Signed(sender), to, id).kitties;
    assert(after.kitty_owners.remove(id) =~= m.kitty_owners.remove(id));
}

/// A successful call after genesis appends exactly one event, the one it announces;
/// in the genesis block no event is recorded.
pub proof fn lemma_successful_calls_deposit_one_event(
    m: KittiesModel,
    s: SystemModel,
    sender: u64,
    seed: Seq<u8>,
    to: u64,
    id: u32,
)
    ensures
        m.create(s, Origin::Signed(sender), seed).result is Ok ==> m.create(
            s,
            Origin::Signed(sender),
            seed,
        ).system.events == if s.block_number == 0 {
            s.events
        } else {
            s.events.push(
                EventRecord {
                    phase: s.current_phase(),
                    event: Event::Created(sender, m.kitties_count),
                },
            )
        },
        m.transfer(s, Origin::Signed(sender), to, id).system.events == if s.block_number == 0 {
            s.events
        } else {
            s.events.push(
                EventRecord { phase: s.current_phase(), event: Event::Transferred(sender, to, id) },
            )
        },
{
}

/// When a signed `create` succeeds and when it fails: it succeeds exactly while the
/// counter is below the largest index, whatever owner entries are recorded, and its only
/// error for a signed sender is `KittiesCountOverflow` at the largest index.
pub proof fn lemma_create_result(m: KittiesModel, s: SystemModel, sender: u64, seed: Seq<u8>)
    ensures
        (m.create(s, Origin::Signed(sender), seed).result is Ok) <==> m.kitties_count < u32::MAX,
        (m.create(s, Origin::Signed(sender), seed).result == Err::<(), DispatchError>(
            DispatchError::Module(Error::KittiesCountOverflow),
        )) <==> m.kitties_count == u32::MAX,
{
}

/// What a successful `create` does: the kitty is stored under the former counter with the
/// DNA drawn from the seed, the sender and the extrinsic index, the sender becomes its
/// owner whatever was recorded there before, the counter goes up by one, every other
/// kitty and owner entry stays, and after genesis exactly the event `Created(sender,
/// former counter)` is appended.
pub proof fn lemma_create_success(m: KittiesModel, s: SystemModel, sender: u64, seed: Seq<u8>)
    requires
        m.create(s, Origin::Signed(sender), seed).result is Ok,
    ensures
        ({
            let o = m.create(s, Origin::Signed(sender), seed);
            let id = m.kitties_count;
            &&& o.kitties.kitties_count == id + 1
            &&& o.kitties.kitties.contains_key(id)
            &&& o.kitties.kitties[id] == spec_random_dna(seed, sender, s.extrinsic_index)
            &&& o.kitties.kitty_owners.contains_key(id)
            &&& o.kitties.kitty_owners[id] == sender
            &&& forall|k: u32|
                k != id ==> (#[trigger] o.kitties.kitties.contains_key(k)
                    == m.kitties.contains_key(k) && o.kitties.kitties[k] == m.kitties[k])
            &&& forall|k: u32|
                k != id ==> (#[trigger] o.kitties.kitty_owners.contains_key(k)
                    == m.kitty_owners.contains_key(k) && o.kitties.kitty_owners[k]
                    == m.kitty_owners[k])
            &&& o.system == (SystemModel {
                events: if s.block_number == 0 {
                    s.events
                } else {
                    s.events.push(
                        EventRecord { phase: s.current_phase(), event: Event::Created(sender, id) },
                    )
                },
                ..s
            })
        }),
{
}

/// When a signed `breed` succeeds and when it fails: `InvalidKittyId` exactly when a
/// parent index holds no kitty; otherwise `RequireDifferentParent` exactly when the two
/// indices are equal; otherwise `KittiesCountOverflow` exactly when the counter is at the
/// largest index; otherwise it succeeds.
pub proof fn lemma_breed_result(
    m: KittiesModel,
    s: SystemModel,
    sender: u64,
    id1: u32,
    id2: u32,
    seed: Seq<u8>,
)
    ensures
        ({
            let r = m.breed(s, Origin::Signed(sender), id1, id2, seed).result;
            let parents = m.kitties.contains_key(id1) && m.kitties.contains_key(id2);
            &&& (r == Err::<(), DispatchError>(DispatchError::Module(Error::InvalidKittyId)))
                <==> !parents
            &&& (r == Err::<(), DispatchError>(
                DispatchError::Module(Error::RequireDifferentParent),
            )) <==> (parents && id1 == id2)
            &&& (r == Err::<(), DispatchError>(DispatchError::Module(Error::KittiesCountOverflow)))
                <==> (parents && id1 != id2 && m.kitties_count == u32::MAX)
            &&& (r is Ok) <==> (parents && id1 != id2 && m.kitties_count < u32::MAX)
        }),
{
}

/// What a successful `breed` does: the child is stored under the former counter and owned
/// by the sender, the counter goes up by one, every other kitty and owner entry stays,
/// after genesis exactly the event `Created(sender, former counter)` is appended, and each
/// bit of each byte of the child's DNA is the bit of the kitty under `id1` where the
/// selector drawn from the seed, the sender and the extrinsic index has that bit set, and
/// the bit of the kitty under `id2` where it is clear.
pub proof fn lemma_breed_success(
    m: KittiesModel,
    s: SystemModel,
    sender: u64,
    id1: u32,
    id2: u32,
    seed: Seq<u8>,
)
    requires
        m.breed(s, Origin::Signed(sender), id1, id2, seed).result is Ok,
    ensures
        ({
            let o = m.breed(s, Origin::Signed(sender), id1, id2, seed);
            let id = m.kitties_count;
            let child = o.kitties.kitties[id];
            let dna1 = m.kitties[id1];
            let dna2 = m.kitties[id2];
            let selector = spec_random_dna(seed, sender, s.extrinsic_index);
            &&& o.kitties.kitties_count == id + 1
            &&& o.kitties.kitties.contains_key(id)
            &&& o.kitties.kitty_owners.contains_key(id)
            &&& o.kitties.kitty_owners[id] == sender
            &&& child.len() == dna1.len()
            &&& forall|i: int, b: u8|
                0 <= i < child.len() && b < 8 ==> (#[trigger] bit(child[i], b) == if bit(
                    selector[i],
                    b,
                ) {
                    bit(dna1[i], b)
                } else {
                    bit(dna2[i], b)
                })
            &&& forall|k: u32|
                k != id ==> (#[trigger] o.kitties.kitties.contains_key(k)
                    == m.kitties.contains_key(k) && o.kitties.kitties[k] == m.kitties[k])
            &&& forall|k: u32|
                k != id ==> (#[trigger] o.kitties.kitty_owners.contains_key(k)
                    == m.kitty_owners.contains_key(k) && o.kitties.kitty_owners[k]
                    == m.kitty_owners[k])
            &&& o.system == (SystemModel {
                events: if s.block_number == 0 {
                    s.events
                } else {
                    s.events.push(
                        EventRecord { phase: s.current_phase(), event: Event::Created(sender, id) },
                    )
                },
                ..s
            })
        }),
{
    let o = m.breed(s, Origin::Signed(sender), id1, id2, seed);
    let id = m.kitties_count;
    let child = o.kitties.kitties[id];
    let dna1 = m.kitties[id1];
    let dna2 = m.kitties[id2];
    let selector = spec_random_dna(seed, sender, s.extrinsic_index);
    assert forall|i: int, b: u8| 0 <= i < child.len() && b < 8 implies (#[trigger] bit(child[i], b) == if bit(selector[i], b) {
        bit(dna1[i], b)
    } else {
        bit(dna2[i], b)
    }) by {
        lemma_combine_dna(dna1[i], dna2[i], selector[i]);
    }
}

} // verus!
