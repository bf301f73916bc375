use vstd::prelude::*;
use crate::errors::Error;
use crate::escrow::AccountId;
use crate::escrow::Escrow;
use crate::kitty::Kitty;
use crate::kitty::KittyId;
use crate::storage_map::StorageMap;

verus! {

/// One notification per successful transition, in the order emitted.
#[derive(Clone, Copy, Debug, PartialEq, Eq)]
pub enum Event {
    /// A fresh entity was created for `who`.
    KittyCreated { who: AccountId, kitty_id: KittyId, kitty: Kitty },
    /// A child entity was bred for `who`.
    KittyBreed { who: AccountId, kitty_id: KittyId, kitty: Kitty },
    /// Ownership moved from `who` to `recipient`.
    KittyTransfer { who: AccountId, recipient: AccountId, kitty_id: KittyId },
    /// `who` offered the entity for sale.
    KittyOnSale { who: AccountId, kitty_id: KittyId },
    /// `who` bought the entity, completing a sale.
    KittyBought { who: AccountId, kitty_id: KittyId },
}

/// The whole module state: the id counter, the entity table with its three
/// indices, the escrow view of the currency ledger, the fixed stake price,
/// and the log of emitted notifications.
pub struct Pallet {
    /// The next id to hand out; monotone, never reused, never rolled back.
    pub next_id: KittyId,
    /// The stored entities, by id.
    pub entities: StorageMap<Kitty>,
    /// The owner of each stored entity; total on the stored entities.
    pub owners: StorageMap<AccountId>,
    /// The parents of each bred entity; absent for directly created ones.
    pub parents: StorageMap<(KittyId, KittyId)>,
    /// The entities currently offered for sale.
    pub on_sale: StorageMap<()>,
    /// The currency reservations backing creation and trade.
    pub escrow: Escrow,
    /// The fixed stake reserved per entity and paid per trade.
    pub price: u64,
    /// Every notification emitted so far, oldest first.
    pub events: Vec<Event>,
}

impl Pallet {
    /// Structural invariant of the state: every stored entity has exactly one
    /// owner and an id below the counter; parentage only ever points at
    /// stored, distinct entities; only stored entities are listed for sale;
    /// and no account's currency total overflows.
    pub open spec fn wf(&self) -> bool {
        &&& forall|id: KittyId| #[trigger] self.entities@.contains_key(id) ==> id < self.next_id
        &&& forall|id: KittyId|
            #![trigger self.owners@.contains_key(id)]
            #![trigger self.entities@.contains_key(id)]
            (self.owners@.contains_key(id) <==> self.entities@.contains_key(id))
        &&& forall|id: KittyId| #[trigger]
            self.parents@.contains_key(id) ==> {
                &&& self.entities@.contains_key(id)
                &&& self.entities@.contains_key(self.parents@[id].0)
                &&& self.entities@.contains_key(self.parents@[id].1)
                &&& self.parents@[id].0 != self.parents@[id].1
            }
        &&& forall|id: KittyId| #[trigger] self.on_sale@.contains_key(id) ==> self.entities@.contains_key(id)
        &&& self.escrow.wf()
    }

    /// A fresh module: counter at zero, no entities, an empty escrow, and the
    /// given fixed stake price.
    pub fn new(price: u64) -> (r: Pallet)
        ensures
            r.wf(),
            r.next_id == 0,
            r.entities@ == Map::<KittyId, Kitty>::empty(),
            r.owners@ == Map::<KittyId, AccountId>::empty(),
            r.parents@ == Map::<KittyId, (KittyId, KittyId)>::empty(),
            r.on_sale@ == Map::<KittyId, ()>::empty(),
            r.events@ == Seq::<Event>::empty(),
            r.price == price,
            forall|a: AccountId| #[trigger] r.escrow.free_of(a) == 0,
            forall|a: AccountId| #[trigger] r.escrow.reserved_of(a) == 0,
    {
        Pallet {
            next_id: 0,
            entities: StorageMap::new(),
            owners: StorageMap::new(),
            parents: StorageMap::new(),
            on_sale: StorageMap::new(),
            escrow: Escrow::new(),
            price,
            events: Vec::new(),
        }
    }

    /// Allocate the next entity id: hand back the counter's value and advance
    /// the counter by one. Fails with `IdSpaceExhausted`, leaving the counter
    /// unchanged, exactly when the counter stands at the last value. The
    /// counter never decreases.
    pub fn get_next_id(&mut self) -> (r: Result<KittyId, Error>)
        requires
            old(self).wf(),
        ensures
            final(self).wf(),
            final(self).next_id >= old(self).next_id,
            final(self).entities@ == old(self).entities@,
            final(self).owners@ == old(self).owners@,
            final(self).parents@ == old(self).parents@,
            final(self).on_sale@ == old(self).on_sale@,
            final(self).escrow == old(self).escrow,
            final(self).price == old(self).price,
            final(self).events@ == old(self).events@,
            match r {
                Ok(id) => {
                    &&& id == old(self).next_id
                    &&& old(self).next_id < u32::MAX
                    &&& final(self).next_id == old(self).next_id + 1
                },
                Err(e) => {
                    &&& e == Error::IdSpaceExhausted
                    &&& old(self).next_id == u32::MAX
                    &&& final(self).next_id == old(self).next_id
                },
            },
    {
        if self.next_id == u32::MAX {
            Err(Error::IdSpaceExhausted)
        } else {
            let current = self.next_id;
            self.next_id = self.next_id + 1;
            Ok(current)
        }
    }

    /// Create a fresh entity owned by `who`. The 16 bytes of genetic code are
    /// seed material handed in by the host environment, which derives them
    /// from its unpredictable per-execution seed, the caller identity and a
    /// call-sequence index. The stake is reserved against `who` before any
    /// record is written; on a failed reservation only the id counter has
    /// advanced, leaving a harmless gap, and no record exists.
    pub fn create(&mut self, who: AccountId, genes: [u8; 16]) -> (r: Result<KittyId, Error>)
        requires
            old(self).wf(),
        ensures
            final(self).wf(),
            final(self).price == old(self).price,
            final(self).next_id >= old(self).next_id,
            match r {
                Ok(kitty_id) => {
                    &&& kitty_id == old(self).next_id
                    &&& old(self).next_id < u32::MAX
                    &&& old(self).escrow.free_of(who) >= old(self).price
                    &&& final(self).next_id == old(self).next_id + 1
                    &&& !old(self).entities@.contains_key(kitty_id)
                    &&& final(self).entities@ == old(self).entities@.insert(kitty_id, Kitty(genes))
                    &&& final(self).owners@ == old(self).owners@.insert(kitty_id, who)
                    &&& final(self).parents@ == old(self).parents@
                    &&& !final(self).parents@.contains_key(kitty_id)
                    &&& final(self).on_sale@ == old(self).on_sale@
                    &&& final(self).escrow.free_of(who) == old(self).escrow.free_of(who) - old(self).price
                    &&& final(self).escrow.reserved_of(who) == old(self).escrow.reserved_of(who)
                        + old(self).price
                    &&& forall|a: AccountId|
                        a != who ==> #[trigger] final(self).escrow.free_of(a) == old(
                            self,
                        ).escrow.free_of(a)
                    &&& forall|a: AccountId|
                        a != who ==> #[trigger] final(self).escrow.reserved_of(a) == old(
                            self,
                        ).escrow.reserved_of(a)
                    &&& final(self).events@ == old(self).events@.push(
                        (Event::KittyCreated { who, kitty_id, kitty: Kitty(genes) }),
                    )
                },
                Err(e) => {
                    &&& final(self).entities@ == old(self).entities@
                    &&& final(self).owners@ == old(self).owners@
                    &&& final(self).parents@ == old(self).parents@
                    &&& final(self).on_sale@ == old(self).on_sale@
                    &&& final(self).escrow == old(self).escrow
                    &&& final(self).events@ == old(self).events@
                    &&& (e == Error::IdSpaceExhausted || e == Error::InsufficientBalance)
                    &&& (e == Error::IdSpaceExhausted <==> old(self).next_id == u32::MAX)
                    &&& (e == Error::IdSpaceExhausted ==> final(self).next_id == old(self).next_id)
                    &&& (e == Error::InsufficientBalance ==> {
                        &&& old(self).escrow.free_of(who) < old(self).price
                        &&& final(self).next_id == old(self).next_id + 1
                    })
                },
            },
    {
        let kitty_id = match self.get_next_id() {
            Ok(id) => id,
            Err(e) => { return Err(e); },
        };
        let kitty = Kitty(genes);
        let price = self.price;
        match self.escrow.reserve(who, price) {
            Ok(()) => {},
            Err(e) => { return Err(e); },
        }
        self.entities.insert(kitty_id, kitty);
        self.owners.insert(kitty_id, who);
        self.events.push(Event::KittyCreated { who, kitty_id, kitty });
        Ok(kitty_id)
    }

    /// Breed a child of two distinct, stored parents for `who`. The child's
    /// code is the bit-wise crossover of the parents' codes under the
    /// 16-byte selector mask that the host environment hands in; its
    /// parentage is recorded as the pair passed, in order. The caller need
    /// not own either parent. Preconditions are checked in order, first
    /// failure wins; on a failed reservation only the id counter has
    /// advanced.
    pub fn breed(
        &mut self,
        who: AccountId,
        kitty_id_1: KittyId,
        kitty_id_2: KittyId,
        selector: [u8; 16],
    ) -> (r: Result<KittyId, Error>)
        requires
            old(self).wf(),
        ensures
            final(self).wf(),
            final(self).price == old(self).price,
            final(self).next_id >= old(self).next_id,
            match r {
                Ok(kitty_id) => {
                    &&& kitty_id_1 != kitty_id_2
                    &&& old(self).entities@.contains_key(kitty_id_1)
                    &&& old(self).entities@.contains_key(kitty_id_2)
                    &&& old(self).next_id < u32::MAX
                    &&& old(self).escrow.free_of(who) >= old(self).price
                    &&& kitty_id == old(self).next_id
                    &&& final(self).next_id == old(self).next_id + 1
                    &&& !old(self).entities@.contains_key(kitty_id)
                    &&& final(self).entities@.contains_key(kitty_id)
                    &&& final(self).entities@[kitty_id].0@ == crate::kitty::crossover_genes(
                        old(self).entities@[kitty_id_1].0@,
                        old(self).entities@[kitty_id_2].0@,
                        selector@,
                    )
                    &&& final(self).entities@.remove(kitty_id) == old(self).entities@
                    &&& final(self).owners@ == old(self).owners@.insert(kitty_id, who)
                    &&& !old(self).parents@.contains_key(kitty_id)
                    &&& final(self).parents@ == old(self).parents@.insert(
                        kitty_id,
                        (kitty_id_1, kitty_id_2),
                    )
                    &&& final(self).on_sale@ == old(self).on_sale@
                    &&& final(self).escrow.free_of(who) == old(self).escrow.free_of(who) - old(self).price
                    &&& final(self).escrow.reserved_of(who) == old(self).escrow.reserved_of(who)
                        + old(self).price
                    &&& forall|a: AccountId|
                        a != who ==> #[trigger] final(self).escrow.free_of(a) == old(
                            self,
                        ).escrow.free_of(a)
                    &&& forall|a: AccountId|
                        a != who ==> #[trigger] final(self).escrow.reserved_of(a) == old(
                            self,
                        ).escrow.reserved_of(a)
                    &&& final(self).events@ == old(self).events@.push(
                        (Event::KittyBreed { who, kitty_id, kitty: final(self).entities@[kitty_id] }),
                    )
                },
                Err(e) => {
                    &&& final(self).entities@ == old(self).entities@
                    &&& final(self).owners@ == old(self).owners@
                    &&& final(self).parents@ == old(self).parents@
                    &&& final(self).on_sale@ == old(self).on_sale@
                    &&& final(self).escrow == old(self).escrow
                    &&& final(self).events@ == old(self).events@
                    &&& (e == Error::IdenticalParents || e == Error::InvalidId
                        || e == Error::IdSpaceExhausted || e == Error::InsufficientBalance)
                    &&& (e == Error::IdenticalParents <==> kitty_id_1 == kitty_id_2)
                    &&& (e == Error::InvalidId <==> kitty_id_1 != kitty_id_2 && (!old(
                        self,
                    ).entities@.contains_key(kitty_id_1) || !old(self).entities@.contains_key(
                        kitty_id_2,
                    )))
                    &&& (e == Error::IdSpaceExhausted <==> {
                        &&& kitty_id_1 != kitty_id_2
                        &&& old(self).entities@.contains_key(kitty_id_1)
                        &&& old(self).entities@.contains_key(kitty_id_2)
                        &&& old(self).next_id == u32::MAX
                    })
                    &&& (e == Error::InsufficientBalance ==> {
                        &&& old(self).escrow.free_of(who) < old(self).price
                        &&& final(self).next_id == old(self).next_id + 1
                    })
                    &&& (e != Error::InsufficientBalance ==> final(self).next_id == old(self).next_id)
                },
            },
    {
        if kitty_id_1 == kitty_id_2 {
            return Err(Error::IdenticalParents);
        }
        let kitty_1 = match self.entities.get(kitty_id_1) {
            Some(k) => k,
            None => { return Err(Error::InvalidId); },
        };
        let kitty_2 = match self.entities.get(kitty_id_2) {
            Some(k) => k,
            None => { return Err(Error::InvalidId); },
        };
        let kitty_id = match self.get_next_id() {
            Ok(id) => id,
            Err(e) => { return Err(e); },
        };
        let data = crate::kitty::crossover(&kitty_1.0, &kitty_2.0, &selector);
        let kitty = Kitty(data);
        let price = self.price;
        match self.escrow.reserve(who, price) {
            Ok(()) => {},
            Err(e) => { return Err(e); },
        }
        self.entities.insert(kitty_id, kitty);
        self.owners.insert(kitty_id, who);
        self.parents.insert(kitty_id, (kitty_id_1, kitty_id_2));
        self.events.push(Event::KittyBreed { who, kitty_id, kitty });
        Ok(kitty_id)
    }

    /// Hand ownership of a stored entity from its owner `who` to `recipient`.
    /// No stake moves. Fails with `InvalidId` when the entity is not stored
    /// and with `NotOwner` when the caller is not its owner, changing
    /// nothing.
    pub fn transfer(&mut self, who: AccountId, kitty_id: KittyId, recipient: AccountId) -> (r:
        Result<(), Error>)
        requires
            old(self).wf(),
        ensures
            final(self).wf(),
            final(self).next_id == old(self).next_id,
            final(self).entities@ == old(self).entities@,
            final(self).parents@ == old(self).parents@,
            final(self).on_sale@ == old(self).on_sale@,
            final(self).escrow == old(self).escrow,
            final(self).price == old(self).price,
            match r {
                Ok(()) => {
                    &&& old(self).entities@.contains_key(kitty_id)
                    &&& old(self).owners@[kitty_id] == who
                    &&& final(self).owners@ == old(self).owners@.insert(kitty_id, recipient)
                    &&& final(self).events@ == old(self).events@.push(
                        (Event::KittyTransfer { who, recipient, kitty_id }),
                    )
                },
                Err(e) => {
                    &&& final(self).owners@ == old(self).owners@
                    &&& final(self).events@ == old(self).events@
                    &&& (e == Error::InvalidId || e == Error::NotOwner)
                    &&& (e == Error::InvalidId <==> !old(self).entities@.contains_key(kitty_id))
                    &&& (e == Error::NotOwner <==> old(self).entities@.contains_key(kitty_id)
                        && old(self).owners@[kitty_id] != who)
                },
            },
    {
        if !self.entities.contains_key(kitty_id) {
            return Err(Error::InvalidId);
        }
        let owner = match self.owners.get(kitty_id) {
            Some(o) => o,
            None => { return Err(Error::InvalidId); },
        };
        if owner != who {
            return Err(Error::NotOwner);
        }
        self.owners.insert(kitty_id, recipient);
        self.events.push(Event::KittyTransfer { who, recipient, kitty_id });
        Ok(())
    }

    /// Offer a stored, unlisted entity of the owner `who` for sale at the
    /// fixed price. Fails with `InvalidId` when the entity is not stored,
    /// `NotOwner` when the caller does not own it, and `AlreadyListed` when
    /// it is already offered, changing nothing.
    pub fn sale(&mut self, who: AccountId, kitty_id: KittyId) -> (r: Result<(), Error>)
        requires
            old(self).wf(),
        ensures
            final(self).wf(),
            final(self).next_id == old(self).next_id,
            final(self).entities@ == old(self).entities@,
            final(self).owners@ == old(self).owners@,
            final(self).parents@ == old(self).parents@,
            final(self).escrow == old(self).escrow,
            final(self).price == old(self).price,
            match r {
                Ok(()) => {
                    &&& old(self).entities@.contains_key(kitty_id)
                    &&& old(self).owners@[kitty_id] == who
                    &&& !old(self).on_sale@.contains_key(kitty_id)
                    &&& final(self).on_sale@ == old(self).on_sale@.insert(kitty_id, ())
                    &&& final(self).events@ == old(self).events@.push(
                        (Event::KittyOnSale { who, kitty_id }),
                    )
                },
                Err(e) => {
                    &&& final(self).on_sale@ == old(self).on_sale@
                    &&& final(self).events@ == old(self).events@
                    &&& (e == Error::InvalidId || e == Error::NotOwner || e == Error::AlreadyListed)
                    &&& (e == Error::InvalidId <==> !old(self).entities@.contains_key(kitty_id))
                    &&& (e == Error::NotOwner <==> old(self).entities@.contains_key(kitty_id)
                        && old(self).owners@[kitty_id] != who)
                    &&& (e == Error::AlreadyListed <==> {
                        &&& old(self).entities@.contains_key(kitty_id)
                        &&& old(self).owners@[kitty_id] == who
                        &&& old(self).on_sale@.contains_key(kitty_id)
                    })
                },
            },
    {
        if !self.entities.contains_key(kitty_id) {
            return Err(Error::InvalidId);
        }
        let owner = match self.owners.get(kitty_id) {
            Some(o) => o,
            None => { return Err(Error::InvalidId); },
        };
        if owner != who {
            return Err(Error::NotOwner);
        }
        if self.on_sale.contains_key(kitty_id) {
            return Err(Error::AlreadyListed);
        }
        self.on_sale.insert(kitty_id, ());
        self.events.push(Event::KittyOnSale { who, kitty_id });
        Ok(())
    }

    /// Buy a listed entity from its owner at the fixed price: reserve the
    /// stake against the buyer `who`, release the seller's reservation (as
    /// much of the price as the seller has reserved), hand over ownership
    /// and clear the listing. Fails, changing nothing, with `InvalidId` when
    /// the entity is not stored, `AlreadyOwned` when the buyer already owns
    /// it, `NotListed` when it is not offered, and `InsufficientBalance`
    /// when the buyer cannot cover the stake.
    pub fn buy(&mut self, who: AccountId, kitty_id: KittyId) -> (r: Result<(), Error>)
        requires
            old(self).wf(),
        ensures
            final(self).wf(),
            final(self).next_id == old(self).next_id,
            final(self).entities@ == old(self).entities@,
            final(self).parents@ == old(self).parents@,
            final(self).price == old(self).price,
            match r {
                Ok(()) => ({
                    let owner = old(self).owners@[kitty_id];
                    let moved = if old(self).price <= old(self).escrow.reserved_of(owner) {
                        old(self).price
                    } else {
                        old(self).escrow.reserved_of(owner)
                    };
                    &&& old(self).entities@.contains_key(kitty_id)
                    &&& owner != who
                    &&& old(self).on_sale@.contains_key(kitty_id)
                    &&& old(self).escrow.free_of(who) >= old(self).price
                    &&& final(self).owners@ == old(self).owners@.insert(kitty_id, who)
                    &&& final(self).on_sale@ == old(self).on_sale@.remove(kitty_id)
                    &&& final(self).escrow.free_of(who) == old(self).escrow.free_of(who) - old(self).price
                    &&& final(self).escrow.reserved_of(who) == old(self).escrow.reserved_of(who)
                        + old(self).price
                    &&& final(self).escrow.reserved_of(owner) == old(self).escrow.reserved_of(owner)
                        - moved
                    &&& final(self).escrow.free_of(owner) == old(self).escrow.free_of(owner) + moved
                    &&& forall|a: AccountId|
                        a != who && a != owner ==> #[trigger] final(self).escrow.free_of(a) == old(
                            self,
                        ).escrow.free_of(a)
                    &&& forall|a: AccountId|
                        a != who && a != owner ==> #[trigger] final(self).escrow.reserved_of(a)
                            == old(self).escrow.reserved_of(a)
                    &&& final(self).events@ == old(self).events@.push(
                        (Event::KittyBought { who, kitty_id }),
                    )
                }),
                Err(e) => {
                    &&& final(self).owners@ == old(self).owners@
                    &&& final(self).on_sale@ == old(self).on_sale@
                    &&& final(self).escrow == old(self).escrow
                    &&& final(self).events@ == old(self).events@
                    &&& (e == Error::InvalidId || e == Error::AlreadyOwned || e == Error::NotListed
                        || e == Error::InsufficientBalance)
                    &&& (e == Error::InvalidId <==> !old(self).entities@.contains_key(kitty_id))
                    &&& (e == Error::AlreadyOwned <==> old(self).entities@.contains_key(kitty_id)
                        && old(self).owners@[kitty_id] == who)
                    &&& (e == Error::NotListed <==> {
                        &&& old(self).entities@.contains_key(kitty_id)
                        &&& old(self).owners@[kitty_id] != who
                        &&& !old(self).on_sale@.contains_key(kitty_id)
                    })
                    &&& (e == Error::InsufficientBalance <==> {
                        &&& old(self).entities@.contains_key(kitty_id)
                        &&& old(self).owners@[kitty_id] != who
                        &&& old(self).on_sale@.contains_key(kitty_id)
                        &&& old(self).escrow.free_of(who) < old(self).price
                    })
                },
            },
    {
        if !self.entities.contains_key(kitty_id) {
            return Err(Error::InvalidId);
        }
        let owner = match self.owners.get(kitty_id) {
            Some(o) => o,
            None => { return Err(Error::NotOwner); },
        };
        if owner == who {
            return Err(Error::AlreadyOwned);
        }
        if !self.on_sale.contains_key(kitty_id) {
            return Err(Error::NotListed);
        }
        let price = self.price;
        match self.escrow.reserve(who, price) {
            Ok(()) => {},
            Err(e) => { return Err(e); },
        }
        self.escrow.unreserve(owner, price);
        self.owners.insert(kitty_id, who);
        self.on_sale.remove(kitty_id);
        self.events.push(Event::KittyBought { who, kitty_id });
        Ok(())
    }

    /// Endow `who` with `amount` more spendable currency; refused exactly
    /// when the account's total would overflow.
    pub fn endow(&mut self, who: AccountId, amount: u64) -> (ok: bool)
        requires
            old(self).wf(),
        ensures
            final(self).wf(),
            final(self).next_id == old(self).next_id,
            final(self).entities@ == old(self).entities@,
            final(self).owners@ == old(self).owners@,
            final(self).parents@ == old(self).parents@,
            final(self).on_sale@ == old(self).on_sale@,
            final(self).price == old(self).price,
            final(self).events@ == old(self).events@,
            ok == (old(self).escrow.free_of(who) + old(self).escrow.reserved_of(who) + amount
                <= u64::MAX),
            ok ==> final(self).escrow.free_of(who) == old(self).escrow.free_of(who) + amount,
            ok ==> final(self).escrow.reserved_of(who) == old(self).escrow.reserved_of(who),
            !ok ==> final(self).escrow == old(self).escrow,
            forall|a: AccountId|
                a != who ==> #[trigger] final(self).escrow.free_of(a) == old(self).escrow.free_of(a),
            forall|a: AccountId|
                a != who ==> #[trigger] final(self).escrow.reserved_of(a) == old(
                    self,
                ).escrow.reserved_of(a),
    {
        self.escrow.deposit(who, amount)
    }

    /// The id the allocator will hand out next.
    pub fn next_kitty_id(&self) -> (r: KittyId)
        ensures
            r == self.next_id,
    {
        self.next_id
    }

    /// The stored entity under `kitty_id`, if any.
    pub fn kitties(&self, kitty_id: KittyId) -> (r: Option<Kitty>)
        ensures
            r == (if self.entities@.contains_key(kitty_id) {
                Some(self.entities@[kitty_id])
            } else {
                None::<Kitty>
            }),
    {
        self.entities.get(kitty_id)
    }

    /// The owner recorded for `kitty_id`, if any.
    pub fn kitty_owner(&self, kitty_id: KittyId) -> (r: Option<AccountId>)
        ensures
            r == (if self.owners@.contains_key(kitty_id) {
                Some(self.owners@[kitty_id])
            } else {
                None::<AccountId>
            }),
    {
        self.owners.get(kitty_id)
    }

    /// The parents recorded for `kitty_id`: present, in the order passed to
    /// breeding, exactly for bred entities.
    pub fn kitty_parents(&self, kitty_id: KittyId) -> (r: Option<(KittyId, KittyId)>)
        ensures
            r == (if self.parents@.contains_key(kitty_id) {
                Some(self.parents@[kitty_id])
            } else {
                None::<(KittyId, KittyId)>
            }),
    {
        self.parents.get(kitty_id)
    }

    /// Whether `kitty_id` is currently offered for sale.
    pub fn kitty_on_sale(&self, kitty_id: KittyId) -> (r: bool)
        ensures
            r == self.on_sale@.contains_key(kitty_id),
    {
        self.on_sale.contains_key(kitty_id)
    }

    /// The spendable currency of `who`.
    pub fn free_balance(&self, who: AccountId) -> (r: u64)
        ensures
            r == self.escrow.free_of(who),
    {
        self.escrow.free_balance(who)
    }

    /// The currency held in reservation against `who`.
    pub fn reserved_balance(&self, who: AccountId) -> (r: u64)
        ensures
            r == self.escrow.reserved_of(who),
    {
        self.escrow.reserved_balance(who)
    }

    /// The most recently emitted notification, if any was emitted.
    pub fn last_event(&self) -> (r: Option<Event>)
        ensures
            r == (if self.events@.len() == 0 {
                None::<Event>
            } else {
                Some(self.events@.last())
            }),
    {
        if self.events.len() == 0 {
            None
        } else {
            Some(self.events[self.events.len() - 1])
        }
    }
}

/// The ids that `n` successful allocations hand out when the counter stands
/// at `start`: per `get_next_id`'s contract each success returns the counter
/// and advances it by one, so the next success starts one higher.
pub open spec fn allocated_ids(start: KittyId, n: nat) -> Seq<KittyId>
    decreases n,
{
    if n == 0 {
        Seq::empty()
    } else {
        seq![start] + allocated_ids((start + 1) as KittyId, (n - 1) as nat)
    }
}

/// Allocator law: any run of successful allocations hands out consecutive
/// ids, in order of the calls. In particular, `n` successes from a fresh
/// counter return exactly 0, 1, ..., n-1; the counter never decreases, and a
/// counter at the maximum only ever fails, unchanged, with
/// `Error::IdSpaceExhausted`, as `get_next_id`'s contract states.
pub proof fn lemma_allocated_ids_consecutive(start: KittyId, n: nat)
    requires
        start + n <= u32::MAX,
    ensures
        allocated_ids(start, n).len() == n,
        forall|i: int| 0 <= i < n ==> allocated_ids(start, n)[i] == start + i,
    decreases n,
{
    if n > 0 {
        lemma_allocated_ids_consecutive((start + 1) as KittyId, (n - 1) as nat);
    }
}

/// Transfer law: after the owner `a` hands an entity to `b`, the entity is
/// still stored and `b` owns it, so `b` in turn meets every success
/// condition of handing it back; and restoring it to `a` yields the
/// ownership table exactly as it stood before. The hypotheses are `transfer`'s success
/// postconditions, so two opposite transfers in a row always succeed and
/// cancel out.
pub proof fn lemma_transfer_round_trip(
    pre: Pallet,
    mid: Pallet,
    a: AccountId,
    b: AccountId,
    kitty_id: KittyId,
)
    requires
        pre.wf(),
        mid.wf(),
        pre.entities@.contains_key(kitty_id),
        pre.owners@[kitty_id] == a,
        mid.entities@ == pre.entities@,
        mid.owners@ == pre.owners@.insert(kitty_id, b),
    ensures
        mid.entities@.contains_key(kitty_id),
        mid.owners@[kitty_id] == b,
        mid.owners@.insert(kitty_id, a) == pre.owners@,
{
    assert(pre.owners@.contains_key(kitty_id));
    assert(mid.owners@.insert(kitty_id, a) =~= pre.owners@);
}

/// Marketplace law: a successful listing by the owner leaves the entity
/// stored, listed and owned as before, so any other account that can cover
/// the price meets every success condition of `buy` — none of `buy`'s
/// rejection conditions holds. The hypotheses on `mid` are `sale`'s success
/// postconditions.
pub proof fn lemma_listed_is_purchasable(
    pre: Pallet,
    mid: Pallet,
    seller: AccountId,
    buyer: AccountId,
    kitty_id: KittyId,
)
    requires
        pre.wf(),
        mid.wf(),
        pre.entities@.contains_key(kitty_id),
        pre.owners@[kitty_id] == seller,
        !pre.on_sale@.contains_key(kitty_id),
        mid.entities@ == pre.entities@,
        mid.owners@ == pre.owners@,
        mid.on_sale@ == pre.on_sale@.insert(kitty_id, ()),
        mid.escrow == pre.escrow,
        mid.price == pre.price,
        buyer != seller,
        mid.escrow.free_of(buyer) >= mid.price,
    ensures
        mid.entities@.contains_key(kitty_id),
        mid.owners@[kitty_id] != buyer,
        mid.on_sale@.contains_key(kitty_id),
        mid.escrow.free_of(buyer) >= mid.price,
{
}

} // verus!
