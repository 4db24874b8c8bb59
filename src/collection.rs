//! The collection contract: the instance registry, the authentication gate,
//! the minting steps and the queries.

use vstd::prelude::*;

use crate::codec::{
    le_val, lemma_u128_le_injective, lemma_u128_le_round_trip, u128_from_le, u128_le, u128_to_le,
};
use crate::store::{stored, Store};
use crate::types::{forward, AlkaneId, AlkaneTransfer, CallResponse, Cellpack, CollectionError, Context};

verus! {

/// How many orbitals the collection can ever hold.
pub const MAX_SUPPLY: u128 = 5;

/// Realm of the template contract that mints an orbital's asset.
pub const TEMPLATE_BLOCK: u128 = 6;

/// Sequence of the template contract that mints an orbital's asset.
pub const DOGI_ORBITAL_TEMPLATE_ID: u128 = 0x378;

/// Realm of the identities that the host gives newly created instances.
pub const INSTANCE_BLOCK: u128 = 2;

/// Units of the collection token issued to the contract itself at initialization.
pub const ADMIN_TOKEN_SUPPLY: u128 = 10;

/// The collection token's total supply, as reported to callers.
pub const TOTAL_SUPPLY: u128 = 1;

/// Length of a stored instance record.
pub const RECORD_LEN: usize = 32;

/// Storage key of the instance count: the ASCII text `/instances`.
pub open spec fn instances_key() -> Seq<u8> {
    seq![47u8, 105, 110, 115, 116, 97, 110, 99, 101, 115]
}

/// Storage key of the one-time initialization marker: the ASCII text `/initialized`.
pub open spec fn initialized_key() -> Seq<u8> {
    seq![47u8, 105, 110, 105, 116, 105, 97, 108, 105, 122, 101, 100]
}

/// Storage key prefix of the seen-marker table: the ASCII text `/seen/`.
pub open spec fn seen_prefix() -> Seq<u8> {
    seq![47u8, 115, 101, 101, 110, 47]
}

/// Storage key of the record at 1-based storage index `k`.
pub open spec fn record_key(k: u128) -> Seq<u8> {
    instances_key() + u128_le(k)
}

/// The 32-byte record of an identity: realm, then sequence, each little-endian.
pub open spec fn encode_id(id: AlkaneId) -> Seq<u8> {
    u128_le(id.block) + u128_le(id.tx)
}

/// The identity that a 32-byte record holds.
pub open spec fn decode_id(b: Seq<u8>) -> AlkaneId {
    AlkaneId { block: le_val(b.subrange(0, 16)) as u128, tx: le_val(b.subrange(16, 32)) as u128 }
}

/// The instance count held in `m`: zero unless a 16-byte value is stored.
pub open spec fn count_in(m: Map<Seq<u8>, Seq<u8>>) -> u128 {
    let b = stored(m, instances_key());
    if b.len() == 16 {
        le_val(b) as u128
    } else {
        0
    }
}

/// The state after recording `id` as the next instance, where the count can grow.
pub open spec fn with_instance(m: Map<Seq<u8>, Seq<u8>>, id: AlkaneId) -> Map<Seq<u8>, Seq<u8>> {
    let n = (count_in(m) + 1) as u128;
    m.insert(record_key(n), encode_id(id)).insert(instances_key(), u128_le(n))
}

/// What looking up the 0-based public index `index` in `m` gives.
pub open spec fn lookup_in(m: Map<Seq<u8>, Seq<u8>>, index: u128) -> Result<AlkaneId, CollectionError> {
    if index < u128::MAX && stored(m, record_key((index + 1) as u128)).len() == 32 {
        Ok(decode_id(stored(m, record_key((index + 1) as u128))))
    } else {
        Err(CollectionError::CorruptState)
    }
}

/// Whether `m` holds the one-time initialization marker.
pub open spec fn is_initialized(m: Map<Seq<u8>, Seq<u8>>) -> bool {
    stored(m, initialized_key()).len() > 0
}

/// The state after setting the initialization marker.
pub open spec fn mark_initialized(m: Map<Seq<u8>, Seq<u8>>) -> Map<Seq<u8>, Seq<u8>> {
    m.insert(initialized_key(), seq![1u8])
}

/// Whether a call with `incoming` transfers to the contract `myself` is
/// authorized: exactly one transfer, of at least one unit of its own token.
pub open spec fn is_admin_call(myself: AlkaneId, incoming: Seq<AlkaneTransfer>) -> bool {
    &&& incoming.len() == 1
    &&& incoming[0].id == myself
    &&& incoming[0].value >= 1
}

/// The template contract that mints an orbital's asset.
pub open spec fn template_id() -> AlkaneId {
    AlkaneId { block: TEMPLATE_BLOCK, tx: DOGI_ORBITAL_TEMPLATE_ID }
}

/// Whether `c` asks the template contract (operation code 0) to mint the
/// orbital with 0-based ordinal `ordinal`.
pub open spec fn is_mint_call(c: Cellpack, ordinal: u128) -> bool {
    c.target == template_id() && c.inputs@ == seq![0u128, ordinal]
}

/// The identity of the instance created when the host's sequence reads `sequence`.
pub open spec fn instance_id(sequence: u128) -> AlkaneId {
    AlkaneId { block: INSTANCE_BLOCK, tx: sequence }
}

/// A run of mints within one invocation: how many are still to be made, and
/// the response gathered so far.
pub struct MintRun {
    pub remaining: u128,
    pub response: CallResponse,
}

/// Decoding the record of an identity gives it back.
pub proof fn lemma_decode_encode(id: AlkaneId)
    ensures
        encode_id(id).len() == 32,
        decode_id(encode_id(id)) == id,
{
    lemma_u128_le_round_trip(id.block);
    lemma_u128_le_round_trip(id.tx);
    assert(encode_id(id).subrange(0, 16) =~= u128_le(id.block));
    assert(encode_id(id).subrange(16, 32) =~= u128_le(id.tx));
}

/// Record keys of distinct indices differ, and none is the count key.
pub proof fn lemma_record_keys_distinct(k: u128, j: u128)
    ensures
        record_key(k) != instances_key(),
        k != j ==> record_key(k) != record_key(j),
{
    lemma_u128_le_round_trip(k);
    assert(record_key(k).len() == 26);
    if k != j {
        lemma_u128_le_injective(k, j);
        if record_key(k) == record_key(j) {
            assert(u128_le(k) =~= record_key(k).subrange(10, 26));
            assert(u128_le(j) =~= record_key(j).subrange(10, 26));
        }
    }
}

/// The storage key of the instance count.
fn instances_key_bytes() -> (r: Vec<u8>)
    ensures
        r@ == instances_key(),
{
    let r = vec![47u8, 105, 110, 115, 116, 97, 110, 99, 101, 115];
    assert(r@ =~= instances_key());
    r
}

/// The storage key of the initialization marker.
fn initialized_key_bytes() -> (r: Vec<u8>)
    ensures
        r@ == initialized_key(),
{
    let r = vec![47u8, 105, 110, 105, 116, 105, 97, 108, 105, 122, 101, 100];
    assert(r@ =~= initialized_key());
    r
}

/// The storage key of the record at 1-based storage index `k`.
fn record_key_bytes(k: u128) -> (r: Vec<u8>)
    ensures
        r@ == record_key(k),
{
    let mut r = instances_key_bytes();
    let mut tail = u128_to_le(k);
    r.append(&mut tail);
    r
}

/// The 32-byte record of an identity.
pub fn encode_alkane_id(id: &AlkaneId) -> (r: Vec<u8>)
    ensures
        r@ == encode_id(*id),
{
    let mut r = u128_to_le(id.block);
    let mut tail = u128_to_le(id.tx);
    r.append(&mut tail);
    r
}

/// The collection contract over its persistent state.
pub struct GigaDogiCollection {
    store: Store,
}

impl View for GigaDogiCollection {
    type V = Map<Seq<u8>, Seq<u8>>;

    closed spec fn view(&self) -> Map<Seq<u8>, Seq<u8>> {
        self.store@
    }
}

impl GigaDogiCollection {
    pub closed spec fn wf(&self) -> bool {
        self.store.wf()
    }

    /// A collection over empty state.
    pub fn new() -> (r: GigaDogiCollection)
        ensures
            r.wf(),
            r@ == Map::<Seq<u8>, Seq<u8>>::empty(),
    {
        GigaDogiCollection { store: Store::new() }
    }

    /// A collection over state kept earlier.
    pub fn from_store(store: Store) -> (r: GigaDogiCollection)
        requires
            store.wf(),
        ensures
            r.wf(),
            r@ == store@,
    {
        GigaDogiCollection { store }
    }

    /// The persistent state.
    pub fn store(&self) -> (r: &Store)
        requires
            self.wf(),
        ensures
            r.wf(),
            r@ == self@,
    {
        &self.store
    }

    /// Number of orbitals minted so far; zero where none is recorded.
    pub fn instances_count(&self) -> (r: u128)
        requires
            self.wf(),
        ensures
            r == count_in(self@),
    {
        let b = self.store.get(&instances_key_bytes());
        if b.len() == 16 {
            proof {
                assert(b@.subrange(0, 16) =~= b@);
            }
            u128_from_le(&b, 0)
        } else {
            0
        }
    }

    /// Records `count` as the number of orbitals.
    pub fn set_instances_count(&mut self, count: u128)
        requires
            old(self).wf(),
        ensures
            final(self).wf(),
            final(self)@ == old(self)@.insert(instances_key(), u128_le(count)),
    {
        self.store.set(instances_key_bytes(), u128_to_le(count));
    }

    /// Records `instance_id` at the next storage index and returns the new
    /// count; fails, changing nothing, where the count would overflow.
    pub fn add_instance(&mut self, instance_id: &AlkaneId) -> (r: Result<u128, CollectionError>)
        requires
            old(self).wf(),
        ensures
            final(self).wf(),
            count_in(old(self)@) < u128::MAX ==> r == Ok::<u128, CollectionError>(
                (count_in(old(self)@) + 1) as u128,
            ) && final(self)@ == with_instance(old(self)@, *instance_id),
            count_in(old(self)@) == u128::MAX ==> r == Err::<u128, CollectionError>(
                CollectionError::CounterOverflow,
            ) && final(self)@ == old(self)@,
    {
        let count = self.instances_count();
        let new_count = match count.checked_add(1) {
            Some(n) => n,
            None => {
                return Err(CollectionError::CounterOverflow);
            },
        };
        let bytes = encode_alkane_id(instance_id);
        self.store.set(record_key_bytes(new_count), bytes);
        self.set_instances_count(new_count);
        Ok(new_count)
    }

    /// The identity recorded at the 0-based public index `index`, which is
    /// stored at index `index + 1`; `CorruptState` where that record is not
    /// 32 bytes long (as where nothing is recorded there).
    pub fn lookup_instance(&self, index: u128) -> (r: Result<AlkaneId, CollectionError>)
        requires
            self.wf(),
        ensures
            r == lookup_in(self@, index),
    {
        if index == u128::MAX {
            return Err(CollectionError::CorruptState);
        }
        let storage_index = index + 1;
        let bytes = self.store.get(&record_key_bytes(storage_index));
        if bytes.len() != RECORD_LEN {
            return Err(CollectionError::CorruptState);
        }
        let block = u128_from_le(&bytes, 0);
        let tx = u128_from_le(&bytes, 16);
        Ok(AlkaneId { block, tx })
    }
    /// Sets the one-time marker and issues the contract `ADMIN_TOKEN_SUPPLY`
    /// units of its own token, after forwarding the incoming transfers; fails,
    /// changing nothing, where the marker is already set.
    pub fn initialize(&mut self, context: &Context) -> (r: Result<CallResponse, CollectionError>)
        requires
            old(self).wf(),
        ensures
            final(self).wf(),
            is_initialized(old(self)@) ==> r == Err::<CallResponse, CollectionError>(
                CollectionError::AlreadyInitialized,
            ) && final(self)@ == old(self)@,
            !is_initialized(old(self)@) ==> r.is_ok() && final(self)@ == mark_initialized(
                old(self)@,
            ),
            r matches Ok(resp) ==> resp.alkanes@ == context.incoming_alkanes@.push(
                (AlkaneTransfer { id: context.myself, value: ADMIN_TOKEN_SUPPLY }),
            ) && resp.data@.len() == 0,
    {
        let marker = self.store.get(&initialized_key_bytes());
        if marker.len() > 0 {
            return Err(CollectionError::AlreadyInitialized);
        }
        let marker: Vec<u8> = vec![1u8];
        assert(marker@ =~= seq![1u8]);
        self.store.set(initialized_key_bytes(), marker);
        let mut response = forward(&context.incoming_alkanes);
        response.alkanes.push(AlkaneTransfer { id: context.myself, value: ADMIN_TOKEN_SUPPLY });
        Ok(response)
    }

    /// Checks that the call presents exactly one transfer, of at least one
    /// unit of the collection's own token.
    pub fn only_owner(&self, context: &Context) -> (r: Result<(), CollectionError>)
        ensures
            r == if is_admin_call(context.myself, context.incoming_alkanes@) {
                Ok::<(), CollectionError>(())
            } else {
                Err(CollectionError::AuthenticationError)
            },
    {
        if context.incoming_alkanes.len() != 1 {
            return Err(CollectionError::AuthenticationError);
        }
        let transfer = context.incoming_alkanes[0];
        if transfer.id != context.myself {
            return Err(CollectionError::AuthenticationError);
        }
        if transfer.value < 1 {
            return Err(CollectionError::AuthenticationError);
        }
        Ok(())
    }

    /// Starts an admin run of `count` mints, forwarding the incoming
    /// transfers; fails where the call is not authorized.
    pub fn auth_mint_orbital(&self, context: &Context, count: u128) -> (r: Result<MintRun, CollectionError>)
        ensures
            is_admin_call(context.myself, context.incoming_alkanes@) == r.is_ok(),
            r matches Err(e) ==> e == CollectionError::AuthenticationError,
            r matches Ok(run) ==> run.remaining == count && run.response.alkanes@
                == context.incoming_alkanes@ && run.response.data@.len() == 0,
    {
        let response = forward(&context.incoming_alkanes);
        self.only_owner(context)?;
        Ok(MintRun { remaining: count, response })
    }

    /// Starts a run of one mint, open to any caller, forwarding the incoming
    /// transfers.
    pub fn mint_orbital(&self, context: &Context) -> (r: MintRun)
        ensures
            r.remaining == 1,
            r.response.alkanes@ == context.incoming_alkanes@,
            r.response.data@.len() == 0,
    {
        MintRun { remaining: 1, response: forward(&context.incoming_alkanes) }
    }

    /// The next call that `run` needs made to the template contract: none
    /// where the run is complete, `SupplyExhausted` where every orbital is
    /// already minted.
    pub fn next_mint(&self, run: &MintRun) -> (r: Result<Option<Cellpack>, CollectionError>)
        requires
            self.wf(),
        ensures
            run.remaining == 0 ==> r matches Ok(None),
            run.remaining > 0 && count_in(self@) >= MAX_SUPPLY ==> r == Err::<
                Option<Cellpack>,
                CollectionError,
            >(CollectionError::SupplyExhausted),
            run.remaining > 0 && count_in(self@) < MAX_SUPPLY ==> (r matches Ok(Some(c))
                && is_mint_call(c, count_in(self@))),
    {
        if run.remaining == 0 {
            return Ok(None);
        }
        let index = self.instances_count();
        if index >= self.max_mints() {
            return Err(CollectionError::SupplyExhausted);
        }
        let inputs: Vec<u128> = vec![0u128, index];
        assert(inputs@ =~= seq![0u128, index]);
        Ok(Some(Cellpack { target: AlkaneId { block: TEMPLATE_BLOCK, tx: DOGI_ORBITAL_TEMPLATE_ID }, inputs }))
    }

    /// Records the orbital that the template contract just created, whose
    /// identity the host's sequence value `sequence` read after the call
    /// gives, and returns the first asset that the call handed back. Fails,
    /// changing nothing, with `SupplyExhausted` where every orbital is
    /// already minted, and with `MintFailed` where the call handed back none.
    pub fn create_mint_transfer(&mut self, sequence: u128, returned: &Vec<AlkaneTransfer>) -> (r: Result<AlkaneTransfer, CollectionError>)
        requires
            old(self).wf(),
        ensures
            final(self).wf(),
            count_in(old(self)@) >= MAX_SUPPLY ==> r == Err::<AlkaneTransfer, CollectionError>(
                CollectionError::SupplyExhausted,
            ),
            count_in(old(self)@) < MAX_SUPPLY && returned@.len() == 0 ==> r == Err::<
                AlkaneTransfer,
                CollectionError,
            >(CollectionError::MintFailed),
            count_in(old(self)@) < MAX_SUPPLY && returned@.len() > 0 ==> r == Ok::<
                AlkaneTransfer,
                CollectionError,
            >(returned@[0]),
            r.is_ok() ==> final(self)@ == with_instance(old(self)@, instance_id(sequence)),
            r.is_err() ==> final(self)@ == old(self)@,
    {
        let index = self.instances_count();
        if index >= self.max_mints() {
            return Err(CollectionError::SupplyExhausted);
        }
        if returned.len() < 1 {
            return Err(CollectionError::MintFailed);
        }
        let orbital_id = AlkaneId { block: INSTANCE_BLOCK, tx: sequence };
        let added = self.add_instance(&orbital_id);
        match added {
            Ok(_) => Ok(returned[0]),
            Err(e) => Err(e),
        }
    }

    /// Completes the current mint of `run` with the call's outcome: on
    /// success the minted asset joins the response and one mint fewer
    /// remains; on failure neither the state nor the run changes.
    pub fn record_mint(&mut self, run: &mut MintRun, sequence: u128, returned: &Vec<AlkaneTransfer>) -> (r: Result<(), CollectionError>)
        requires
            old(self).wf(),
            old(run).remaining > 0,
        ensures
            final(self).wf(),
            count_in(old(self)@) >= MAX_SUPPLY ==> r == Err::<(), CollectionError>(
                CollectionError::SupplyExhausted,
            ),
            count_in(old(self)@) < MAX_SUPPLY && returned@.len() == 0 ==> r == Err::<
                (),
                CollectionError,
            >(CollectionError::MintFailed),
            count_in(old(self)@) < MAX_SUPPLY && returned@.len() > 0 ==> r is Ok,
            r is Ok ==> final(self)@ == with_instance(old(self)@, instance_id(sequence))
                && final(run).remaining == old(run).remaining - 1
                && final(run).response.alkanes@ == old(run).response.alkanes@.push(returned@[0])
                && final(run).response.data@ == old(run).response.data@,
            r is Err ==> final(self)@ == old(self)@ && final(run).remaining == old(run).remaining
                && final(run).response.alkanes@ == old(run).response.alkanes@
                && final(run).response.data@ == old(run).response.data@,
    {
        let transfer = self.create_mint_transfer(sequence, returned)?;
        run.response.alkanes.push(transfer);
        run.remaining = run.remaining - 1;
        Ok(())
    }

    /// Storage key of the seen-marker for `hash`.
    pub fn seen_pointer(&self, hash: &Vec<u8>) -> (r: Vec<u8>)
        ensures
            r@ == seen_prefix() + hash@,
    {
        let mut key: Vec<u8> = vec![47u8, 115, 101, 101, 110, 47];
        let mut tail = hash.clone();
        assert(tail@ =~= hash@);
        key.append(&mut tail);
        assert(key@ =~= seen_prefix() + hash@);
        key
    }

    /// The collection's fixed supply.
    pub fn max_mints(&self) -> (r: u128)
        ensures
            r == MAX_SUPPLY,
    {
        MAX_SUPPLY
    }

    /// How many orbitals one block may mint: the whole collection.
    pub fn max_mint_per_block(&self) -> (r: u32)
        ensures
            r == 5,
    {
        5
    }
}

} // verus!
