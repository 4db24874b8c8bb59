use giga_dogi::collection::{MAX_SUPPLY, DOGI_ORBITAL_TEMPLATE_ID};
use giga_dogi::metadata::{DOGI_ATTRIBUTES_0, DOGI_URL_4};
use giga_dogi::{
    AlkaneId, AlkaneTransfer, CallResponse, CollectionError, Context, GigaDogiCollection, MintRun,
};

const MYSELF: AlkaneId = AlkaneId { block: 2, tx: 7 };

fn context(incoming: Vec<AlkaneTransfer>) -> Context {
    Context { myself: MYSELF, incoming_alkanes: incoming }
}

/// Plays the host for a run: each call to the template contract creates one
/// instance and advances the sequence counter by one.
fn run_mints(
    c: &mut GigaDogiCollection,
    mut run: MintRun,
    sequence: &mut u128,
) -> Result<CallResponse, CollectionError> {
    while let Some(cellpack) = c.next_mint(&run)? {
        assert_eq!(cellpack.target, AlkaneId { block: 6, tx: DOGI_ORBITAL_TEMPLATE_ID });
        assert_eq!(cellpack.inputs, vec![0u128, c.instances_count()]);
        *sequence += 1;
        let returned = vec![AlkaneTransfer { id: AlkaneId { block: 2, tx: *sequence }, value: 1 }];
        c.record_mint(&mut run, *sequence, &returned)?;
    }
    Ok(run.response)
}

fn mint_once(c: &mut GigaDogiCollection, sequence: &mut u128) -> Result<CallResponse, CollectionError> {
    let run = c.mint_orbital(&context(vec![]));
    run_mints(c, run, sequence)
}

fn admin_token(value: u128) -> AlkaneTransfer {
    AlkaneTransfer { id: MYSELF, value }
}

#[test]
fn five_mints_then_supply_exhausted() {
    let mut c = GigaDogiCollection::new();
    let mut sequence: u128 = 100;
    for n in 0..5u128 {
        assert_eq!(c.instances_count(), n);
        let r = mint_once(&mut c, &mut sequence).unwrap();
        assert_eq!(r.alkanes.len(), 1);
        assert_eq!(c.instances_count(), n + 1);
    }
    let count = c.get_orbital_count(&context(vec![]));
    assert_eq!(count.data, 5u128.to_le_bytes().to_vec());
    assert_eq!(mint_once(&mut c, &mut sequence).unwrap_err(), CollectionError::SupplyExhausted);
    assert_eq!(c.instances_count(), MAX_SUPPLY);
    let ident = c.get_instance_identifier(&context(vec![]), 0).unwrap();
    assert_eq!(String::from_utf8(ident.data).unwrap(), "2:101");
}

#[test]
fn lookups_follow_mint_order() {
    let mut c = GigaDogiCollection::new();
    let mut sequence: u128 = 40;
    for _ in 0..3 {
        mint_once(&mut c, &mut sequence).unwrap();
    }
    assert_eq!(c.lookup_instance(0), Ok(AlkaneId { block: 2, tx: 41 }));
    assert_eq!(c.lookup_instance(1), Ok(AlkaneId { block: 2, tx: 42 }));
    assert_eq!(c.lookup_instance(2), Ok(AlkaneId { block: 2, tx: 43 }));
    assert_eq!(c.lookup_instance(3), Err(CollectionError::CorruptState));
    assert_eq!(c.lookup_instance(u128::MAX), Err(CollectionError::CorruptState));
}

#[test]
fn add_instance_round_trip() {
    let mut c = GigaDogiCollection::new();
    let id = AlkaneId { block: 0x0102_0304_0506_0708_090a_0b0c_0d0e_0f10, tx: u128::MAX - 3 };
    assert_eq!(c.add_instance(&id), Ok(1));
    assert_eq!(c.lookup_instance(0), Ok(id));
    let raw = c.get_instance_alkane_id(&context(vec![]), 0).unwrap();
    let mut expected = id.block.to_le_bytes().to_vec();
    expected.extend_from_slice(&id.tx.to_le_bytes());
    assert_eq!(raw.data, expected);
}

#[test]
fn records_are_stored_at_one_based_keys() {
    let mut c = GigaDogiCollection::new();
    let id = AlkaneId { block: 2, tx: 9 };
    c.add_instance(&id).unwrap();
    let mut key = b"/instances".to_vec();
    key.extend_from_slice(&1u128.to_le_bytes());
    let mut record = 2u128.to_le_bytes().to_vec();
    record.extend_from_slice(&9u128.to_le_bytes());
    assert_eq!(c.store().get(&key), record);
    assert_eq!(c.store().get(&b"/instances".to_vec()), 1u128.to_le_bytes().to_vec());
}

#[test]
fn counter_overflow_is_refused() {
    let mut c = GigaDogiCollection::new();
    c.set_instances_count(u128::MAX);
    assert_eq!(c.instances_count(), u128::MAX);
    assert_eq!(c.add_instance(&AlkaneId { block: 2, tx: 1 }), Err(CollectionError::CounterOverflow));
    assert_eq!(c.instances_count(), u128::MAX);
}

#[test]
fn corrupt_record_is_reported() {
    let mut store = giga_dogi::Store::new();
    let mut key = b"/instances".to_vec();
    key.extend_from_slice(&1u128.to_le_bytes());
    store.set(key, vec![1, 2, 3]);
    let c = GigaDogiCollection::from_store(store);
    assert_eq!(c.lookup_instance(0), Err(CollectionError::CorruptState));
    assert_eq!(
        c.get_instance_identifier(&context(vec![]), 0).unwrap_err(),
        CollectionError::CorruptState
    );
}

#[test]
fn mint_without_returned_asset_fails() {
    let mut c = GigaDogiCollection::new();
    let mut run = c.mint_orbital(&context(vec![]));
    assert!(c.next_mint(&run).unwrap().is_some());
    assert_eq!(c.record_mint(&mut run, 5, &vec![]), Err(CollectionError::MintFailed));
    assert_eq!(c.instances_count(), 0);
    assert_eq!(run.remaining, 1);
}

#[test]
fn mint_forwards_incoming_and_returns_first_asset() {
    let mut c = GigaDogiCollection::new();
    let other = AlkaneTransfer { id: AlkaneId { block: 4, tx: 4 }, value: 9 };
    let mut run = c.mint_orbital(&context(vec![other]));
    let a = AlkaneTransfer { id: AlkaneId { block: 2, tx: 50 }, value: 1 };
    let b = AlkaneTransfer { id: AlkaneId { block: 2, tx: 51 }, value: 1 };
    c.record_mint(&mut run, 50, &vec![a, b]).unwrap();
    assert_eq!(run.remaining, 0);
    assert_eq!(run.response.alkanes, vec![other, a]);
    assert!(c.next_mint(&run).unwrap().is_none());
}

#[test]
fn auth_mint_requires_single_own_token() {
    let c = GigaDogiCollection::new();
    let foreign = AlkaneTransfer { id: AlkaneId { block: 2, tx: 8 }, value: 5 };
    let cases = vec![
        vec![],
        vec![admin_token(1), admin_token(1)],
        vec![foreign],
        vec![admin_token(0)],
    ];
    for incoming in cases {
        assert_eq!(
            c.auth_mint_orbital(&context(incoming), 1).err(),
            Some(CollectionError::AuthenticationError)
        );
    }
    let run = c.auth_mint_orbital(&context(vec![admin_token(1)]), 3).unwrap();
    assert_eq!(run.remaining, 3);
    assert_eq!(run.response.alkanes, vec![admin_token(1)]);
}

#[test]
fn auth_mint_mints_count_orbitals() {
    let mut c = GigaDogiCollection::new();
    let mut sequence: u128 = 0;
    let run = c.auth_mint_orbital(&context(vec![admin_token(2)]), 4).unwrap();
    let r = run_mints(&mut c, run, &mut sequence).unwrap();
    assert_eq!(r.alkanes.len(), 5);
    assert_eq!(r.alkanes[0], admin_token(2));
    assert_eq!(c.instances_count(), 4);
    let run = c.auth_mint_orbital(&context(vec![admin_token(2)]), 2).unwrap();
    assert_eq!(run_mints(&mut c, run, &mut sequence).unwrap_err(), CollectionError::SupplyExhausted);
}

#[test]
fn initialize_only_once() {
    let mut c = GigaDogiCollection::new();
    let r = c.initialize(&context(vec![])).unwrap();
    assert_eq!(r.alkanes, vec![AlkaneTransfer { id: MYSELF, value: 10 }]);
    assert!(r.data.is_empty());
    assert_eq!(c.initialize(&context(vec![])).err(), Some(CollectionError::AlreadyInitialized));
}

#[test]
fn attributes_and_data_bounds() {
    let c = GigaDogiCollection::new();
    for i in 0..5u128 {
        assert!(c.get_attributes(&context(vec![]), i).is_ok());
        assert!(c.get_data(&context(vec![]), i).is_ok());
        assert_eq!(
            c.get_attributes(&context(vec![]), i).unwrap().data,
            c.get_attributes(&context(vec![]), i).unwrap().data
        );
    }
    for i in [5u128, 6, u128::MAX] {
        assert_eq!(c.get_attributes(&context(vec![]), i).err(), Some(CollectionError::IndexOutOfBounds));
        assert_eq!(c.get_data(&context(vec![]), i).err(), Some(CollectionError::IndexOutOfBounds));
    }
    assert_eq!(c.get_attributes(&context(vec![]), 0).unwrap().data, DOGI_ATTRIBUTES_0.as_bytes());
    assert_eq!(c.get_data(&context(vec![]), 4).unwrap().data, DOGI_URL_4.as_bytes());
    assert!(c.generate_dogi_attributes(1).unwrap().contains("Bitcoin Crown"));
    assert!(c.get_cloudinary_url(0).unwrap().ends_with("dogi5_iig8fx.png"));
}

#[test]
fn fixed_queries() {
    let c = GigaDogiCollection::new();
    let ctx = context(vec![admin_token(3)]);
    assert_eq!(c.get_name(&ctx).data, b"Giga Dogi".to_vec());
    assert_eq!(c.get_symbol(&ctx).data, b"giga-dogi".to_vec());
    assert_eq!(c.get_name(&ctx).alkanes, vec![admin_token(3)]);
    assert_eq!(c.get_total_supply(&ctx).data, 1u128.to_le_bytes().to_vec());
    assert_eq!(c.get_orbital_count(&ctx).data, 0u128.to_le_bytes().to_vec());
    assert_eq!(c.max_mints(), 5);
    assert_eq!(c.max_mint_per_block(), 5);
    assert_eq!(c.seen_pointer(&vec![9, 8]), b"/seen/\x09\x08".to_vec());
}

#[test]
fn identifier_of_large_values() {
    let mut c = GigaDogiCollection::new();
    c.add_instance(&AlkaneId { block: 0, tx: u128::MAX }).unwrap();
    c.add_instance(&AlkaneId { block: 10, tx: 1234567890 }).unwrap();
    let a = c.get_instance_identifier(&context(vec![]), 0).unwrap();
    assert_eq!(String::from_utf8(a.data).unwrap(), format!("0:{}", u128::MAX));
    let b = c.get_instance_identifier(&context(vec![]), 1).unwrap();
    assert_eq!(String::from_utf8(b.data).unwrap(), "10:1234567890");
}

#[test]
fn store_get_and_set() {
    let mut s = giga_dogi::Store::new();
    assert!(s.get(&vec![1]).is_empty());
    s.set(vec![1], vec![5]);
    s.set(vec![2], vec![6]);
    s.set(vec![1], vec![7, 7]);
    assert_eq!(s.get(&vec![1]), vec![7, 7]);
    assert_eq!(s.get(&vec![2]), vec![6]);
}
