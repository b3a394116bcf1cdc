use cfxcore::hash::{Address, H256};
use cfxcore::signal::{SignalInfo, SignalLocation, SlotInfo};
use cfxcore::statedb::{
    commit_outcome, storage_root_of, Error, StateDb, StateDbParameters, StorageRoot,
};
use cfxcore::storage::{RemovedEntry, StorageErrorKind, StorageKey, StorageState};
use cfxcore::uint::U256;

fn addr(i: u8) -> Address {
    Address([i; 20])
}

fn u(value: u64) -> U256 {
    U256::from_u64(value)
}

fn parameters() -> StateDbParameters {
    StateDbParameters {
        storage_interest_staking_contract_address: addr(1),
        global_slot_tx_queue_address: addr(2),
        global_slot_tx_account_list_address: addr(3),
        initial_annual_interest_rate: u(40),
        accumulated_interest_rate_scale: u(1 << 40),
    }
}

fn dec_u64(raw: &[u8]) -> Result<u64, rlp::DecoderError> {
    rlp::decode(raw)
}

fn enc_u64(value: &u64) -> Vec<u8> {
    rlp::encode(value)
}

fn dec_string(raw: &[u8]) -> Result<String, rlp::DecoderError> {
    rlp::decode(raw)
}

fn enc_string(value: &String) -> Vec<u8> {
    rlp::encode(value)
}

fn dec_bytes(raw: &[u8]) -> Result<Vec<u8>, rlp::DecoderError> {
    rlp::decode(raw)
}

fn enc_bytes(value: &Vec<u8>) -> Vec<u8> {
    rlp::encode(value)
}

fn empty() -> StateDb {
    StateDb::new(StorageState::new(), parameters())
}

fn failing(kind: StorageErrorKind) -> StateDb {
    let mut db = empty();
    db.set_raw(StorageKey::new_account_key(&addr(9)), vec![1]).unwrap();
    db.get_storage_mut().set_fault(Some(kind));
    db
}

#[test]
fn storage_keeps_the_last_value_of_each_key() {
    let mut storage = StorageState::new();
    let key = StorageKey::new_storage_key(&addr(1), &[1, 2]);
    assert_eq!(storage.get(&key), Ok(None));
    assert_eq!(storage.set(key.clone(), vec![5]), Ok(()));
    assert_eq!(storage.set(StorageKey::new_storage_key(&addr(1), &[1]), vec![6]), Ok(()));
    assert_eq!(storage.set(key.clone(), vec![7, 8]), Ok(()));
    assert_eq!(storage.get(&key), Ok(Some(vec![7, 8])));
    assert_eq!(storage.get(&StorageKey::new_storage_key(&addr(1), &[1])), Ok(Some(vec![6])));
    assert_eq!(storage.get(&StorageKey::new_storage_key(&addr(2), &[1, 2])), Ok(None));
    assert_eq!(storage.get(&StorageKey::new_signal_key(&addr(1), &[1, 2])), Ok(None));
    assert_eq!(storage.delete(&key), Ok(Some(vec![7, 8])));
    assert_eq!(storage.delete(&key), Ok(None));
    assert_eq!(storage.get(&key), Ok(None));
    assert_eq!(storage.get(&StorageKey::new_storage_key(&addr(1), &[1])), Ok(Some(vec![6])));
}

#[test]
fn storage_with_a_fault_fails_and_keeps_its_entries() {
    let mut storage = StorageState::new();
    let key = StorageKey::new_account_key(&addr(1));
    storage.set(key.clone(), vec![5]).unwrap();
    storage.set_fault(Some(StorageErrorKind::OutOfMem));
    assert_eq!(storage.get(&key), Err(StorageErrorKind::OutOfMem));
    assert_eq!(storage.set(key.clone(), vec![6]), Err(StorageErrorKind::OutOfMem));
    assert_eq!(storage.delete(&key), Err(StorageErrorKind::OutOfMem));
    assert_eq!(storage.delete_all(&key), Err(StorageErrorKind::OutOfMem));
    storage.set_fault(None);
    assert_eq!(storage.get(&key), Ok(Some(vec![5])));
}

#[test]
fn keys_of_different_kinds_do_not_meet() {
    let a = addr(1);
    let keys = [
        StorageKey::new_account_key(&a),
        StorageKey::new_storage_root_key(&a),
        StorageKey::new_storage_key(&a, &[]),
        StorageKey::new_code_key(&a, &H256([0u8; 32])),
        StorageKey::new_deposit_list_key(&a),
        StorageKey::new_vote_list_key(&a),
        StorageKey::new_slot_tx_queue_key(&a),
        StorageKey::new_signal_key(&a, &[]),
        StorageKey::new_slot_key(&a, &[]),
    ];
    for i in 0..keys.len() {
        for j in 0..keys.len() {
            assert_eq!(keys[i].equals(&keys[j]), i == j);
            assert_eq!(keys[i].covers(&keys[j]), i == j);
        }
    }
}

#[test]
fn prefix_covers_the_keys_that_extend_it() {
    let prefix = StorageKey::new_storage_key(&addr(1), &[1, 2]);
    assert!(prefix.covers(&StorageKey::new_storage_key(&addr(1), &[1, 2])));
    assert!(prefix.covers(&StorageKey::new_storage_key(&addr(1), &[1, 2, 3])));
    assert!(!prefix.covers(&StorageKey::new_storage_key(&addr(1), &[1])));
    assert!(!prefix.covers(&StorageKey::new_storage_key(&addr(1), &[1, 3, 2])));
    assert!(!prefix.covers(&StorageKey::new_storage_key(&addr(2), &[1, 2, 3])));
    assert!(!prefix.covers(&StorageKey::new_slot_key(&addr(1), &[1, 2, 3])));
    assert!(StorageKey::new_storage_key(&addr(1), &[]).covers(&prefix));
}

#[test]
fn raw_values_are_stored_and_removed() {
    let mut db = empty();
    let key = StorageKey::new_storage_key(&addr(4), &[1]);
    assert_eq!(db.get_raw(key.clone()), Ok(None));
    assert_eq!(db.set_raw(key.clone(), vec![1, 2, 3]), Ok(()));
    assert_eq!(db.get_raw(key.clone()), Ok(Some(vec![1, 2, 3])));
    assert_eq!(db.delete(key.clone()), Ok(()));
    assert_eq!(db.get_raw(key.clone()), Ok(None));
    assert_eq!(db.delete(key.clone()), Ok(()));
}

#[test]
fn delete_all_removes_what_the_prefix_covers() {
    let mut db = empty();
    let a = addr(4);
    db.set_raw(StorageKey::new_storage_key(&a, &[1, 1]), vec![11]).unwrap();
    db.set_raw(StorageKey::new_storage_key(&a, &[1, 2]), vec![12]).unwrap();
    db.set_raw(StorageKey::new_storage_key(&a, &[2, 1]), vec![21]).unwrap();
    db.set_raw(StorageKey::new_storage_key(&addr(5), &[1, 1]), vec![51]).unwrap();
    db.set_raw(StorageKey::new_account_key(&a), vec![99]).unwrap();
    assert_eq!(db.delete_all(StorageKey::new_storage_key(&a, &[3])), Ok(None));
    let mut removed = db.delete_all(StorageKey::new_storage_key(&a, &[1])).unwrap().unwrap();
    removed.sort_by(|x, y| x.value.cmp(&y.value));
    assert_eq!(
        removed,
        vec![
            RemovedEntry { key: StorageKey::new_storage_key(&a, &[1, 1]), value: vec![11] },
            RemovedEntry { key: StorageKey::new_storage_key(&a, &[1, 2]), value: vec![12] },
        ]
    );
    assert_eq!(db.get_raw(StorageKey::new_storage_key(&a, &[1, 1])), Ok(None));
    assert_eq!(db.get_raw(StorageKey::new_storage_key(&a, &[1, 2])), Ok(None));
    assert_eq!(db.get_raw(StorageKey::new_storage_key(&a, &[2, 1])), Ok(Some(vec![21])));
    assert_eq!(db.get_raw(StorageKey::new_storage_key(&addr(5), &[1, 1])), Ok(Some(vec![51])));
    assert_eq!(db.get_raw(StorageKey::new_account_key(&a)), Ok(Some(vec![99])));
    assert_eq!(db.delete_all(StorageKey::new_storage_key(&a, &[1])), Ok(None));
}

#[test]
fn missing_key_fault_is_passed_over_on_writes_only() {
    let mut db = failing(StorageErrorKind::MPTKeyNotFound);
    let key = StorageKey::new_account_key(&addr(9));
    assert_eq!(db.set_raw(key.clone(), vec![2]), Ok(()));
    assert_eq!(db.set_total_issued_tokens(&u(5)), Ok(()));
    assert_eq!(db.get_raw(key.clone()), Err(Error::Storage(StorageErrorKind::MPTKeyNotFound)));
    assert_eq!(db.delete(key.clone()), Err(Error::Storage(StorageErrorKind::MPTKeyNotFound)));
    assert_eq!(
        db.delete_all(key.clone()),
        Err(Error::Storage(StorageErrorKind::MPTKeyNotFound))
    );
    assert_eq!(
        db.get_total_issued_tokens(),
        Err(Error::Storage(StorageErrorKind::MPTKeyNotFound))
    );
    // Nothing was written.
    db.get_storage_mut().set_fault(None);
    assert_eq!(db.get_raw(key), Ok(Some(vec![1])));
    assert_eq!(db.get_total_issued_tokens(), Ok(U256::zero()));
}

#[test]
fn other_faults_are_reported() {
    for kind in [StorageErrorKind::OutOfCapacity, StorageErrorKind::OutOfMem].iter() {
        let mut db = failing(*kind);
        let key = StorageKey::new_account_key(&addr(9));
        assert_eq!(db.set_raw(key.clone(), vec![2]), Err(Error::Storage(*kind)));
        assert_eq!(db.get_raw(key.clone()), Err(Error::Storage(*kind)));
        assert_eq!(db.delete(key.clone()), Err(Error::Storage(*kind)));
        assert_eq!(db.get(key.clone(), dec_u64), Err(Error::Storage(*kind)));
        assert_eq!(db.set(key.clone(), &5, enc_u64), Err(Error::Storage(*kind)));
        assert_eq!(db.get_annual_interest_rate(), Err(Error::Storage(*kind)));
        assert_eq!(db.set_annual_interest_rate(&u(1)), Err(Error::Storage(*kind)));
        assert_eq!(db.get_storage_layout(&addr(9)), Err(Error::Storage(*kind)));
        assert_eq!(db.delete_signal_info(&addr(9), &vec![1]), Err(Error::Storage(*kind)));
        db.get_storage_mut().set_fault(None);
        assert_eq!(db.get_raw(key), Ok(Some(vec![1])));
    }
}

#[test]
fn typed_values_go_through_their_encoding() {
    let mut db = empty();
    let key = StorageKey::new_storage_key(&addr(4), &[1]);
    assert_eq!(db.get(key.clone(), dec_u64), Ok(None));
    assert_eq!(db.set(key.clone(), &1000, enc_u64), Ok(()));
    assert_eq!(db.get_raw(key.clone()), Ok(Some(vec![0x82, 0x03, 0xe8])));
    assert_eq!(db.get(key.clone(), dec_u64), Ok(Some(1000)));
    assert_eq!(db.set(key.clone(), &String::from("cat"), enc_string), Ok(()));
    assert_eq!(db.get_raw(key.clone()), Ok(Some(vec![0x83, b'c', b'a', b't'])));
    assert_eq!(db.get(key.clone(), dec_string), Ok(Some(String::from("cat"))));
}

#[test]
fn value_of_another_type_is_a_decoder_error() {
    let mut db = empty();
    let key = StorageKey::new_storage_key(&addr(4), &[1]);
    db.set_raw(key.clone(), vec![0xc0]).unwrap();
    assert_eq!(db.get(key.clone(), dec_u64), Err(Error::Decoder(rlp::DecoderError::RlpExpectedToBeData)));
    db.set_raw(key.clone(), vec![0x82, 0x00, 0x01]).unwrap();
    assert_eq!(db.get(key, dec_u64), Err(Error::Decoder(rlp::DecoderError::RlpInvalidIndirection)));
}

#[test]
fn integers_are_stored_in_their_shortest_form() {
    let mut db = empty();
    let key = StorageKey::new_storage_key(&addr(1), b"total_issued_tokens");
    db.set_total_issued_tokens(&u(1000)).unwrap();
    assert_eq!(db.get_raw(key.clone()), Ok(Some(vec![0x82, 0x03, 0xe8])));
    db.set_total_issued_tokens(&U256::zero()).unwrap();
    assert_eq!(db.get_raw(key.clone()), Ok(Some(vec![0x80])));
    db.set_total_issued_tokens(&u(0x7f)).unwrap();
    assert_eq!(db.get_raw(key.clone()), Ok(Some(vec![0x7f])));
    db.set_total_issued_tokens(&u(0x80)).unwrap();
    assert_eq!(db.get_raw(key.clone()), Ok(Some(vec![0x81, 0x80])));
    db.set_total_issued_tokens(&U256::max_value()).unwrap();
    let mut longest = vec![0xa0];
    longest.extend_from_slice(&[0xff; 32]);
    assert_eq!(db.get_raw(key), Ok(Some(longest)));
    assert_eq!(db.get_total_issued_tokens(), Ok(U256::max_value()));
}

#[test]
fn stored_integers_are_read_back() {
    let mut db = empty();
    let big = U256 { w3: 1, w2: 2, w1: 3, w0: 4 };
    db.set_annual_interest_rate(&u(1)).unwrap();
    db.set_accumulate_interest_rate(&u(2)).unwrap();
    db.set_total_issued_tokens(&u(3)).unwrap();
    db.set_total_staking_tokens(&big).unwrap();
    db.set_total_storage_tokens(&u(5)).unwrap();
    assert_eq!(db.get_annual_interest_rate(), Ok(u(1)));
    assert_eq!(db.get_accumulate_interest_rate(), Ok(u(2)));
    assert_eq!(db.get_total_issued_tokens(), Ok(u(3)));
    assert_eq!(db.get_total_staking_tokens(), Ok(big));
    assert_eq!(db.get_total_storage_tokens(), Ok(u(5)));
}

#[test]
fn integers_not_stored_have_their_defaults() {
    let db = empty();
    assert_eq!(db.get_annual_interest_rate(), Ok(u(40)));
    assert_eq!(db.get_accumulate_interest_rate(), Ok(u(1 << 40)));
    assert_eq!(db.get_total_issued_tokens(), Ok(U256::zero()));
    assert_eq!(db.get_total_staking_tokens(), Ok(U256::zero()));
    assert_eq!(db.get_total_storage_tokens(), Ok(U256::zero()));
    let key = StorageKey::new_storage_key(&addr(1), &[1]);
    assert_eq!(db.get_u256(key.clone(), u(9)), Ok(u(9)));
    assert_eq!(cfxcore::statedb::stored_or(None, u(9)), u(9));
    assert_eq!(cfxcore::statedb::stored_or(Some(u(8)), u(9)), u(8));
}

#[test]
fn integers_are_kept_under_their_names_in_the_staking_account() {
    let mut db = empty();
    db.set_annual_interest_rate(&u(1)).unwrap();
    db.set_accumulate_interest_rate(&u(2)).unwrap();
    db.set_total_issued_tokens(&u(3)).unwrap();
    db.set_total_staking_tokens(&u(4)).unwrap();
    db.set_total_storage_tokens(&u(5)).unwrap();
    let names: [(&[u8], u8); 5] = [
        (b"interest_rate", 1),
        (b"accumulate_interest_rate", 2),
        (b"total_issued_tokens", 3),
        (b"total_staking_tokens", 4),
        (b"total_storage_tokens", 5),
    ];
    for (name, value) in names.iter() {
        assert_eq!(
            db.get_raw(StorageKey::new_storage_key(&addr(1), name)),
            Ok(Some(vec![*value]))
        );
        assert_eq!(db.get_raw(StorageKey::new_storage_key(&addr(2), name)), Ok(None));
    }
}

#[test]
fn stored_bytes_that_encode_no_integer_are_a_decoder_error() {
    let mut db = empty();
    let key = StorageKey::new_storage_key(&addr(1), b"total_issued_tokens");
    db.set_raw(key.clone(), vec![0x82, 0x00, 0x01]).unwrap();
    assert_eq!(
        db.get_total_issued_tokens(),
        Err(Error::Decoder(rlp::DecoderError::RlpInvalidIndirection))
    );
    let mut too_long = vec![0xa1];
    too_long.extend_from_slice(&[0xff; 33]);
    db.set_raw(key.clone(), too_long).unwrap();
    assert_eq!(db.get_total_issued_tokens(), Err(Error::Decoder(rlp::DecoderError::RlpIsTooBig)));
    db.set_raw(key, vec![0x82, 0x03, 0xe8]).unwrap();
    assert_eq!(db.get_total_issued_tokens(), Ok(u(1000)));
}

#[test]
fn storage_layout_is_kept_as_bytes() {
    let mut db = empty();
    assert_eq!(db.get_storage_layout(&addr(7)), Ok(None));
    assert_eq!(db.set_storage_layout(&addr(7), vec![0]), Ok(()));
    assert_eq!(db.get_storage_layout(&addr(7)), Ok(Some(vec![0])));
    assert_eq!(db.get_raw(StorageKey::new_storage_root_key(&addr(7))), Ok(Some(vec![0])));
    assert_eq!(db.get_storage_layout(&addr(8)), Ok(None));
}

#[test]
fn account_entries_are_read_under_their_kinds() {
    let mut db = empty();
    let a = addr(7);
    let code_hash = H256([5u8; 32]);
    db.set(StorageKey::new_account_key(&a), &1, enc_u64).unwrap();
    db.set(StorageKey::new_code_key(&a, &code_hash), &2, enc_u64).unwrap();
    db.set(StorageKey::new_deposit_list_key(&a), &3, enc_u64).unwrap();
    db.set(StorageKey::new_vote_list_key(&a), &4, enc_u64).unwrap();
    assert_eq!(db.get_account(&a, dec_u64), Ok(Some(1)));
    assert_eq!(db.get_code(&a, &code_hash, dec_u64), Ok(Some(2)));
    assert_eq!(db.get_code(&a, &H256([6u8; 32]), dec_u64), Ok(None));
    assert_eq!(db.get_deposit_list(&a, dec_u64), Ok(Some(3)));
    assert_eq!(db.get_vote_list(&a, dec_u64), Ok(Some(4)));
    assert_eq!(db.get_account(&addr(8), dec_u64), Ok(None));
}

#[test]
fn ready_list_is_kept_under_its_name() {
    let mut db = empty();
    assert_eq!(db.get_addresses_with_ready_slot_tx(dec_bytes), Ok(None));
    assert_eq!(db.set_addresses_with_ready_slot_tx(&vec![1, 2, 3], enc_bytes), Ok(()));
    assert_eq!(db.get_addresses_with_ready_slot_tx(dec_bytes), Ok(Some(vec![1, 2, 3])));
    assert_eq!(
        db.get_raw(StorageKey::new_storage_key(&addr(3), b"ready_list_key")),
        Ok(Some(vec![0x83, 1, 2, 3]))
    );
    assert_eq!(db.delete_addresses_with_ready_slot_tx(), Ok(()));
    assert_eq!(db.get_addresses_with_ready_slot_tx(dec_bytes), Ok(None));
}

#[test]
fn global_queues_are_kept_by_epoch_height() {
    let mut db = empty();
    assert_eq!(db.set_global_slot_tx_queue(0x0102, &7, enc_u64), Ok(()));
    assert_eq!(db.set_global_slot_tx_queue(0x0103, &8, enc_u64), Ok(()));
    assert_eq!(db.get_global_slot_tx_queue(0x0102, dec_u64), Ok(Some(7)));
    assert_eq!(db.get_global_slot_tx_queue(0x0103, dec_u64), Ok(Some(8)));
    assert_eq!(db.get_global_slot_tx_queue(0x0104, dec_u64), Ok(None));
    assert_eq!(
        db.get_raw(StorageKey::new_storage_key(&addr(2), &[2, 1, 0, 0, 0, 0, 0, 0])),
        Ok(Some(vec![7]))
    );
    assert_eq!(db.delete_global_slot_tx_queue(0x0102), Ok(()));
    assert_eq!(db.get_global_slot_tx_queue(0x0102, dec_u64), Ok(None));
    assert_eq!(db.get_global_slot_tx_queue(0x0103, dec_u64), Ok(Some(8)));
}

/// A signal's record as the bytes of its key, for the tests.
fn enc_signal(info: &SignalInfo) -> Vec<u8> {
    info.location().signal_key().clone()
}

fn dec_signal(raw: &[u8]) -> Result<SignalInfo, rlp::DecoderError> {
    if raw.is_empty() {
        Err(rlp::DecoderError::RlpIsTooShort)
    } else {
        Ok(SignalInfo::new(&addr(7), raw, &u(3)))
    }
}

/// A slot's record as the bytes of its key, for the tests.
fn enc_slot(info: &SlotInfo) -> Vec<u8> {
    info.location().slot_key().clone()
}

fn dec_slot(raw: &[u8]) -> Result<SlotInfo, rlp::DecoderError> {
    if raw.is_empty() {
        Err(rlp::DecoderError::RlpIsTooShort)
    } else {
        Ok(SlotInfo::new(&addr(7), &addr(8), raw, &u(1), &u(2), &u(3), &u(4)))
    }
}

#[test]
fn account_queues_are_kept_by_account() {
    let mut db = empty();
    let a = addr(7);
    assert_eq!(db.get_account_slot_tx_queue(&a, dec_u64), Ok(None));
    assert_eq!(db.set_account_slot_tx_queue(&a, &1, enc_u64), Ok(()));
    assert_eq!(db.get_account_slot_tx_queue(&a, dec_u64), Ok(Some(1)));
    assert_eq!(db.get_account_slot_tx_queue(&addr(8), dec_u64), Ok(None));
    assert_eq!(db.get_raw(StorageKey::new_slot_tx_queue_key(&a)), Ok(Some(vec![1])));
    assert_eq!(db.delete_account_slot_tx_queue(&a), Ok(()));
    assert_eq!(db.get_account_slot_tx_queue(&a, dec_u64), Ok(None));
}

#[test]
fn signals_and_slots_are_kept_by_account_and_key() {
    let mut db = empty();
    let a = addr(7);
    let signal = SignalInfo::new(&a, &[5, 6], &u(3));
    let slot = SlotInfo::new(&a, &addr(8), &[5, 6, 7], &u(1), &u(2), &u(3), &u(4));
    assert_eq!(db.set_signal_info(&a, &vec![1, 2], &signal, enc_signal), Ok(()));
    assert_eq!(db.set_slot_info(&a, &vec![1, 2], &slot, enc_slot), Ok(()));
    assert_eq!(db.get_raw(StorageKey::new_signal_key(&a, &[1, 2])), Ok(Some(vec![5, 6])));
    assert_eq!(db.get_raw(StorageKey::new_slot_key(&a, &[1, 2])), Ok(Some(vec![5, 6, 7])));
    let read = db.get_signal_info(&a, &vec![1, 2], dec_signal).unwrap().unwrap();
    assert_eq!(*read.location(), SignalLocation::new(&a, &[5, 6]));
    assert_eq!(read, signal);
    assert_eq!(db.get_slot_info(&a, &vec![1, 2], dec_slot), Ok(Some(slot)));
    assert_eq!(db.get_signal_info(&a, &vec![1], dec_signal), Ok(None));
    assert_eq!(db.get_slot_info(&addr(8), &vec![1, 2], dec_slot), Ok(None));
    assert_eq!(db.delete_signal_info(&a, &vec![1, 2]), Ok(()));
    assert_eq!(db.delete_slot_info(&a, &vec![1, 2]), Ok(()));
    assert_eq!(db.get_signal_info(&a, &vec![1, 2], dec_signal), Ok(None));
    assert_eq!(db.get_slot_info(&a, &vec![1, 2], dec_slot), Ok(None));
}

#[test]
fn what_the_decoder_refuses_is_a_decoder_error() {
    let mut db = empty();
    let a = addr(7);
    db.set_raw(StorageKey::new_signal_key(&a, &[1]), vec![]).unwrap();
    assert_eq!(
        db.get_signal_info(&a, &vec![1], dec_signal),
        Err(Error::Decoder(rlp::DecoderError::RlpIsTooShort))
    );
}

#[test]
fn storage_root_fills_the_tries_without_the_account() {
    let null = H256([0xee; 32]);
    let d = H256([1; 32]);
    let i = H256([2; 32]);
    let s = H256([3; 32]);
    assert_eq!(storage_root_of(None, None, None, null), None);
    assert_eq!(
        storage_root_of(Some(d), Some(i), Some(s), null),
        Some(StorageRoot { delta: d, intermediate: i, snapshot: s })
    );
    assert_eq!(
        storage_root_of(Some(d), None, None, null),
        Some(StorageRoot { delta: d, intermediate: null, snapshot: null })
    );
    assert_eq!(
        storage_root_of(None, Some(i), None, null),
        Some(StorageRoot { delta: null, intermediate: i, snapshot: null })
    );
    assert_eq!(
        storage_root_of(None, None, Some(s), null),
        Some(StorageRoot { delta: null, intermediate: null, snapshot: s })
    );
}

#[test]
fn failed_commit_hides_the_state_root() {
    assert_eq!(commit_outcome::<u8, u8>(Ok(1), Ok(())), Ok(1));
    assert_eq!(commit_outcome::<u8, u8>(Err(2), Ok(())), Err(2));
    assert_eq!(commit_outcome::<u8, u8>(Ok(1), Err(3)), Err(3));
    assert_eq!(commit_outcome::<u8, u8>(Err(2), Err(3)), Err(3));
}
