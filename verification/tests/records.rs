//! Per-input and per-output record behaviour: the must-be-unsigned gate
//! and the exactness of the with/split pair.

use psbt::raw::{Key, ProprietaryKey};
use psbt::tx::{TxIn, TxOut};
use psbt::{Input, InputV0, Output, OutputV0, TxinError};

fn unsigned_txin(sequence: u32) -> TxIn {
    TxIn {
        prev_txid: vec![0xAB; 32],
        prev_vout: 1,
        sequence,
        script_sig: Vec::new(),
        witness: Vec::new(),
    }
}

#[test]
fn input_new_rejects_nonempty_script_sig() {
    let mut txin = unsigned_txin(0xFFFF_FFFF);
    txin.script_sig = vec![0x51];
    assert_eq!(Input::new(5, txin), Err(TxinError::AlreadySigned(5)));
}

#[test]
fn input_new_rejects_nonempty_witness() {
    let mut txin = unsigned_txin(0xFFFF_FFFF);
    txin.witness = vec![vec![0x01, 0x02]];
    assert_eq!(Input::new(2, txin), Err(TxinError::AlreadySigned(2)));
}

#[test]
fn input_new_accepts_unsigned_input() {
    let txin = unsigned_txin(7);
    let record = Input::new(5, txin.clone()).unwrap();
    assert_eq!(record.index, 5);
    assert_eq!(record.txin, txin);
    assert_eq!(record.required_locktime, None);
    assert!(record.proprietary.is_empty());
    assert!(record.unknown.is_empty());
}

#[test]
fn input_split_returns_with_arguments_exactly() {
    let legacy = InputV0 {
        required_locktime: Some(123),
        proprietary: vec![(
            ProprietaryKey { prefix: b"vendor".to_vec(), subtype: 1, key: vec![9] },
            vec![0xAA],
        )],
        unknown: vec![(Key { type_value: 0x99, key: vec![4, 5] }, vec![0xBB])],
    };
    let txin = unsigned_txin(42);
    let record = Input::with(3, legacy.clone(), txin.clone());
    assert_eq!(record.index, 3);
    assert_eq!(record.split(), (legacy, txin));
}

#[test]
fn input_locktime_reports_declared_requirement() {
    let txin = unsigned_txin(0);
    let mut record = Input::new(0, txin).unwrap();
    assert_eq!(record.locktime(), None);
    record.required_locktime = Some(880_000);
    assert_eq!(record.locktime(), Some(880_000));
}

#[test]
fn output_new_holds_position_and_txout() {
    let txout = TxOut { value: 50_000, script_pubkey: vec![0x00, 0x14] };
    let record = Output::new(4, txout.clone());
    assert_eq!(record.index, 4);
    assert_eq!(record.txout, txout);
    assert!(record.proprietary.is_empty());
    assert!(record.unknown.is_empty());
}

#[test]
fn output_split_returns_with_arguments_exactly() {
    let legacy = OutputV0 {
        proprietary: vec![(
            ProprietaryKey { prefix: b"vendor".to_vec(), subtype: 2, key: Vec::new() },
            vec![0xCC],
        )],
        unknown: Vec::new(),
    };
    let txout = TxOut { value: 1, script_pubkey: vec![0x6A] };
    let record = Output::with(0, legacy.clone(), txout.clone());
    assert_eq!(record.split(), (legacy, txout));
}
