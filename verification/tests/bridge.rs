//! Container construction and the version bridge: round trips, locktime
//! resolution, opaque-field preservation and structural checks.

use psbt::raw::{Key, ProprietaryKey};
use psbt::tx::{Transaction, TxIn, TxOut};
use psbt::{
    Input, InputV0, Output, OutputV0, Psbt, PsbtV0, PsbtVersion, StructureError, TxError,
    TxinError,
};

fn unsigned_txin(tag: u8) -> TxIn {
    TxIn {
        prev_txid: vec![tag; 32],
        prev_vout: tag as u32,
        sequence: 0xFFFF_FFFE,
        script_sig: Vec::new(),
        witness: Vec::new(),
    }
}

fn sample_txout(value: u64) -> TxOut {
    TxOut { value, script_pubkey: vec![0x00, 0x14, 0x20] }
}

fn sample_tx() -> Transaction {
    Transaction {
        version: 2,
        lock_time: 77,
        input: vec![unsigned_txin(1), unsigned_txin(2)],
        output: vec![sample_txout(10_000)],
    }
}

fn proprietary_entry() -> (ProprietaryKey, Vec<u8>) {
    (
        ProprietaryKey { prefix: b"testvendor".to_vec(), subtype: 0, key: Vec::new() },
        vec![0xDE, 0xAD],
    )
}

fn unknown_entry() -> (Key, Vec<u8>) {
    (Key { type_value: 0x99, key: Vec::new() }, vec![0xBE, 0xEF])
}

#[test]
fn with_builds_modern_container() {
    let tx = sample_tx();
    let m = Psbt::with(tx.clone(), PsbtVersion::V2).unwrap();
    assert_eq!(m.psbt_version, PsbtVersion::V2);
    assert!(m.xpub.is_empty());
    assert_eq!(m.tx_version, 2);
    assert_eq!(m.fallback_locktime, 77);
    assert_eq!(m.inputs.len(), 2);
    assert_eq!(m.outputs.len(), 1);
    for (i, record) in m.inputs.iter().enumerate() {
        assert_eq!(record.index, i);
        assert_eq!(record.txin, tx.input[i]);
        assert_eq!(record.required_locktime, None);
        assert!(record.proprietary.is_empty());
        assert!(record.unknown.is_empty());
    }
    assert_eq!(m.outputs[0].index, 0);
    assert_eq!(m.outputs[0].txout, tx.output[0]);
    assert!(m.proprietary.is_empty());
    assert!(m.unknown.is_empty());
}

#[test]
fn with_rejects_signed_input_with_index() {
    let mut tx = sample_tx();
    tx.input[1].script_sig = vec![0x51];
    assert_eq!(
        Psbt::with(tx.clone(), PsbtVersion::V2),
        Err(TxError::Txin(TxinError::AlreadySigned(1)))
    );
    tx.input[1].script_sig = Vec::new();
    assert!(Psbt::with(tx, PsbtVersion::V2).is_ok());
}

#[test]
fn with_rejects_negative_version() {
    let mut tx = sample_tx();
    tx.version = -1;
    assert_eq!(Psbt::with(tx, PsbtVersion::V2), Err(TxError::InvalidTxVersion(-1)));
}

#[test]
fn round_trip_restores_fresh_container() {
    let m = Psbt::with(sample_tx(), PsbtVersion::V2).unwrap();
    let legacy = m.clone().into_v0();
    assert_eq!(legacy.version, 0);
    let back = Psbt::from_v0(legacy).unwrap();
    assert_eq!(back, m);
}

#[test]
fn locktime_resolution_takes_maximum_declared() {
    let tx = Transaction {
        version: 1,
        lock_time: 50,
        input: vec![unsigned_txin(1), unsigned_txin(2), unsigned_txin(3)],
        output: vec![sample_txout(1)],
    };
    let mut m = Psbt::with(tx, PsbtVersion::V2).unwrap();
    m.inputs[0].required_locktime = Some(100);
    m.inputs[1].required_locktime = Some(500);
    m.inputs[2].required_locktime = None;
    let legacy = m.into_v0();
    assert_eq!(legacy.unsigned_tx.lock_time, 500);
}

#[test]
fn locktime_resolution_falls_back_when_none_declared() {
    let tx = Transaction {
        version: 1,
        lock_time: 50,
        input: vec![unsigned_txin(1), unsigned_txin(2)],
        output: vec![sample_txout(1)],
    };
    let m = Psbt::with(tx, PsbtVersion::V2).unwrap();
    let legacy = m.into_v0();
    assert_eq!(legacy.unsigned_tx.lock_time, 50);
}

#[test]
fn version_bit_pattern_crosses_bridge_exactly() {
    for (signed, bits) in [(1i32, 1u32), (2, 2), (-1, 0xFFFF_FFFF), (0x7FFF_FFFF, 0x7FFF_FFFF)] {
        let mut m = Psbt::with(sample_tx(), PsbtVersion::V2).unwrap();
        m.tx_version = bits;
        let legacy = m.into_v0();
        assert_eq!(legacy.unsigned_tx.version, signed);
        let back = Psbt::from_v0(legacy).unwrap();
        assert_eq!(back.tx_version, bits);
    }
}

#[test]
fn opaque_entries_survive_round_trips_at_every_scope() {
    let mut m = Psbt::with(sample_tx(), PsbtVersion::V2).unwrap();
    m.proprietary = vec![proprietary_entry()];
    m.unknown = vec![unknown_entry()];
    m.inputs[0].proprietary = vec![proprietary_entry()];
    m.inputs[0].unknown = vec![unknown_entry()];
    m.outputs[0].proprietary = vec![proprietary_entry()];
    m.outputs[0].unknown = vec![unknown_entry()];

    let legacy = m.clone().into_v0();
    assert_eq!(legacy.proprietary, vec![proprietary_entry()]);
    assert_eq!(legacy.unknown, vec![unknown_entry()]);
    assert_eq!(legacy.inputs[0].proprietary, vec![proprietary_entry()]);
    assert_eq!(legacy.inputs[0].unknown, vec![unknown_entry()]);
    assert_eq!(legacy.outputs[0].proprietary, vec![proprietary_entry()]);
    assert_eq!(legacy.outputs[0].unknown, vec![unknown_entry()]);

    let back = Psbt::from_v0(legacy.clone()).unwrap();
    assert_eq!(back, m);

    let legacy_again = back.into_v0();
    assert_eq!(legacy_again, legacy);
}

#[test]
fn from_v0_merges_legacy_records_positionally() {
    let legacy = PsbtV0 {
        unsigned_tx: Transaction {
            version: -1,
            lock_time: 123,
            input: vec![unsigned_txin(9)],
            output: vec![sample_txout(7)],
        },
        version: 0,
        xpub: Vec::new(),
        proprietary: Vec::new(),
        unknown: Vec::new(),
        inputs: vec![InputV0 {
            required_locktime: Some(123),
            proprietary: Vec::new(),
            unknown: Vec::new(),
        }],
        outputs: vec![OutputV0 { proprietary: Vec::new(), unknown: Vec::new() }],
    };
    let m = Psbt::from_v0(legacy.clone()).unwrap();
    assert_eq!(m.psbt_version, PsbtVersion::V2);
    assert_eq!(m.tx_version, 0xFFFF_FFFF);
    assert_eq!(m.fallback_locktime, 123);
    assert_eq!(
        m.inputs,
        vec![Input::with(0, legacy.inputs[0].clone(), legacy.unsigned_tx.input[0].clone())]
    );
    assert_eq!(
        m.outputs,
        vec![Output::with(0, legacy.outputs[0].clone(), legacy.unsigned_tx.output[0].clone())]
    );
}

#[test]
fn legacy_round_trip_restores_container() {
    let legacy = PsbtV0 {
        unsigned_tx: Transaction {
            version: 2,
            lock_time: 123,
            input: vec![unsigned_txin(1), unsigned_txin(2)],
            output: vec![sample_txout(7)],
        },
        version: 0,
        xpub: Vec::new(),
        proprietary: vec![proprietary_entry()],
        unknown: vec![unknown_entry()],
        inputs: vec![
            InputV0 {
                required_locktime: Some(123),
                proprietary: Vec::new(),
                unknown: vec![unknown_entry()],
            },
            InputV0 { required_locktime: None, proprietary: Vec::new(), unknown: Vec::new() },
        ],
        outputs: vec![OutputV0 { proprietary: vec![proprietary_entry()], unknown: Vec::new() }],
    };
    let back = Psbt::from_v0(legacy.clone()).unwrap().into_v0();
    assert_eq!(back, legacy);
}

#[test]
fn from_v0_rejects_input_count_mismatch() {
    let legacy = PsbtV0 {
        unsigned_tx: Transaction {
            version: 1,
            lock_time: 0,
            input: Vec::new(),
            output: Vec::new(),
        },
        version: 0,
        xpub: Vec::new(),
        proprietary: Vec::new(),
        unknown: Vec::new(),
        inputs: vec![InputV0 {
            required_locktime: None,
            proprietary: Vec::new(),
            unknown: Vec::new(),
        }],
        outputs: Vec::new(),
    };
    assert_eq!(Psbt::from_v0(legacy), Err(StructureError::InputCountMismatch(1, 0)));
}

#[test]
fn from_v0_rejects_output_count_mismatch() {
    let legacy = PsbtV0 {
        unsigned_tx: Transaction {
            version: 1,
            lock_time: 0,
            input: Vec::new(),
            output: vec![sample_txout(1)],
        },
        version: 0,
        xpub: Vec::new(),
        proprietary: Vec::new(),
        unknown: Vec::new(),
        inputs: Vec::new(),
        outputs: Vec::new(),
    };
    assert_eq!(Psbt::from_v0(legacy), Err(StructureError::OutputCountMismatch(0, 1)));
}

#[test]
fn xpub_entries_carry_through_conversions() {
    let entry = (
        psbt::keys::ExtendedPubKey { encoding: vec![0x04; 78] },
        psbt::keys::KeySource { fingerprint: 0xDEAD_BEEF, path: vec![0x8000_002C, 0, 5] },
    );
    let mut m = Psbt::with(sample_tx(), PsbtVersion::V2).unwrap();
    m.xpub = vec![entry.clone()];
    let legacy = m.clone().into_v0();
    assert_eq!(legacy.xpub, vec![entry]);
    let back = Psbt::from_v0(legacy).unwrap();
    assert_eq!(back, m);
}
