//! Whole transactions, built from scripts and cells as a wallet would build
//! them, and judged by the validator.

use blake2b_rs::Blake2bBuilder;
use ckb_std::ckb_types::packed::{Byte, Byte32, CellInput, OutPoint, Script};
use ckb_std::ckb_types::prelude::{Builder, Entity};
use nft_validator::{entry, validate, CellData, Error, Output, Transaction};
use rand::{thread_rng, Rng};

fn random_32bytes() -> [u8; 32] {
    let mut rng = thread_rng();
    let mut buf = [0u8; 32];
    rng.fill(&mut buf[..]);
    buf
}

fn ckb_hash(data: &[u8]) -> [u8; 32] {
    let mut blake2b = Blake2bBuilder::new(32)
        .personal(b"ckb-default-hash")
        .build();
    blake2b.update(data);
    let mut hash = [0u8; 32];
    blake2b.finalize(&mut hash[..]);
    hash
}

fn cell_data(bytes: &[u8]) -> CellData {
    CellData { bytes: bytes.to_vec(), fault: None }
}

/// A script whose code is the cell with the given data hash.
fn build_script(code_hash: &[u8; 32], args: &[u8]) -> Script {
    Script::new_builder()
        .code_hash(Byte32::from(code_hash))
        .hash_type(Byte::new(0))
        .args(args)
        .build()
}

fn script_hash(script: &Script) -> [u8; 32] {
    ckb_hash(script.as_slice())
}

/// An input that spends output 0 of a transaction with a random hash.
fn random_input() -> CellInput {
    let out_point = OutPoint::new_builder()
        .tx_hash(Byte32::from(&random_32bytes()))
        .index(0u32)
        .build();
    CellInput::new_builder().previous_output(out_point).build()
}

fn always_success_code() -> [u8; 32] {
    ckb_hash(b"always success")
}

fn nft_code() -> [u8; 32] {
    ckb_hash(b"nft-validator")
}

#[test]
fn test_nft_transfer() {
    // prepare scripts
    let lock_script = build_script(&always_success_code(), &random_32bytes());
    let lock_script2 = build_script(&always_success_code(), &random_32bytes());
    let governance_script = build_script(&always_success_code(), &random_32bytes());
    let governance_script_hash = script_hash(&governance_script);
    let nft_type_script = build_script(&nft_code(), &governance_script_hash);

    // prepare cells
    let nft_id = random_32bytes();
    let input = random_input();

    // the input cell is locked by lock_script and carries nft_id under the
    // nft type; the output carries the same under lock_script2
    let _ = lock_script2;
    let tx = Transaction {
        script_args: Ok(nft_type_script.args().raw_data().to_vec()),
        script_hash: Ok(script_hash(&nft_type_script)),
        input_lock_hashes: vec![script_hash(&lock_script)],
        group_input_data: vec![cell_data(&nft_id)],
        outputs: vec![Output {
            type_hash: Some(script_hash(&nft_type_script)),
            data: cell_data(&nft_id),
        }],
        first_input: Ok(input.as_slice().to_vec()),
    };

    // run
    validate(&tx).expect("pass verification");
    assert_eq!(entry(&tx), 0);
}

#[test]
fn test_nft_generation() {
    // prepare scripts
    let lock_script = build_script(&always_success_code(), &random_32bytes());
    let governance_script = build_script(&always_success_code(), &random_32bytes());
    let governance_script_hash = script_hash(&governance_script);
    let nft_type_script = build_script(&nft_code(), &governance_script_hash);

    // prepare cells
    let input = random_input();

    let mut blake2b = Blake2bBuilder::new(32)
        .personal(b"ckb-default-hash")
        .build();
    blake2b.update(input.as_slice());
    blake2b.update(&1u64.to_le_bytes());
    let mut hash = vec![0u8; 32];
    blake2b.finalize(&mut hash[..]);
    let nft_id = hash;

    let _ = lock_script;
    let tx = Transaction {
        script_args: Ok(nft_type_script.args().raw_data().to_vec()),
        script_hash: Ok(script_hash(&nft_type_script)),
        input_lock_hashes: vec![script_hash(&governance_script)],
        group_input_data: vec![],
        outputs: vec![
            Output { type_hash: None, data: cell_data(&[]) },
            Output { type_hash: Some(script_hash(&nft_type_script)), data: cell_data(&nft_id) },
        ],
        first_input: Ok(input.as_slice().to_vec()),
    };

    // run
    validate(&tx).expect("pass verification");
    assert_eq!(entry(&tx), 0);
}

#[test]
fn test_nft_invalid_governance() {
    // prepare scripts
    let lock_script = build_script(&always_success_code(), &random_32bytes());
    let nft_type_script = build_script(&nft_code(), &random_32bytes());

    // prepare cells
    let input = random_input();

    let mut blake2b = Blake2bBuilder::new(32)
        .personal(b"ckb-default-hash")
        .build();
    blake2b.update(input.as_slice());
    blake2b.update(&1u64.to_le_bytes());
    let mut hash = vec![0u8; 32];
    blake2b.finalize(&mut hash[..]);
    let nft_id = hash;

    let tx = Transaction {
        script_args: Ok(nft_type_script.args().raw_data().to_vec()),
        script_hash: Ok(script_hash(&nft_type_script)),
        input_lock_hashes: vec![script_hash(&lock_script)],
        group_input_data: vec![],
        outputs: vec![
            Output { type_hash: None, data: cell_data(&[]) },
            Output { type_hash: Some(script_hash(&nft_type_script)), data: cell_data(&nft_id) },
        ],
        first_input: Ok(input.as_slice().to_vec()),
    };

    // run
    assert!(validate(&tx).is_err());
    assert_eq!(validate(&tx), Err(Error::RequireGovernanceMode));
    assert_eq!(entry(&tx), 6);
}

#[test]
fn test_nft_invalid_nft_data() {
    // prepare scripts
    let lock_script = build_script(&always_success_code(), &random_32bytes());
    let governance_script = build_script(&always_success_code(), &random_32bytes());
    let governance_script_hash = script_hash(&governance_script);
    let nft_type_script = build_script(&nft_code(), &governance_script_hash);

    // prepare cells
    let input = random_input();

    let mut blake2b = Blake2bBuilder::new(32)
        .personal(b"ckb-default-hash")
        .build();
    blake2b.update(input.as_slice());
    blake2b.update(&1u64.to_le_bytes());
    let mut hash = vec![0u8; 32];
    blake2b.finalize(&mut hash[..]);
    let nft_id = hash;

    let _ = lock_script;
    let tx = Transaction {
        script_args: Ok(nft_type_script.args().raw_data().to_vec()),
        script_hash: Ok(script_hash(&nft_type_script)),
        input_lock_hashes: vec![script_hash(&governance_script)],
        group_input_data: vec![],
        outputs: vec![
            Output { type_hash: None, data: cell_data(&[]) },
            Output {
                type_hash: Some(script_hash(&nft_type_script)),
                data: cell_data(&nft_id[0..16]),
            },
        ],
        first_input: Ok(input.as_slice().to_vec()),
    };

    // run
    assert!(validate(&tx).is_err());
    assert_eq!(validate(&tx), Err(Error::InvalidNft));
    assert_eq!(entry(&tx), 7);
}

#[test]
fn test_nft_invalid_nft_hash() {
    // prepare scripts
    let lock_script = build_script(&always_success_code(), &random_32bytes());
    let governance_script = build_script(&always_success_code(), &random_32bytes());
    let governance_script_hash = script_hash(&governance_script);
    let nft_type_script = build_script(&nft_code(), &governance_script_hash);

    // prepare cells
    let input = random_input();

    let mut blake2b = Blake2bBuilder::new(32)
        .personal(b"ckb-default-hash")
        .build();
    blake2b.update(input.as_slice());
    blake2b.update(&1u64.to_le_bytes());
    let mut hash = vec![0u8; 32];
    blake2b.finalize(&mut hash[..]);
    hash[0] = hash[0].wrapping_add(1);
    let nft_id = hash;

    let _ = lock_script;
    let tx = Transaction {
        script_args: Ok(nft_type_script.args().raw_data().to_vec()),
        script_hash: Ok(script_hash(&nft_type_script)),
        input_lock_hashes: vec![script_hash(&governance_script)],
        group_input_data: vec![],
        outputs: vec![
            Output { type_hash: None, data: cell_data(&[]) },
            Output { type_hash: Some(script_hash(&nft_type_script)), data: cell_data(&nft_id) },
        ],
        first_input: Ok(input.as_slice().to_vec()),
    };

    // run
    assert!(validate(&tx).is_err());
    assert_eq!(validate(&tx), Err(Error::InvalidNft));
    assert_eq!(entry(&tx), 7);
}
