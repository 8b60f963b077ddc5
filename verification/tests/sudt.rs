use ckb_contract_minitest::cells::sudt_data::{SUDTData, SUDTDataCell};
use ckb_contract_minitest::sudt::amount::{collect_amounts, parse_amount, UDT_LEN};
use ckb_contract_minitest::sudt::error::{exit_code, Error};
use ckb_contract_minitest::sudt::script::{check_owner_mode, verify_transaction};

/// Lock hash of the owner's lock script (always-success with empty args).
const OWNER_HASH: [u8; 32] = [0x5c; 32];
/// Lock hash of the always-success lock that guards ordinary token cells.
const ALWAYS_SUCCESS_HASH: [u8; 32] = [0xa7; 32];

fn cell_data(cell: &SUDTDataCell) -> Vec<u8> {
    cell.data.amount.to_le_bytes().to_vec()
}

fn run(
    args: &[u8],
    input_lock_hashes: Vec<[u8; 32]>,
    inputs: &[SUDTDataCell],
    outputs: &[SUDTDataCell],
) -> Result<(), Error> {
    let input_data: Vec<Vec<u8>> = inputs.iter().map(cell_data).collect();
    let output_data: Vec<Vec<u8>> = outputs.iter().map(cell_data).collect();
    verify_transaction(args, &input_lock_hashes, &input_data, &output_data)
}

// 0 -> 1
#[test]
fn test_mint_by_owner_0_to_1() {
    let owner_hash = OWNER_HASH;
    // the owner's cell is an input without type script; the sUDT cell is the only output
    let sudt_output = SUDTDataCell::new(owner_hash, SUDTData { amount: 1000 });
    let ret = run(&owner_hash, vec![owner_hash], &[], &[sudt_output]);
    assert_eq!(ret, Ok(()));
    assert_eq!(exit_code(ret), 0);
}

// 0 -> N
#[test]
fn test_mint_by_owner_0_to_n() {
    let owner_hash = OWNER_HASH;
    let output_count = 3;
    let mut outputs = Vec::new();
    for i in 0..output_count {
        outputs.push(SUDTDataCell::new(
            owner_hash,
            SUDTData {
                amount: 1000 + i * 100,
            },
        ));
    }
    let ret = run(&owner_hash, vec![owner_hash], &[], &outputs);
    assert_eq!(ret, Ok(()));
}

// 1 -> 1
#[test]
fn test_sudt_transfer_1_to_1() {
    let input_sudt_cell = SUDTDataCell::new([1; 32], SUDTData { amount: 1234 });
    let output_sudt_cell = SUDTDataCell::new([1; 32], SUDTData { amount: 1234 });
    let ret = run(
        &[1; 32],
        vec![ALWAYS_SUCCESS_HASH],
        &[input_sudt_cell],
        &[output_sudt_cell],
    );
    assert_eq!(ret, Ok(()));
}

// 1 -> N
#[test]
fn test_sudt_transfer_1_to_n() {
    let total_amount = 3000;
    let input_sudt_cell = SUDTDataCell::new([1; 32], SUDTData { amount: total_amount });
    let output_amounts = vec![1000, 1000, 1000];
    let mut output_cells = Vec::new();
    for &amt in output_amounts.iter() {
        output_cells.push(SUDTDataCell::new([1; 32], SUDTData { amount: amt }));
    }
    let ret = run(&[1; 32], vec![ALWAYS_SUCCESS_HASH], &[input_sudt_cell], &output_cells);
    assert_eq!(ret, Ok(()));
}

// N -> 0
#[test]
fn test_sudt_burn_n_to_0_by_owner() {
    let owner_hash = OWNER_HASH;
    let n = 3;
    let amount: u128 = 1000;
    // the owner's cell comes first, then n - 1 sUDT cells; there are no outputs
    let mut input_lock_hashes = vec![owner_hash];
    let mut sudt_inputs = Vec::new();
    for _ in 1..n {
        input_lock_hashes.push(ALWAYS_SUCCESS_HASH);
        sudt_inputs.push(SUDTDataCell::new(owner_hash, SUDTData { amount }));
    }
    let ret = run(&owner_hash, input_lock_hashes, &sudt_inputs, &[]);
    assert_eq!(ret, Ok(()));
}

// 1 -> 0
#[test]
fn test_sudt_burn_1_to_0_by_owner() {
    let owner_hash = OWNER_HASH;
    let amount: u128 = 1000;
    let sudt_input = SUDTDataCell::new(owner_hash, SUDTData { amount });
    // inputs: the sUDT cell, then the owner's cell
    let ret = run(
        &owner_hash,
        vec![ALWAYS_SUCCESS_HASH, owner_hash],
        &[sudt_input],
        &[],
    );
    assert_eq!(ret, Ok(()));
}

// N -> 1
#[test]
fn test_sudt_transfer_n_to_1() {
    let input_amounts = vec![500, 800, 700];
    let mut input_cells = Vec::new();
    for &amt in input_amounts.iter() {
        input_cells.push(SUDTDataCell::new([1; 32], SUDTData { amount: amt }));
    }
    let total_amount: u128 = input_amounts.iter().sum();
    let output_cell = SUDTDataCell::new([1; 32], SUDTData { amount: total_amount });
    let hashes = vec![ALWAYS_SUCCESS_HASH; input_cells.len()];
    let ret = run(&[1; 32], hashes, &input_cells, &[output_cell]);
    assert_eq!(ret, Ok(()));
}

// N -> N
#[test]
fn test_sudt_transfer_n_to_n() {
    let input_amounts = vec![1500, 800, 700];
    let mut input_cells = Vec::new();
    for &amt in input_amounts.iter() {
        input_cells.push(SUDTDataCell::new([1; 32], SUDTData { amount: amt }));
    }
    let output_amounts = vec![1200, 1800];
    let mut output_cells = Vec::new();
    for &amt in output_amounts.iter() {
        output_cells.push(SUDTDataCell::new([1; 32], SUDTData { amount: amt }));
    }
    let hashes = vec![ALWAYS_SUCCESS_HASH; input_cells.len()];
    let ret = run(&[1; 32], hashes, &input_cells, &output_cells);
    assert_eq!(ret, Ok(()));
}

#[test]
fn transfer_creating_tokens_is_refused() {
    let input = SUDTDataCell::new([1; 32], SUDTData { amount: 1000 });
    let output = SUDTDataCell::new([1; 32], SUDTData { amount: 1001 });
    let ret = run(&[1; 32], vec![ALWAYS_SUCCESS_HASH], &[input], &[output]);
    assert_eq!(ret, Err(Error::Amount));
    assert_eq!(exit_code(ret), 5);
}

#[test]
fn burn_without_owner_is_accepted() {
    let input = SUDTDataCell::new([1; 32], SUDTData { amount: 1000 });
    let output = SUDTDataCell::new([1; 32], SUDTData { amount: 400 });
    let ret = run(&[1; 32], vec![ALWAYS_SUCCESS_HASH], &[input], &[output]);
    assert_eq!(ret, Ok(()));
}

#[test]
fn mint_without_owner_is_refused() {
    let output = SUDTDataCell::new(OWNER_HASH, SUDTData { amount: 1 });
    let ret = run(&OWNER_HASH, vec![ALWAYS_SUCCESS_HASH], &[], &[output]);
    assert_eq!(ret, Err(Error::Amount));
}

#[test]
fn owner_may_mint_beyond_inputs() {
    let input = SUDTDataCell::new(OWNER_HASH, SUDTData { amount: 1 });
    let output = SUDTDataCell::new(OWNER_HASH, SUDTData { amount: u128::MAX });
    let ret = run(&OWNER_HASH, vec![ALWAYS_SUCCESS_HASH, OWNER_HASH], &[input], &[output]);
    assert_eq!(ret, Ok(()));
}

#[test]
fn owner_mode_skips_malformed_data() {
    let ret = verify_transaction(&OWNER_HASH, &vec![OWNER_HASH], &vec![vec![1, 2, 3]], &vec![]);
    assert_eq!(ret, Ok(()));
}

#[test]
fn malformed_input_data_is_an_encoding_error() {
    let ret = verify_transaction(
        &[1; 32],
        &vec![ALWAYS_SUCCESS_HASH],
        &vec![vec![0u8; 15]],
        &vec![vec![0u8; 16]],
    );
    assert_eq!(ret, Err(Error::Encoding));
    assert_eq!(exit_code(ret), 4);
}

#[test]
fn malformed_output_data_is_an_encoding_error() {
    let ret = verify_transaction(
        &[1; 32],
        &vec![ALWAYS_SUCCESS_HASH],
        &vec![1000u128.to_le_bytes().to_vec()],
        &vec![vec![0u8; 17]],
    );
    assert_eq!(ret, Err(Error::Encoding));
}

#[test]
fn order_of_cells_does_not_matter() {
    let a = 700u128.to_le_bytes().to_vec();
    let b = 300u128.to_le_bytes().to_vec();
    let c = 1000u128.to_le_bytes().to_vec();
    let hashes = vec![ALWAYS_SUCCESS_HASH];
    let r1 = verify_transaction(&[1; 32], &hashes, &vec![a.clone(), b.clone()], &vec![c.clone()]);
    let r2 = verify_transaction(&[1; 32], &hashes, &vec![b, a], &vec![c]);
    assert_eq!(r1, Ok(()));
    assert_eq!(r1, r2);
}

#[test]
fn parse_amount_reads_little_endian() {
    assert_eq!(parse_amount(&1000u128.to_le_bytes()), Ok(1000));
    let bytes: Vec<u8> = (1..=16).collect();
    assert_eq!(bytes.len(), UDT_LEN);
    assert_eq!(parse_amount(&bytes), Ok(0x100f0e0d0c0b0a090807060504030201));
    assert_eq!(parse_amount(&[0xff; 16]), Ok(u128::MAX));
    assert_eq!(parse_amount(&[0; 16]), Ok(0));
}

#[test]
fn parse_amount_rejects_other_lengths() {
    assert_eq!(parse_amount(&[]), Err(Error::Encoding));
    assert_eq!(parse_amount(&[0; 15]), Err(Error::Encoding));
    assert_eq!(parse_amount(&[0; 17]), Err(Error::Encoding));
}

#[test]
fn collect_amounts_adds_up() {
    let data = vec![
        500u128.to_le_bytes().to_vec(),
        800u128.to_le_bytes().to_vec(),
        700u128.to_le_bytes().to_vec(),
    ];
    assert_eq!(collect_amounts(&data), Ok(2000));
    assert_eq!(collect_amounts(&vec![]), Ok(0));
    let bad = vec![500u128.to_le_bytes().to_vec(), vec![1, 2]];
    assert_eq!(collect_amounts(&bad), Err(Error::Encoding));
}

#[test]
fn owner_mode_detection() {
    assert_eq!(check_owner_mode(&OWNER_HASH, &vec![ALWAYS_SUCCESS_HASH, OWNER_HASH]), Ok(true));
    assert_eq!(check_owner_mode(&OWNER_HASH, &vec![ALWAYS_SUCCESS_HASH]), Ok(false));
    assert_eq!(check_owner_mode(&OWNER_HASH, &vec![]), Ok(false));
    assert_eq!(check_owner_mode(&OWNER_HASH[..31], &vec![OWNER_HASH]), Ok(false));
    assert_eq!(check_owner_mode(&[], &vec![OWNER_HASH]), Ok(false));
}

#[test]
fn exit_codes() {
    assert_eq!(exit_code(Ok(())), 0);
    assert_eq!(exit_code(Err(Error::IndexOutOfBound)), 1);
    assert_eq!(exit_code(Err(Error::ItemMissing)), 2);
    assert_eq!(exit_code(Err(Error::LengthNotEnough)), 3);
    assert_eq!(exit_code(Err(Error::Encoding)), 4);
    assert_eq!(exit_code(Err(Error::Amount)), 5);
}
