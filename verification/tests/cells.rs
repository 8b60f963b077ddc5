use ckb_contract_minitest::cell_message::cell::MoleculeStructFlag;
use ckb_contract_minitest::cells::sudt_data::{SUDTData, SUDTDataCell};
use ckb_contract_minitest::cells::xudt_data::{XUDTData, XUDTDataCell, XUDTWitness, EMPTY_WITNESS_ARGS};

#[test]
fn sudt_cell_new() {
    let cell = SUDTDataCell::new([1; 32], SUDTData { amount: 2005 });
    assert_eq!(cell.lock_arg, 0);
    assert_eq!(cell.type_arg, Some([1; 32]));
    assert_eq!(cell.data, SUDTData { amount: 2005 });
    assert_eq!(cell.witness, None);
    assert_eq!(
        cell.struct_flag,
        MoleculeStructFlag { lock_arg: true, type_arg: true, data: true, witness: false }
    );
}

#[test]
fn sudt_cell_default() {
    let cell = SUDTDataCell::default();
    assert_eq!(cell.lock_arg, 0);
    assert_eq!(cell.type_arg, None);
    assert_eq!(cell.data.amount, 0);
    assert_eq!(cell.witness, None);
    assert!(!cell.struct_flag.witness);
}

#[test]
fn xudt_cell_new() {
    let cell = XUDTDataCell::new([1; 32], XUDTData { amount: 2000 });
    assert_eq!(cell.lock_arg, 0);
    assert_eq!(cell.type_arg, Some([1; 32]));
    assert_eq!(cell.data, XUDTData { amount: 2000 });
    assert_eq!(
        cell.witness,
        Some(XUDTWitness { empty_witness_args: [16, 0, 0, 0, 16, 0, 0, 0, 16, 0, 0, 0, 16, 0, 0, 0] })
    );
    assert_eq!(cell.witness.clone().unwrap().empty_witness_args, EMPTY_WITNESS_ARGS);
    assert_eq!(
        cell.struct_flag,
        MoleculeStructFlag { lock_arg: true, type_arg: true, data: true, witness: true }
    );
    assert_eq!(cell, XUDTDataCell::new([1; 32], XUDTData { amount: 2000 }));
    assert_ne!(cell, XUDTDataCell::new([1; 32], XUDTData { amount: 1 }));
}

#[test]
fn xudt_cell_default() {
    let cell = XUDTDataCell::default();
    assert_eq!(cell.type_arg, None);
    assert_eq!(cell.data.amount, 0);
    assert_eq!(cell.witness, None);
    assert!(cell.struct_flag.witness);
}
