use vstd::prelude::*;

use crate::cell_message::cell::MoleculeStructFlag;

verus! {

/// A cell of a simple UDT: its lock argument, the type argument that names
/// the token, the amount it holds, and an unused witness slot.
#[derive(PartialEq, Debug)]
pub struct SUDTDataCell {
    pub lock_arg: u8,
    pub type_arg: Option<[u8; 32]>,
    pub data: SUDTData,
    /// A placeholder: a simple UDT cell carries no witness.
    pub witness: Option<()>,
    pub struct_flag: MoleculeStructFlag,
}

/// The data of a simple UDT cell: the amount of tokens it holds.
#[derive(Clone, PartialEq, Debug)]
pub struct SUDTData {
    pub amount: u128,
}

/// The parts that a simple UDT cell carries: all but the witness.
pub open spec fn sudt_struct_flag() -> MoleculeStructFlag {
    MoleculeStructFlag { lock_arg: true, type_arg: true, data: true, witness: false }
}

impl SUDTDataCell {
    /// An empty cell: no type argument, no tokens.
    pub fn default() -> (cell: Self)
        ensures
            cell.lock_arg == 0,
            cell.type_arg is None,
            cell.data.amount == 0,
            cell.witness is None,
            cell.struct_flag == sudt_struct_flag(),
    {
        SUDTDataCell {
            lock_arg: 0,
            type_arg: None,
            data: SUDTData { amount: 0 },
            witness: None,
            struct_flag: MoleculeStructFlag {
                lock_arg: true,
                type_arg: true,
                data: true,
                witness: false,
            },
        }
    }

    /// A cell of the token named by `type_arg` that holds `data`.
    pub fn new(type_arg: [u8; 32], data: SUDTData) -> (cell: Self)
        ensures
            cell.lock_arg == 0,
            cell.type_arg == Some(type_arg),
            cell.data == data,
            cell.witness is None,
            cell.struct_flag == sudt_struct_flag(),
    {
        SUDTDataCell {
            lock_arg: 0,
            type_arg: Some(type_arg),
            data,
            witness: None,
            struct_flag: MoleculeStructFlag {
                lock_arg: true,
                type_arg: true,
                data: true,
                witness: false,
            },
        }
    }
}

} // verus!
