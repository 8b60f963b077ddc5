use vstd::prelude::*;

use crate::cell_message::cell::MoleculeStructFlag;

verus! {

/// A cell of an extensible UDT: its lock argument, the type argument that
/// names the token, the amount it holds, and its witness.
#[derive(PartialEq, Debug)]
pub struct XUDTDataCell {
    pub lock_arg: u8,
    pub type_arg: Option<[u8; 32]>,
    pub data: XUDTData,
    pub witness: Option<XUDTWitness>,
    pub struct_flag: MoleculeStructFlag,
}

/// The data of an extensible UDT cell: the amount of tokens it holds.
#[derive(Clone, PartialEq, Debug)]
pub struct XUDTData {
    pub amount: u128,
}

/// The serialized `WitnessArgs` with all three of its fields absent: a
/// total size of 16, then three offsets of 16.
pub const EMPTY_WITNESS_ARGS: [u8; 16] = [16, 0, 0, 0, 16, 0, 0, 0, 16, 0, 0, 0, 16, 0, 0, 0];

/// The witness of an extensible UDT cell.
#[derive(Clone, PartialEq, Debug)]
pub struct XUDTWitness {
    pub empty_witness_args: [u8; 16],
}

/// The parts that an extensible UDT cell carries: all four.
pub open spec fn xudt_struct_flag() -> MoleculeStructFlag {
    MoleculeStructFlag { lock_arg: true, type_arg: true, data: true, witness: true }
}

impl XUDTDataCell {
    /// An empty cell: no type argument, no tokens, no witness.
    pub fn default() -> (cell: Self)
        ensures
            cell.lock_arg == 0,
            cell.type_arg is None,
            cell.data.amount == 0,
            cell.witness is None,
            cell.struct_flag == xudt_struct_flag(),
    {
        return XUDTDataCell {
            lock_arg: 0,
            type_arg: None,
            data: XUDTData { amount: 0 },
            witness: None,
            struct_flag: MoleculeStructFlag {
                lock_arg: true,
                type_arg: true,
                data: true,
                witness: true,
            },
        };
    }

    /// A cell of the token named by `type_arg` that holds `data`, with the
    /// empty witness arguments as its witness.
    pub fn new(type_arg: [u8; 32], data: XUDTData) -> (cell: Self)
        ensures
            cell.lock_arg == 0,
            cell.type_arg == Some(type_arg),
            cell.data == data,
            cell.witness == Some(XUDTWitness { empty_witness_args: EMPTY_WITNESS_ARGS }),
            cell.struct_flag == xudt_struct_flag(),
    {
        return XUDTDataCell {
            lock_arg: 0,
            type_arg: Some(type_arg),
            data: data,
            witness: Some(XUDTWitness { empty_witness_args: EMPTY_WITNESS_ARGS }),
            struct_flag: MoleculeStructFlag {
                lock_arg: true,
                type_arg: true,
                data: true,
                witness: true,
            },
        };
    }
}

} // verus!
