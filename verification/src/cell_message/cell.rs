use vstd::prelude::*;

verus! {

/// Which of the four parts of a cell (lock argument, type argument, data,
/// witness) a cell model carries.
#[derive(PartialEq, Eq, Debug, Clone, Copy)]
pub struct MoleculeStructFlag {
    pub lock_arg: bool,
    pub type_arg: bool,
    pub data: bool,
    pub witness: bool,
}

} // verus!
