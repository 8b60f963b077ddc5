use vstd::prelude::*;

use crate::sudt::amount::{all_amount_data, collect_inputs_amount, collect_outputs_amount, total_amount};
use crate::sudt::error::Error;

verus! {

/// Owner mode: the script's argument equals the lock hash of one of the
/// transaction's inputs, so the owner of the token signs the transaction.
pub open spec fn is_owner_mode(args: Seq<u8>, input_lock_hashes: Seq<[u8; 32]>) -> bool {
    exists|i: int| 0 <= i < input_lock_hashes.len() && (#[trigger] input_lock_hashes[i])@ == args
}

/// What the sUDT type script decides for a transaction: the owner may do
/// anything; anyone else must present well-formed amounts, inputs first, and
/// may not create more tokens than the inputs of the group hold.
pub open spec fn transaction_outcome(
    args: Seq<u8>,
    input_lock_hashes: Seq<[u8; 32]>,
    group_input_data: Seq<Vec<u8>>,
    group_output_data: Seq<Vec<u8>>,
) -> Result<(), Error> {
    if is_owner_mode(args, input_lock_hashes) {
        Ok(())
    } else if !all_amount_data(group_input_data) || !all_amount_data(group_output_data) {
        Err(Error::Encoding)
    } else if total_amount(group_input_data) < total_amount(group_output_data) {
        Err(Error::Amount)
    } else {
        Ok(())
    }
}

/// The totals that the script adds up fit in a `u128`. The script adds up
/// the inputs only outside owner mode, and the outputs only once the inputs
/// were all well-formed.
pub open spec fn totals_fit(
    args: Seq<u8>,
    input_lock_hashes: Seq<[u8; 32]>,
    group_input_data: Seq<Vec<u8>>,
    group_output_data: Seq<Vec<u8>>,
) -> bool {
    !is_owner_mode(args, input_lock_hashes) ==> {
        &&& all_amount_data(group_input_data) ==> total_amount(group_input_data) <= u128::MAX
        &&& all_amount_data(group_input_data) && all_amount_data(group_output_data)
            ==> total_amount(group_output_data) <= u128::MAX
    }
}

/// Whether `bytes` equals `hash`, byte for byte.
fn bytes_equal(bytes: &[u8], hash: &[u8; 32]) -> (r: bool)
    ensures
        r == (bytes@ == hash@),
{
    if bytes.len() != 32 {
        return false;
    }
    let mut i: usize = 0;
    while i < 32
        invariant
            bytes@.len() == 32,
            hash@.len() == 32,
            0 <= i <= 32,
            forall|j: int| 0 <= j < i ==> bytes@[j] == hash@[j],
        decreases 32 - i,
    {
        if bytes[i] != hash[i] {
            return false;
        }
        i = i + 1;
    }
    assert(bytes@ =~= hash@);
    true
}

/// Whether the transaction runs in owner mode: some input's lock hash equals
/// the script's argument. It never fails.
pub fn check_owner_mode(args: &[u8], input_lock_hashes: &Vec<[u8; 32]>) -> (r: Result<bool, Error>)
    ensures
        r == Ok::<bool, Error>(is_owner_mode(args@, input_lock_hashes@)),
{
    let n = input_lock_hashes.len();
    let mut i: usize = 0;
    while i < n
        invariant
            n == input_lock_hashes@.len(),
            0 <= i <= n,
            forall|j: int| 0 <= j < i ==> (#[trigger] input_lock_hashes@[j])@ != args@,
        decreases n - i,
    {
        if bytes_equal(args, &input_lock_hashes[i]) {
            assert(input_lock_hashes@[i as int]@ == args@);
            return Ok(true);
        }
        i = i + 1;
    }
    Ok(false)
}

/// Runs the sUDT type script on the values it loads: its argument, the lock
/// hashes of all inputs, and the data of the inputs and outputs of its group.
pub fn verify_transaction(
    args: &[u8],
    input_lock_hashes: &Vec<[u8; 32]>,
    group_input_data: &Vec<Vec<u8>>,
    group_output_data: &Vec<Vec<u8>>,
) -> (r: Result<(), Error>)
    requires
        totals_fit(args@, input_lock_hashes@, group_input_data@, group_output_data@),
    ensures
        r == transaction_outcome(args@, input_lock_hashes@, group_input_data@, group_output_data@),
{
    if check_owner_mode(args, input_lock_hashes)? {
        return Ok(());
    }
    let inputs_amount = collect_inputs_amount(group_input_data)?;
    let outputs_amount = collect_outputs_amount(group_output_data)?;
    if inputs_amount < outputs_amount {
        return Err(Error::Amount);
    }
    Ok(())
}

} // verus!
