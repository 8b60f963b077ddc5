use vstd::prelude::*;

use crate::sudt::error::Error;

verus! {

/// Length in bytes of the data of an sUDT cell: one `u128` amount, little-endian.
pub const UDT_LEN: usize = 16;

/// The number that a byte sequence denotes read as an unsigned little-endian integer.
pub open spec fn le_value(bytes: Seq<u8>) -> nat
    decreases bytes.len(),
{
    if bytes.len() == 0 {
        0
    } else {
        bytes[0] as nat + 256 * le_value(bytes.drop_first())
    }
}

/// The data of a cell is a well-formed amount: exactly `UDT_LEN` bytes.
pub open spec fn is_amount_data(data: Seq<u8>) -> bool {
    data.len() == UDT_LEN
}

/// Every cell data in `cells` is a well-formed amount.
pub open spec fn all_amount_data(cells: Seq<Vec<u8>>) -> bool {
    forall|i: int| 0 <= i < cells.len() ==> is_amount_data(#[trigger] cells[i]@)
}

/// The sum of the amounts that the cell data in `cells` denote.
pub open spec fn total_amount(cells: Seq<Vec<u8>>) -> nat
    decreases cells.len(),
{
    if cells.len() == 0 {
        0
    } else {
        total_amount(cells.drop_last()) + le_value(cells.last()@)
    }
}

/// `u128::from_le_bytes`, which std documents as creating the integer whose
/// little-endian byte representation is `bytes`.
#[verifier::external_body]
fn u128_from_le_bytes(bytes: [u8; 16]) -> (value: u128)
    ensures
        value == le_value(bytes@),
{
    u128::from_le_bytes(bytes)
}

/// Reads the amount held in the data of one sUDT cell.
///
/// Succeeds exactly when the data is `UDT_LEN` bytes long, with the
/// little-endian value of those bytes; any other length is an encoding error.
pub fn parse_amount(data: &[u8]) -> (r: Result<u128, Error>)
    ensures
        match r {
            Ok(v) => is_amount_data(data@) && v == le_value(data@),
            Err(e) => !is_amount_data(data@) && e == Error::Encoding,
        },
{
    if data.len() == UDT_LEN {
        let buf: [u8; 16] = [
            data[0],
            data[1],
            data[2],
            data[3],
            data[4],
            data[5],
            data[6],
            data[7],
            data[8],
            data[9],
            data[10],
            data[11],
            data[12],
            data[13],
            data[14],
            data[15],
        ];
        assert(buf@ =~= data@);
        Ok(u128_from_le_bytes(buf))
    } else {
        Err(Error::Encoding)
    }
}

/// The total over a prefix of the cells never exceeds the total over all of them.
pub proof fn lemma_total_amount_prefix(cells: Seq<Vec<u8>>, k: int)
    requires
        0 <= k <= cells.len(),
    ensures
        total_amount(cells.take(k)) <= total_amount(cells),
    decreases cells.len(),
{
    if k == cells.len() {
        assert(cells.take(k) =~= cells);
    } else {
        assert(cells.drop_last().take(k) =~= cells.take(k));
        lemma_total_amount_prefix(cells.drop_last(), k);
    }
}

/// Reads every cell data as an amount and adds the amounts up.
///
/// Succeeds with the total exactly when every cell data is well-formed;
/// otherwise it is an encoding error. Adding up amounts whose total does not
/// fit in a `u128` overflows, which the caller rules out.
pub fn collect_amounts(cells: &Vec<Vec<u8>>) -> (r: Result<u128, Error>)
    requires
        all_amount_data(cells@) ==> total_amount(cells@) <= u128::MAX,
    ensures
        match r {
            Ok(v) => all_amount_data(cells@) && v == total_amount(cells@),
            Err(e) => !all_amount_data(cells@) && e == Error::Encoding,
        },
{
    let n = cells.len();
    let mut amounts: Vec<u128> = Vec::new();
    let mut i: usize = 0;
    while i < n
        invariant
            n == cells@.len(),
            0 <= i <= n,
            amounts@.len() == i,
            forall|j: int|
                0 <= j < i ==> is_amount_data(#[trigger] cells@[j]@) && amounts@[j] == le_value(
                    cells@[j]@,
                ),
        decreases n - i,
    {
        match parse_amount(cells[i].as_slice()) {
            Ok(v) => {
                amounts.push(v);
            },
            Err(e) => {
                assert(!is_amount_data(cells@[i as int]@));
                return Err(e);
            },
        }
        i = i + 1;
    }
    assert(all_amount_data(cells@));
    let mut sum: u128 = 0;
    let mut k: usize = 0;
    while k < n
        invariant
            n == cells@.len(),
            amounts@.len() == n,
            0 <= k <= n,
            forall|j: int| 0 <= j < n ==> amounts@[j] == le_value(#[trigger] cells@[j]@),
            total_amount(cells@) <= u128::MAX,
            sum == total_amount(cells@.take(k as int)),
        decreases n - k,
    {
        proof {
            assert(cells@.take(k + 1).drop_last() =~= cells@.take(k as int));
            lemma_total_amount_prefix(cells@, k + 1);
        }
        sum = sum + amounts[k];
        k = k + 1;
    }
    assert(cells@.take(n as int) =~= cells@);
    Ok(sum)
}

/// The total amount of the sUDT cells among the inputs of the script's group.
pub fn collect_inputs_amount(group_input_data: &Vec<Vec<u8>>) -> (r: Result<u128, Error>)
    requires
        all_amount_data(group_input_data@) ==> total_amount(group_input_data@) <= u128::MAX,
    ensures
        match r {
            Ok(v) => all_amount_data(group_input_data@) && v == total_amount(group_input_data@),
            Err(e) => !all_amount_data(group_input_data@) && e == Error::Encoding,
        },
{
    collect_amounts(group_input_data)
}

/// The total amount of the sUDT cells among the outputs of the script's group.
pub fn collect_outputs_amount(group_output_data: &Vec<Vec<u8>>) -> (r: Result<u128, Error>)
    requires
        all_amount_data(group_output_data@) ==> total_amount(group_output_data@) <= u128::MAX,
    ensures
        match r {
            Ok(v) => all_amount_data(group_output_data@) && v == total_amount(group_output_data@),
            Err(e) => !all_amount_data(group_output_data@) && e == Error::Encoding,
        },
{
    collect_amounts(group_output_data)
}

} // verus!
