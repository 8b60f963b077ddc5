use vstd::prelude::*;

use crate::sudt::amount::{all_amount_data, is_amount_data, le_value, total_amount, UDT_LEN};
use crate::sudt::error::{error_code, result_code, Error};
use crate::sudt::script::{is_owner_mode, transaction_outcome};

verus! {

/// `256` to the power `n`.
pub open spec fn pow256(n: nat) -> nat
    decreases n,
{
    if n == 0 {
        1
    } else {
        256 * pow256((n - 1) as nat)
    }
}

/// The `n` low bytes of `x`, least significant first.
pub open spec fn le_bytes(x: nat, n: nat) -> Seq<u8>
    decreases n,
{
    if n == 0 {
        Seq::empty()
    } else {
        seq![(x % 256) as u8] + le_bytes(x / 256, (n - 1) as nat)
    }
}

proof fn lemma_le_bytes_value(x: nat, n: nat)
    requires
        x < pow256(n),
    ensures
        le_bytes(x, n).len() == n,
        le_value(le_bytes(x, n)) == x,
    decreases n,
{
    if n > 0 {
        let p = pow256((n - 1) as nat);
        assert(x / 256 < p) by (nonlinear_arith)
            requires
                x < 256 * p,
        ;
        lemma_le_bytes_value(x / 256, (n - 1) as nat);
        let s = le_bytes(x, n);
        assert(s.drop_first() =~= le_bytes(x / 256, (n - 1) as nat));
        assert(x == x % 256 + 256 * (x / 256)) by (nonlinear_arith);
    }
}

proof fn lemma_le_value_injective(a: Seq<u8>, b: Seq<u8>)
    requires
        a.len() == b.len(),
        le_value(a) == le_value(b),
    ensures
        a == b,
    decreases a.len(),
{
    if a.len() > 0 {
        let x = a[0] as int;
        let u = b[0] as int;
        let y = le_value(a.drop_first()) as int;
        let v = le_value(b.drop_first()) as int;
        assert(x == u && y == v) by (nonlinear_arith)
            requires
                0 <= x < 256,
                0 <= u < 256,
                0 <= y,
                0 <= v,
                x + 256 * y == u + 256 * v,
        ;
        lemma_le_value_injective(a.drop_first(), b.drop_first());
        assert(a =~= seq![a[0]] + a.drop_first());
        assert(b =~= seq![b[0]] + b.drop_first());
    }
}

/// Every `u128` amount is held by some well-formed cell data.
pub proof fn lemma_every_amount_has_data(amount: u128)
    ensures
        exists|data: Seq<u8>| is_amount_data(data) && le_value(data) == amount,
{
    reveal_with_fuel(pow256, 17);
    assert(pow256(16) == 0x1_0000_0000_0000_0000_0000_0000_0000_0000);
    lemma_le_bytes_value(amount as nat, UDT_LEN as nat);
    let data = le_bytes(amount as nat, UDT_LEN as nat);
    assert(is_amount_data(data) && le_value(data) == amount);
}

/// Two well-formed cell data that hold the same amount are the same bytes.
pub proof fn lemma_amount_data_injective(a: Seq<u8>, b: Seq<u8>)
    requires
        is_amount_data(a),
        is_amount_data(b),
        le_value(a) == le_value(b),
    ensures
        a == b,
{
    lemma_le_value_injective(a, b);
}

/// The total of two groups of cells put together is the sum of their totals.
pub proof fn lemma_total_amount_concat(a: Seq<Vec<u8>>, b: Seq<Vec<u8>>)
    ensures
        total_amount(a + b) == total_amount(a) + total_amount(b),
    decreases b.len(),
{
    if b.len() == 0 {
        assert(a + b =~= a);
    } else {
        assert((a + b).drop_last() =~= a + b.drop_last());
        assert((a + b).last() == b.last());
        lemma_total_amount_concat(a, b.drop_last());
    }
}

/// `cells` with the cells at `i` and `j` exchanged.
pub open spec fn swap_cells(cells: Seq<Vec<u8>>, i: int, j: int) -> Seq<Vec<u8>> {
    cells.update(i, cells[j]).update(j, cells[i])
}

proof fn lemma_total_amount_swap_ordered(s: Seq<Vec<u8>>, i: int, j: int)
    requires
        0 <= i < j < s.len(),
    ensures
        total_amount(swap_cells(s, i, j)) == total_amount(s),
{
    let t = swap_cells(s, i, j);
    let a = s.subrange(0, i);
    let m = s.subrange(i + 1, j);
    let c = s.subrange(j + 1, s.len() as int);
    let x = seq![s[i]];
    let y = seq![s[j]];
    assert(s =~= a + x + m + y + c);
    assert(t =~= a + y + m + x + c);
    lemma_total_amount_concat(a + x + m + y, c);
    lemma_total_amount_concat(a + x + m, y);
    lemma_total_amount_concat(a + x, m);
    lemma_total_amount_concat(a, x);
    lemma_total_amount_concat(a + y + m + x, c);
    lemma_total_amount_concat(a + y + m, x);
    lemma_total_amount_concat(a + y, m);
    lemma_total_amount_concat(a, y);
    assert(total_amount(Seq::<Vec<u8>>::empty()) == 0);
    assert(x.drop_last() =~= Seq::<Vec<u8>>::empty());
    assert(y.drop_last() =~= Seq::<Vec<u8>>::empty());
    assert(x.last() == s[i]);
    assert(y.last() == s[j]);
    assert(total_amount(x) == le_value(s[i]@));
    assert(total_amount(y) == le_value(s[j]@));
}

/// Exchanging two cells of a group changes neither whether all of its data
/// are well-formed nor its total amount.
pub proof fn lemma_swap_keeps_amounts(cells: Seq<Vec<u8>>, i: int, j: int)
    requires
        0 <= i < cells.len(),
        0 <= j < cells.len(),
    ensures
        all_amount_data(swap_cells(cells, i, j)) == all_amount_data(cells),
        total_amount(swap_cells(cells, i, j)) == total_amount(cells),
{
    let t = swap_cells(cells, i, j);
    if i < j {
        lemma_total_amount_swap_ordered(cells, i, j);
    } else if j < i {
        assert(t =~= swap_cells(cells, j, i));
        lemma_total_amount_swap_ordered(cells, j, i);
    } else {
        assert(t =~= cells);
    }
    if all_amount_data(cells) {
        assert forall|k: int| 0 <= k < t.len() implies is_amount_data(#[trigger] t[k]@) by {
            if k == j {
            } else if k == i {
            } else {
            }
        }
    }
    if all_amount_data(t) {
        assert forall|k: int| 0 <= k < cells.len() implies is_amount_data(#[trigger] cells[k]@) by {
            if k == i {
                assert(t[j] == cells[i]);
            } else if k == j {
                assert(t[i] == cells[j]);
            } else {
                assert(t[k] == cells[k]);
            }
        }
    }
}

/// A transaction in owner mode is always accepted: the owner may mint, burn
/// and move tokens freely.
pub proof fn lemma_owner_mode_accepted(
    args: Seq<u8>,
    input_lock_hashes: Seq<[u8; 32]>,
    group_input_data: Seq<Vec<u8>>,
    group_output_data: Seq<Vec<u8>>,
)
    requires
        is_owner_mode(args, input_lock_hashes),
    ensures
        transaction_outcome(args, input_lock_hashes, group_input_data, group_output_data) == Ok::<
            (),
            Error,
        >(()),
{
}

/// Outside owner mode, a transaction whose cell data are all well-formed is
/// accepted exactly when its outputs hold no more tokens than its inputs, and
/// is otherwise refused for its amounts.
pub proof fn lemma_no_inflation_outside_owner_mode(
    args: Seq<u8>,
    input_lock_hashes: Seq<[u8; 32]>,
    group_input_data: Seq<Vec<u8>>,
    group_output_data: Seq<Vec<u8>>,
)
    requires
        !is_owner_mode(args, input_lock_hashes),
        all_amount_data(group_input_data),
        all_amount_data(group_output_data),
    ensures
        (transaction_outcome(args, input_lock_hashes, group_input_data, group_output_data) == Ok::<
            (),
            Error,
        >(())) == (total_amount(group_output_data) <= total_amount(group_input_data)),
        transaction_outcome(args, input_lock_hashes, group_input_data, group_output_data) is Ok
            || transaction_outcome(args, input_lock_hashes, group_input_data, group_output_data)
            == Err::<(), Error>(Error::Amount),
{
}

/// Outside owner mode, a transaction with a malformed cell data in its group is
/// refused as an encoding error, whatever the amounts.
pub proof fn lemma_malformed_data_refused(
    args: Seq<u8>,
    input_lock_hashes: Seq<[u8; 32]>,
    group_input_data: Seq<Vec<u8>>,
    group_output_data: Seq<Vec<u8>>,
)
    requires
        !is_owner_mode(args, input_lock_hashes),
        !all_amount_data(group_input_data) || !all_amount_data(group_output_data),
    ensures
        transaction_outcome(args, input_lock_hashes, group_input_data, group_output_data) == Err::<
            (),
            Error,
        >(Error::Encoding),
{
}

/// The order of the cells in a group does not matter: exchanging two inputs,
/// or two outputs, leaves the decision unchanged.
pub proof fn lemma_cell_order_irrelevant(
    args: Seq<u8>,
    input_lock_hashes: Seq<[u8; 32]>,
    group_input_data: Seq<Vec<u8>>,
    group_output_data: Seq<Vec<u8>>,
    i: int,
    j: int,
    k: int,
    l: int,
)
    requires
        0 <= i < group_input_data.len(),
        0 <= j < group_input_data.len(),
        0 <= k < group_output_data.len(),
        0 <= l < group_output_data.len(),
    ensures
        transaction_outcome(
            args,
            input_lock_hashes,
            swap_cells(group_input_data, i, j),
            group_output_data,
        ) == transaction_outcome(args, input_lock_hashes, group_input_data, group_output_data),
        transaction_outcome(
            args,
            input_lock_hashes,
            group_input_data,
            swap_cells(group_output_data, k, l),
        ) == transaction_outcome(args, input_lock_hashes, group_input_data, group_output_data),
{
    lemma_swap_keeps_amounts(group_input_data, i, j);
    lemma_swap_keeps_amounts(group_output_data, k, l);
}

/// The exit code tells every outcome apart: it is zero exactly on success,
/// and two errors share a code only when they are the same error.
pub proof fn lemma_exit_code_faithful(r: Result<(), Error>, e1: Error, e2: Error)
    ensures
        (result_code(r) == 0) == (r is Ok),
        (error_code(e1) == error_code(e2)) == (e1 == e2),
{
    match r {
        Ok(()) => {},
        Err(e) => lemma_error_code_positive(e),
    }
    match e1 {
        Error::IndexOutOfBound => {},
        Error::ItemMissing => {},
        Error::LengthNotEnough => {},
        Error::Encoding => {},
        Error::Amount => {},
    }
    match e2 {
        Error::IndexOutOfBound => {},
        Error::ItemMissing => {},
        Error::LengthNotEnough => {},
        Error::Encoding => {},
        Error::Amount => {},
    }
}

proof fn lemma_error_code_positive(e: Error)
    ensures
        error_code(e) > 0,
{
    match e {
        Error::IndexOutOfBound => {},
        Error::ItemMissing => {},
        Error::LengthNotEnough => {},
        Error::Encoding => {},
        Error::Amount => {},
    }
}

/// Owner mode is exactly the presence, among all inputs, of a lock hash that
/// is byte for byte equal to the script's argument: any matching input, at
/// any position, puts the transaction in owner mode, and owner mode needs one.
pub proof fn lemma_owner_mode_is_matching_lock_hash(
    args: Seq<u8>,
    input_lock_hashes: Seq<[u8; 32]>,
    i: int,
)
    ensures
        0 <= i < input_lock_hashes.len() && input_lock_hashes[i]@ == args ==> is_owner_mode(
            args,
            input_lock_hashes,
        ),
        is_owner_mode(args, input_lock_hashes) ==> exists|k: int|
            0 <= k < input_lock_hashes.len() && #[trigger] input_lock_hashes[k]@ == args,
{
}

/// A group's data are all well-formed exactly when every one of them is
/// sixteen bytes long, whatever amounts they hold.
pub proof fn lemma_well_formed_is_sixteen_bytes(cells: Seq<Vec<u8>>)
    ensures
        all_amount_data(cells) == (forall|i: int| 0 <= i < cells.len() ==> #[trigger] cells[i]@.len() == 16),
{
}

/// Reading little-endian: no bytes denote zero, and a leading byte `b` in
/// front of `rest` denotes `b + 256 * rest`.
pub proof fn lemma_le_value_steps(b: u8, rest: Seq<u8>)
    ensures
        le_value(Seq::<u8>::empty()) == 0,
        le_value(seq![b] + rest) == b + 256 * le_value(rest),
{
    assert((seq![b] + rest).drop_first() =~= rest);
}

/// The total of no cells is zero, and appending a cell adds the amount that
/// its data denotes.
pub proof fn lemma_total_amount_steps(cells: Seq<Vec<u8>>, cell: Vec<u8>)
    ensures
        total_amount(Seq::<Vec<u8>>::empty()) == 0,
        total_amount(cells.push(cell)) == total_amount(cells) + le_value(cell@),
{
    assert(cells.push(cell).drop_last() =~= cells);
}

/// The whole decision in terms of the loaded values: a transaction with an
/// input locked by the script's argument is accepted; otherwise, with every
/// data sixteen bytes long, it is accepted exactly when the outputs add up to
/// no more than the inputs, and refused for its amounts if they do; a datum of
/// another length makes it an encoding error.
pub proof fn lemma_transaction_outcome_ground(
    args: Seq<u8>,
    input_lock_hashes: Seq<[u8; 32]>,
    group_input_data: Seq<Vec<u8>>,
    group_output_data: Seq<Vec<u8>>,
    owner_index: int,
    bad_index: int,
)
    ensures
        0 <= owner_index < input_lock_hashes.len() && input_lock_hashes[owner_index]@ == args
            ==> transaction_outcome(args, input_lock_hashes, group_input_data, group_output_data)
            == Ok::<(), Error>(()),
        (forall|i: int| 0 <= i < input_lock_hashes.len() ==> #[trigger] input_lock_hashes[i]@ != args)
            && (forall|i: int| 0 <= i < group_input_data.len() ==> #[trigger] group_input_data[i]@.len() == 16)
            && (forall|i: int| 0 <= i < group_output_data.len() ==> #[trigger] group_output_data[i]@.len() == 16)
            ==> transaction_outcome(args, input_lock_hashes, group_input_data, group_output_data)
            == (if total_amount(group_output_data) <= total_amount(group_input_data) {
                Ok::<(), Error>(())
            } else {
                Err::<(), Error>(Error::Amount)
            }),
        (forall|i: int| 0 <= i < input_lock_hashes.len() ==> #[trigger] input_lock_hashes[i]@ != args)
            && ((0 <= bad_index < group_input_data.len() && group_input_data[bad_index]@.len() != 16)
            || (0 <= bad_index < group_output_data.len() && group_output_data[bad_index]@.len() != 16))
            ==> transaction_outcome(args, input_lock_hashes, group_input_data, group_output_data)
            == Err::<(), Error>(Error::Encoding),
{
    lemma_owner_mode_is_matching_lock_hash(args, input_lock_hashes, owner_index);
    lemma_well_formed_is_sixteen_bytes(group_input_data);
    lemma_well_formed_is_sixteen_bytes(group_output_data);
    if is_owner_mode(args, input_lock_hashes) {
        let k = choose|k: int| 0 <= k < input_lock_hashes.len() && #[trigger] input_lock_hashes[k]@ == args;
        assert(input_lock_hashes[k]@ == args);
    }
    if 0 <= bad_index < group_input_data.len() && group_input_data[bad_index]@.len() != 16 {
        assert(!is_amount_data(group_input_data[bad_index]@));
    }
    if 0 <= bad_index < group_output_data.len() && group_output_data[bad_index]@.len() != 16 {
        assert(!is_amount_data(group_output_data[bad_index]@));
    }
}

} // verus!
