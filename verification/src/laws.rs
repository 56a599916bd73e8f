//! The guarantees the counter gives across whole runs of calls, stated over
//! the specification-level step functions and proved once and for all.

use vstd::prelude::*;
use crate::codec::{count_to_bytes, lemma_count_round_trip};
use crate::counter::{dec_floored, inc_wrapped, COUNTER_SPACE};
use crate::processor::{
    account_step_result, data_after_op, stored_count, AccountModel, CounterError, OP_DECREMENT,
    OP_INCREMENT, OP_VIEW,
};

verus! {

/// The account buffer after a whole run of operations, applied in order.
pub open spec fn data_after_ops(data: Seq<u8>, ops: Seq<u8>) -> Seq<u8>
    decreases ops.len(),
{
    if ops.len() == 0 {
        data
    } else {
        data_after_ops(data_after_op(data, ops[0]), ops.drop_first())
    }
}

/// A run of `n` copies of the same opcode.
pub open spec fn repeat_op(op: u8, n: nat) -> Seq<u8> {
    Seq::new(n, |i: int| op)
}

/// A run of operations applied to a buffer is the second half applied to the
/// result of the first half.
pub proof fn lemma_data_after_ops_append(data: Seq<u8>, ops1: Seq<u8>, ops2: Seq<u8>)
    ensures
        data_after_ops(data, ops1 + ops2) == data_after_ops(data_after_ops(data, ops1), ops2),
    decreases ops1.len(),
{
    if ops1.len() == 0 {
        assert(ops1 + ops2 =~= ops2);
    } else {
        assert((ops1 + ops2)[0] == ops1[0]);
        assert((ops1 + ops2).drop_first() =~= ops1.drop_first() + ops2);
        lemma_data_after_ops_append(data_after_op(data, ops1[0]), ops1.drop_first(), ops2);
    }
}

/// On a buffer of exactly the encoding width, a write opcode leaves a buffer
/// of the same width whose stored count is the operation applied to the old
/// stored count: the encoding written back decodes to what was written.
pub proof fn lemma_write_op_stored(data: Seq<u8>, op: u8)
    requires
        data.len() == COUNTER_SPACE,
        op == OP_INCREMENT || op == OP_DECREMENT,
    ensures
        data_after_op(data, op).len() == COUNTER_SPACE,
        op == OP_INCREMENT ==> stored_count(data_after_op(data, op)) == inc_wrapped(
            stored_count(data),
        ),
        op == OP_DECREMENT ==> stored_count(data_after_op(data, op)) == dec_floored(
            stored_count(data),
        ),
{
    let v = if op == OP_INCREMENT {
        inc_wrapped(stored_count(data))
    } else {
        dec_floored(stored_count(data))
    };
    assert(data_after_op(data, op) =~= count_to_bytes(v));
    lemma_count_round_trip(v);
}

/// Idempotent view: a run of view opcodes, of any length, changes no stored
/// byte, so every view in the run reports the same value.
pub proof fn lemma_view_run_idempotent(data: Seq<u8>, n: nat)
    ensures
        data_after_ops(data, repeat_op(OP_VIEW, n)) == data,
        stored_count(data_after_ops(data, repeat_op(OP_VIEW, n))) == stored_count(data),
    decreases n,
{
    if n > 0 {
        assert(repeat_op(OP_VIEW, n).drop_first() =~= repeat_op(OP_VIEW, (n - 1) as nat));
        assert(data_after_op(data, OP_VIEW) == data);
        lemma_view_run_idempotent(data, (n - 1) as nat);
    }
}

/// Floor at zero: a decrement on a counter stored as zero stores zero again,
/// and it is not an error.
pub proof fn lemma_floor_at_zero(data: Seq<u8>)
    requires
        data.len() == COUNTER_SPACE,
        stored_count(data) == 0,
    ensures
        stored_count(data_after_op(data, OP_DECREMENT)) == 0,
{
    lemma_write_op_stored(data, OP_DECREMENT);
}

/// A run of `n` increments raises the stored count by `n`, as long as the sum
/// stays within 32 bits.
pub proof fn lemma_increment_run(data: Seq<u8>, n: nat)
    requires
        data.len() == COUNTER_SPACE,
        stored_count(data) + n <= u32::MAX,
    ensures
        data_after_ops(data, repeat_op(OP_INCREMENT, n)).len() == COUNTER_SPACE,
        stored_count(data_after_ops(data, repeat_op(OP_INCREMENT, n))) == stored_count(data) + n,
    decreases n,
{
    if n > 0 {
        lemma_write_op_stored(data, OP_INCREMENT);
        assert(repeat_op(OP_INCREMENT, n).drop_first() =~= repeat_op(
            OP_INCREMENT,
            (n - 1) as nat,
        ));
        lemma_increment_run(data_after_op(data, OP_INCREMENT), (n - 1) as nat);
    }
}

/// A run of `n` decrements lowers the stored count by `n`, as long as the
/// count never reaches the floor along the way.
pub proof fn lemma_decrement_run(data: Seq<u8>, n: nat)
    requires
        data.len() == COUNTER_SPACE,
        n <= stored_count(data),
    ensures
        data_after_ops(data, repeat_op(OP_DECREMENT, n)).len() == COUNTER_SPACE,
        stored_count(data_after_ops(data, repeat_op(OP_DECREMENT, n))) == stored_count(data) - n,
    decreases n,
{
    if n > 0 {
        lemma_write_op_stored(data, OP_DECREMENT);
        assert(repeat_op(OP_DECREMENT, n).drop_first() =~= repeat_op(
            OP_DECREMENT,
            (n - 1) as nat,
        ));
        lemma_decrement_run(data_after_op(data, OP_DECREMENT), (n - 1) as nat);
    }
}

/// Monotonic round trip: starting from a buffer storing count `c`, a run of
/// `n` increments followed by `n` decrements stores `c` again. The sum
/// `c + n` must stay within 32 bits: from `c = u32::MAX` with `n = 1`, the
/// increment wraps to zero and the decrement floors there, ending at zero.
pub proof fn lemma_monotonic_round_trip(data: Seq<u8>, n: nat)
    requires
        data.len() == COUNTER_SPACE,
        stored_count(data) + n <= u32::MAX,
    ensures
        stored_count(
            data_after_ops(data, repeat_op(OP_INCREMENT, n) + repeat_op(OP_DECREMENT, n)),
        ) == stored_count(data),
{
    lemma_data_after_ops_append(data, repeat_op(OP_INCREMENT, n), repeat_op(OP_DECREMENT, n));
    lemma_increment_run(data, n);
    lemma_decrement_run(data_after_ops(data, repeat_op(OP_INCREMENT, n)), n);
}

/// Fresh-account default: a buffer whose bytes do not form a valid encoding
/// (any length other than the encoding width) reads as count zero, and a view
/// of it writes nothing.
pub proof fn lemma_fresh_account_default(data: Seq<u8>)
    requires
        data.len() != COUNTER_SPACE,
    ensures
        stored_count(data) == 0,
        data_after_op(data, OP_VIEW) == data,
{
}

/// Ownership gate: whatever the instruction — every opcode, or none — a call
/// whose first account is not owned by the executing identity fails with
/// `IncorrectOwner`.
pub proof fn lemma_ownership_gate(
    program_id: Seq<u8>,
    account: AccountModel,
    instruction_data: Seq<u8>,
)
    requires
        account.owner != program_id,
    ensures
        account_step_result(program_id, account, instruction_data) == Err::<(), CounterError>(
            CounterError::IncorrectOwner,
        ),
{
}

/// Size gate: whatever the instruction, a call on an owned account whose
/// buffer is shorter than the encoding width fails with `AccountTooSmall`.
pub proof fn lemma_size_gate(
    program_id: Seq<u8>,
    account: AccountModel,
    instruction_data: Seq<u8>,
)
    requires
        account.owner == program_id,
        account.data.len() < COUNTER_SPACE,
    ensures
        account_step_result(program_id, account, instruction_data) == Err::<(), CounterError>(
            CounterError::AccountTooSmall,
        ),
{
}

/// Opcode exhaustiveness: on an account that passes the owner and size gates,
/// an empty instruction or an opcode outside the three known ones fails with
/// `InvalidInstruction`, and exactly the three known opcodes succeed.
pub proof fn lemma_opcode_exhaustive(
    program_id: Seq<u8>,
    account: AccountModel,
    instruction_data: Seq<u8>,
)
    requires
        account.owner == program_id,
        account.data.len() >= COUNTER_SPACE,
    ensures
        account_step_result(program_id, account, instruction_data) == (
        if instruction_data.len() > 0 && (instruction_data[0] == OP_INCREMENT
            || instruction_data[0] == OP_DECREMENT || instruction_data[0] == OP_VIEW) {
            Ok::<(), CounterError>(())
        } else {
            Err::<(), CounterError>(CounterError::InvalidInstruction)
        }),
{
}

} // verus!
