//! The per-call dispatch logic: validate the account handed in by the host,
//! read the opcode, and perform the requested counter operation on the
//! account's byte buffer.

use vstd::prelude::*;
use crate::codec::{count_from_bytes, count_to_bytes, load_count, store_count};
use crate::counter::{dec_floored, inc_wrapped, Counter, COUNTER_SPACE};

verus! {

/// Increment opcode: add one to the stored count and write it back.
pub const OP_INCREMENT: u8 = 1;

/// Decrement opcode: subtract one unless the stored count is zero.
pub const OP_DECREMENT: u8 = 2;

/// View opcode: report the stored count without writing anything.
pub const OP_VIEW: u8 = 3;

/// A principal identity as raw bytes: the recorded owner of an account, or
/// the identity the program is executing under.
#[derive(Debug)]
pub struct Identity {
    pub bytes: Vec<u8>,
}

impl View for Identity {
    type V = Seq<u8>;

    open spec fn view(&self) -> Seq<u8> {
        self.bytes@
    }
}

impl PartialEq for Identity {
    fn eq(&self, other: &Identity) -> (r: bool) {
        if self.bytes.len() != other.bytes.len() {
            return false;
        }
        let n = self.bytes.len();
        let mut i: usize = 0;
        while i < n
            invariant
                0 <= i <= n,
                n == self.bytes@.len(),
                n == other.bytes@.len(),
                forall|j: int| 0 <= j < i ==> self.bytes@[j] == other.bytes@[j],
            decreases n - i,
        {
            if self.bytes[i] != other.bytes[i] {
                return false;
            }
            i = i + 1;
        }
        proof {
            assert(self.bytes@ =~= other.bytes@);
        }
        true
    }
}

impl vstd::std_specs::cmp::PartialEqSpecImpl for Identity {
    open spec fn obeys_eq_spec() -> bool {
        true
    }

    open spec fn eq_spec(&self, other: &Identity) -> bool {
        self@ == other@
    }
}

/// One account handle handed in by the host: its recorded owner and its
/// mutable byte buffer.
#[derive(Debug)]
pub struct Account {
    pub owner: Identity,
    pub data: Vec<u8>,
}

/// The mathematical shape of an account: two byte sequences.
pub struct AccountModel {
    pub owner: Seq<u8>,
    pub data: Seq<u8>,
}

impl View for Account {
    type V = AccountModel;

    open spec fn view(&self) -> AccountModel {
        AccountModel { owner: self.owner@, data: self.data@ }
    }
}

/// Why a call was rejected. Every failure leaves the stored bytes unchanged.
#[derive(Clone, Copy, Debug, PartialEq, Eq, Structural)]
pub enum CounterError {
    /// The account list was empty.
    MissingAccount,
    /// The first account's recorded owner is not the executing identity.
    IncorrectOwner,
    /// The first account's buffer is shorter than the encoding width.
    AccountTooSmall,
    /// The instruction buffer was empty, or its opcode is unrecognized.
    InvalidInstruction,
}

/// The count a call materializes from an account buffer: the decoded value
/// when the bytes form a valid encoding, and zero otherwise (an account whose
/// bytes do not decode is treated as freshly initialized, never an error).
pub open spec fn stored_count(data: Seq<u8>) -> u32 {
    if data.len() == COUNTER_SPACE {
        count_from_bytes(data)
    } else {
        0
    }
}

/// The account buffer after one operation: opcodes that write replace the
/// leading four bytes with the new count's encoding and leave the rest
/// untouched; the view opcode changes nothing.
pub open spec fn data_after_op(data: Seq<u8>, op: u8) -> Seq<u8>
    recommends
        data.len() >= COUNTER_SPACE,
{
    if op == OP_INCREMENT {
        count_to_bytes(inc_wrapped(stored_count(data))) + data.skip(COUNTER_SPACE as int)
    } else if op == OP_DECREMENT {
        count_to_bytes(dec_floored(stored_count(data))) + data.skip(COUNTER_SPACE as int)
    } else {
        data
    }
}

/// The outcome of one call against one account, after the account itself was
/// found: each validation failure mapped to its error, success exactly on the
/// three known opcodes.
pub open spec fn account_step_result(
    program_id: Seq<u8>,
    account: AccountModel,
    instruction_data: Seq<u8>,
) -> Result<(), CounterError> {
    if account.owner != program_id {
        Err(CounterError::IncorrectOwner)
    } else if account.data.len() < COUNTER_SPACE {
        Err(CounterError::AccountTooSmall)
    } else if instruction_data.len() == 0 {
        Err(CounterError::InvalidInstruction)
    } else if instruction_data[0] == OP_INCREMENT || instruction_data[0] == OP_DECREMENT
        || instruction_data[0] == OP_VIEW {
        Ok(())
    } else {
        Err(CounterError::InvalidInstruction)
    }
}

/// The outcome of one call: a missing account is rejected first, then the
/// first account decides as `account_step_result` says.
pub open spec fn step_result(
    program_id: Seq<u8>,
    accounts: Seq<AccountModel>,
    instruction_data: Seq<u8>,
) -> Result<(), CounterError> {
    if accounts.len() == 0 {
        Err(CounterError::MissingAccount)
    } else {
        account_step_result(program_id, accounts[0], instruction_data)
    }
}

/// The models of a list of accounts.
pub open spec fn account_models(accounts: Seq<Account>) -> Seq<AccountModel> {
    accounts.map_values(|a: Account| a@)
}

/// Materialize the counter from an account's bytes, treating bytes that do
/// not decode as a fresh zero-valued counter. Never fails.
pub fn get_or_init_counter(account: &Account) -> (r: Result<Counter, CounterError>)
    ensures
        r == Ok::<Counter, CounterError>(Counter { count: stored_count(account@.data) }),
{
    match load_count(account.data.as_slice()) {
        Some(v) => Ok(Counter { count: v }),
        None => Ok(Counter::new()),
    }
}

/// Run one call against the single account it concerns: validate ownership,
/// buffer size and the opcode, then perform the operation. Exactly the write
/// opcodes change `account.data`, and only as `data_after_op` says.
pub fn process_account(
    program_id: &Identity,
    account: &mut Account,
    instruction_data: &[u8],
) -> (r: Result<(), CounterError>)
    ensures
        r == account_step_result(program_id@, old(account)@, instruction_data@),
        final(account)@.owner == old(account)@.owner,
        r is Ok ==> final(account)@.data == data_after_op(
            old(account)@.data,
            instruction_data@[0],
        ),
        r is Err ==> final(account)@.data == old(account)@.data,
{
    if !(account.owner == *program_id) {
        return Err(CounterError::IncorrectOwner);
    }
    let space_needed = Counter::get_space();
    if account.data.len() < space_needed {
        return Err(CounterError::AccountTooSmall);
    }
    if instruction_data.len() == 0 {
        return Err(CounterError::InvalidInstruction);
    }
    let instruction_code = instruction_data[0];
    if instruction_code == OP_INCREMENT {
        let mut counter = match get_or_init_counter(account) {
            Ok(c) => c,
            Err(e) => {
                return Err(e);
            },
        };
        counter.increment();
        store_count(counter.count, &mut account.data);
        Ok(())
    } else if instruction_code == OP_DECREMENT {
        let mut counter = match get_or_init_counter(account) {
            Ok(c) => c,
            Err(e) => {
                return Err(e);
            },
        };
        counter.decrement();
        store_count(counter.count, &mut account.data);
        Ok(())
    } else if instruction_code == OP_VIEW {
        let _counter = match get_or_init_counter(account) {
            Ok(c) => c,
            Err(e) => {
                return Err(e);
            },
        };
        Ok(())
    } else {
        Err(CounterError::InvalidInstruction)
    }
}

/// Run one call: take the first account of the list (rejecting an empty
/// list), and process it. No account but the first is touched, owners are
/// never written, and on any failure every stored byte is left as it was.
pub fn process_instruction(
    program_id: &Identity,
    accounts: &mut Vec<Account>,
    instruction_data: &[u8],
) -> (r: Result<(), CounterError>)
    ensures
        r == step_result(program_id@, account_models(old(accounts)@), instruction_data@),
        final(accounts)@.len() == old(accounts)@.len(),
        forall|i: int|
            0 <= i < old(accounts)@.len() ==> #[trigger] final(accounts)@[i]@.owner == old(
                accounts,
            )@[i]@.owner,
        forall|i: int|
            1 <= i < old(accounts)@.len() ==> #[trigger] final(accounts)@[i]@.data == old(
                accounts,
            )@[i]@.data,
        r is Ok ==> final(accounts)@[0]@.data == data_after_op(
            old(accounts)@[0]@.data,
            instruction_data@[0],
        ),
        r is Err ==> forall|i: int|
            0 <= i < old(accounts)@.len() ==> #[trigger] final(accounts)@[i]@.data == old(
                accounts,
            )@[i]@.data,
{
    if accounts.len() == 0 {
        return Err(CounterError::MissingAccount);
    }
    proof {
        assert(account_models(accounts@)[0] == accounts@[0]@);
    }
    let mut account = accounts.remove(0);
    let result = process_account(program_id, &mut account, instruction_data);
    accounts.insert(0, account);
    proof {
        assert forall|i: int| 1 <= i < old(accounts)@.len() implies #[trigger] accounts@[i]
            == old(accounts)@[i] by {
            assert(accounts@[i] == old(accounts)@.remove(0)[i - 1]);
        }
    }
    result
}

} // verus!
