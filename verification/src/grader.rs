//! The grading contract.  Each entry point turns runtime-supplied entropy into
//! one ordered batch of dependent cross-contract calls against a candidate
//! contract, together with the continuation data needed to judge the batch's
//! terminal result.  Each continuation compares that result with the value the
//! grader sent, records the boolean verdict under the candidate's account
//! identifier, and returns it.  The verdict store answers later queries,
//! defaulting to `false` for an account never graded.
//!
//! The host runtime itself stays outside this module: it draws the entropy,
//! executes the batch (all calls or none), and hands the continuation only the
//! last call's outcome.

use vstd::prelude::*;
use vstd::string::StringExecFns;
use vstd::utf8::encode_utf8;

use crate::json::encode_map_get_args;
use crate::json::encode_map_insert_args;
use crate::json::encode_no_args;
use crate::json::encode_vector_push_args;
use crate::json::encode_vector_replace_args;
use crate::json::map_get_args;
use crate::json::map_insert_args;
use crate::json::no_args;
use crate::json::vector_push_args;
use crate::json::vector_replace_args;

verus! {

/// Gas units making up one teragas.
pub const TGAS: u64 = 1_000_000_000_000;

/// No call of the grader attaches a deposit.
pub const NO_DEPOSIT: u128 = 0;

/// The fixed compute budget attached to every call and continuation.
pub const CALL_GAS: u64 = 5 * TGAS;

/// Why a dependent call chain settled without a usable value: some call of the
/// chain aborted (and every state change of the chain was rolled back), or the
/// terminal result was too long for the runtime to hand over.
pub enum ChainFailure {
    Failed,
    ResultTooLong,
}

/// One cross-contract call of a dependent chain: the method to invoke on the
/// receiver, its JSON-encoded arguments, and the attached deposit and gas.
pub struct FunctionCall {
    pub method_name: String,
    pub args: Vec<u8>,
    pub deposit: u128,
    pub gas: u64,
}

/// The value the continuation compares the chain's terminal result against.
pub enum Expected {
    Text(String),
    Byte(u8),
    Bytes(Vec<u8>),
}

/// The continuation registered behind a chain: which candidate it judges, what
/// terminal value it expects, and its own gas budget.
pub struct Callback {
    pub contract_name: String,
    pub expected: Expected,
    pub gas: u64,
}

/// An ordered batch of dependent calls with its continuation.  It exists only
/// for the duration of one invocation: the runtime executes the calls in order
/// against the receiver, aborts the rest of the batch if any call fails, and
/// then invokes the continuation with the last call's outcome alone.
pub struct PendingBatch {
    pub receiver: String,
    pub calls: Vec<FunctionCall>,
    pub callback: Callback,
}

/// One stored verdict row for one account.
pub struct RecordEntry {
    pub account: String,
    pub verdict: bool,
}

/// The verdict table described by a sequence of records: later records win.
pub open spec fn records_map(records: Seq<RecordEntry>) -> Map<Seq<char>, bool>
    decreases records.len(),
{
    if records.len() == 0 {
        Map::empty()
    } else {
        records_map(records.drop_last()).insert(records.last().account@, records.last().verdict)
    }
}

/// What a verdict query returns: the stored verdict, or `false` for an account
/// never graded.
pub open spec fn verdict_lookup(m: Map<Seq<char>, bool>, account: Seq<char>) -> bool {
    if m.contains_key(account) {
        m[account]
    } else {
        false
    }
}

/// What `String::from_utf8_lossy` makes of a byte sequence.  The result is a
/// function of the bytes alone.
pub uninterp spec fn lossy_decode(bytes: Seq<u8>) -> Seq<char>;

/// Relies on `String::from_utf8_lossy`: valid UTF-8 decodes to its characters
/// and every invalid sequence becomes replacement characters, so the result
/// depends on the bytes alone; bytes below 128 are one valid character each.
#[verifier::external_body]
fn utf8_lossy(bytes: &Vec<u8>) -> (r: String)
    ensures
        r@ == lossy_decode(bytes@),
        (forall|i: int| 0 <= i < bytes@.len() ==> bytes@[i] < 128) ==> r@ == bytes@.map_values(
            |b: u8| b as char,
        ),
{
    String::from_utf8_lossy(bytes).to_string()
}

/// The grading contract's persisted state: the verdict table.
pub struct Contract {
    pub records: Vec<RecordEntry>,
}

impl Contract {
    /// The verdicts currently recorded, keyed by account identifier.
    pub open spec fn records_view(&self) -> Map<Seq<char>, bool> {
        records_map(self.records@)
    }

    /// Builds the map check for `contract_name`: store a value under a key,
    /// both decoded from fresh entropy, then read that key back; the
    /// continuation expects the read to return the stored value.
    pub fn evaluate_check_collection_test_lookup(
        &self,
        contract_name: String,
        entropy_key: Vec<u8>,
        entropy_value: Vec<u8>,
    ) -> (batch: PendingBatch)
        ensures
            batch.receiver@ == contract_name@,
            batch.calls@.len() == 2,
            batch.calls@[0].method_name@ == "add_to_map"@,
            batch.calls@[0].args@ == map_insert_args(
                encode_utf8(lossy_decode(entropy_key@)),
                encode_utf8(lossy_decode(entropy_value@)),
            ),
            batch.calls@[1].method_name@ == "get_from_map"@,
            batch.calls@[1].args@ == map_get_args(encode_utf8(lossy_decode(entropy_key@))),
            forall|i: int|
                0 <= i < 2 ==> batch.calls@[i].deposit == NO_DEPOSIT && batch.calls@[i].gas
                    == CALL_GAS,
            batch.callback.contract_name@ == contract_name@,
            batch.callback.gas == CALL_GAS,
            (batch.callback.expected matches Expected::Text(v) && v@ == lossy_decode(
                entropy_value@,
            )),
    {
        let random_map_key = utf8_lossy(&entropy_key);
        let random_map_value = utf8_lossy(&entropy_value);

        let insert_lookup_args = encode_map_insert_args(&random_map_key, &random_map_value);
        let get_lookup_args = encode_map_get_args(&random_map_key);

        let mut calls: Vec<FunctionCall> = Vec::new();
        calls.push(
            FunctionCall {
                method_name: String::from_str("add_to_map"),
                args: insert_lookup_args,
                deposit: NO_DEPOSIT,
                gas: CALL_GAS,
            },
        );
        calls.push(
            FunctionCall {
                method_name: String::from_str("get_from_map"),
                args: get_lookup_args,
                deposit: NO_DEPOSIT,
                gas: CALL_GAS,
            },
        );
        let callback = Callback {
            contract_name: contract_name.clone(),
            expected: Expected::Text(random_map_value),
            gas: CALL_GAS,
        };
        PendingBatch { receiver: contract_name, calls, callback }
    }

    /// Judges the map check: the verdict is `true` exactly when the chain
    /// settled with the value the grader stored, and is recorded for
    /// `contract_name` either way.
    pub fn evaluate_lookup_callback(
        &mut self,
        last_result: Result<String, ChainFailure>,
        contract_name: String,
        expected_value: &String,
    ) -> (verdict: bool)
        ensures
            verdict == (last_result matches Ok(v) && v@ == expected_value@),
            final(self).records_view() == old(self).records_view().insert(
                contract_name@,
                verdict,
            ),
    {
        let verdict = match &last_result {
            Ok(result) => *result == *expected_value,
            Err(_) => false,
        };
        self.set_verdict(contract_name, verdict);
        verdict
    }

    /// Builds the single-element sequence check for `contract_name`: append
    /// one byte drawn from fresh entropy, then pop; the continuation expects
    /// the pop to return that byte.
    pub fn evaluate_check_collection_test_vector(
        &self,
        contract_name: String,
        entropy_value: Vec<u8>,
    ) -> (batch: PendingBatch)
        requires
            entropy_value@.len() > 0,
        ensures
            batch.receiver@ == contract_name@,
            batch.calls@.len() == 2,
            batch.calls@[0].method_name@ == "add_to_vector"@,
            batch.calls@[0].args@ == vector_push_args(entropy_value@[0]),
            batch.calls@[1].method_name@ == "vector_pop_test"@,
            batch.calls@[1].args@ == no_args(),
            forall|i: int|
                0 <= i < 2 ==> batch.calls@[i].deposit == NO_DEPOSIT && batch.calls@[i].gas
                    == CALL_GAS,
            batch.callback.contract_name@ == contract_name@,
            batch.callback.gas == CALL_GAS,
            batch.callback.expected == Expected::Byte(entropy_value@[0]),
    {
        let value = entropy_value[0];
        let vec_arg = encode_vector_push_args(value);
        let no_arg = encode_no_args();

        let mut calls: Vec<FunctionCall> = Vec::new();
        calls.push(
            FunctionCall {
                method_name: String::from_str("add_to_vector"),
                args: vec_arg,
                deposit: NO_DEPOSIT,
                gas: CALL_GAS,
            },
        );
        calls.push(
            FunctionCall {
                method_name: String::from_str("vector_pop_test"),
                args: no_arg,
                deposit: NO_DEPOSIT,
                gas: CALL_GAS,
            },
        );
        let callback = Callback {
            contract_name: contract_name.clone(),
            expected: Expected::Byte(value),
            gas: CALL_GAS,
        };
        PendingBatch { receiver: contract_name, calls, callback }
    }

    /// Judges the single-element sequence check: the verdict is `true` exactly
    /// when the chain settled with the byte the grader appended, and is
    /// recorded for `contract_name` either way.
    pub fn evaluate_vec_callback(
        &mut self,
        last_result: Result<u8, ChainFailure>,
        contract_name: String,
        expected_value: u8,
    ) -> (verdict: bool)
        ensures
            verdict == (last_result matches Ok(v) && v == expected_value),
            final(self).records_view() == old(self).records_view().insert(
                contract_name@,
                verdict,
            ),
    {
        let verdict = match &last_result {
            Ok(result) => *result == expected_value,
            Err(_) => false,
        };
        self.set_verdict(contract_name, verdict);
        verdict
    }

    /// Builds the bulk sequence check for `contract_name`: replace the whole
    /// sequence with fresh entropy, then read a full snapshot; the
    /// continuation expects the snapshot to be exactly the replacement.
    pub fn evaluate_check_collection_test_multi_vector(
        &self,
        contract_name: String,
        entropy_value: Vec<u8>,
    ) -> (batch: PendingBatch)
        ensures
            batch.receiver@ == contract_name@,
            batch.calls@.len() == 2,
            batch.calls@[0].method_name@ == "vector_multi_add"@,
            batch.calls@[0].args@ == vector_replace_args(entropy_value@),
            batch.calls@[1].method_name@ == "get_full_array_test"@,
            batch.calls@[1].args@ == no_args(),
            forall|i: int|
                0 <= i < 2 ==> batch.calls@[i].deposit == NO_DEPOSIT && batch.calls@[i].gas
                    == CALL_GAS,
            batch.callback.contract_name@ == contract_name@,
            batch.callback.gas == CALL_GAS,
            (batch.callback.expected matches Expected::Bytes(v) && v@ == entropy_value@),
    {
        let vec_multi_arg = encode_vector_replace_args(&entropy_value);
        let no_arg = encode_no_args();

        let mut calls: Vec<FunctionCall> = Vec::new();
        calls.push(
            FunctionCall {
                method_name: String::from_str("vector_multi_add"),
                args: vec_multi_arg,
                deposit: NO_DEPOSIT,
                gas: CALL_GAS,
            },
        );
        calls.push(
            FunctionCall {
                method_name: String::from_str("get_full_array_test"),
                args: no_arg,
                deposit: NO_DEPOSIT,
                gas: CALL_GAS,
            },
        );
        let callback = Callback {
            contract_name: contract_name.clone(),
            expected: Expected::Bytes(entropy_value),
            gas: CALL_GAS,
        };
        PendingBatch { receiver: contract_name, calls, callback }
    }

    /// Judges the bulk sequence check: the verdict is `true` exactly when the
    /// chain settled with the array the grader sent, and is recorded for
    /// `contract_name` either way.
    pub fn evaluate_vec_multi_callback(
        &mut self,
        last_result: Result<Vec<u8>, ChainFailure>,
        contract_name: String,
        expected_value: &Vec<u8>,
    ) -> (verdict: bool)
        ensures
            verdict == (last_result matches Ok(v) && v@ == expected_value@),
            final(self).records_view() == old(self).records_view().insert(
                contract_name@,
                verdict,
            ),
    {
        let verdict = match &last_result {
            Ok(result) => bytes_equal(result, expected_value),
            Err(_) => false,
        };
        self.set_verdict(contract_name, verdict);
        verdict
    }

    /// Returns the recorded verdict for `account_name`, or `false` when no
    /// verification of that account ever completed.
    pub fn query_verdict(&self, account_name: &String) -> (r: bool)
        ensures
            r == verdict_lookup(self.records_view(), account_name@),
    {
        let records = &self.records;
        let mut i: usize = records.len();
        proof {
            assert(records@.take(i as int) =~= records@);
        }
        while i > 0
            invariant
                i <= records.len(),
                records == &self.records,
                verdict_lookup(records_map(records@.take(i as int)), account_name@)
                    == verdict_lookup(self.records_view(), account_name@),
            decreases i,
        {
            i = i - 1;
            proof {
                assert(records@.take(i + 1).drop_last() =~= records@.take(i as int));
                assert(records@.take(i + 1).last() == records@[i as int]);
            }
            let e = &records[i];
            if e.account == *account_name {
                return e.verdict;
            }
        }
        proof {
            assert(records@.take(0) =~= Seq::<RecordEntry>::empty());
        }
        false
    }

    /// Records `verdict` for `account`, overwriting any earlier verdict.
    fn set_verdict(&mut self, account: String, verdict: bool)
        ensures
            final(self).records_view() == old(self).records_view().insert(account@, verdict),
    {
        let entry = RecordEntry { account, verdict };
        self.records.push(entry);
        proof {
            assert(self.records@.drop_last() =~= old(self).records@);
            assert(self.records@.last() == entry);
        }
    }
}

impl Default for Contract {
    /// A fresh grader: no verdict recorded yet.
    fn default() -> (r: Contract)
        ensures
            r.records_view() == Map::<Seq<char>, bool>::empty(),
    {
        Contract { records: Vec::new() }
    }
}

/// Whether two byte vectors hold the same bytes.
fn bytes_equal(a: &Vec<u8>, b: &Vec<u8>) -> (r: bool)
    ensures
        r == (a@ == b@),
{
    if a.len() != b.len() {
        return false;
    }
    let mut i: usize = 0;
    while i < a.len()
        invariant
            i <= a@.len(),
            a@.len() == b@.len(),
            forall|j: int| 0 <= j < i ==> a@[j] == b@[j],
        decreases a@.len() - i,
    {
        if a[i] != b[i] {
            proof {
                assert(a@[i as int] != b@[i as int]);
            }
            return false;
        }
        i = i + 1;
    }
    proof {
        assert(a@ =~= b@);
    }
    true
}

/// Law: the verdict recorded by a completed verification attempt is exactly
/// what a later query for that account reports.
pub proof fn lemma_verdict_put_get(m: Map<Seq<char>, bool>, account: Seq<char>, verdict: bool)
    ensures
        verdict_lookup(m.insert(account, verdict), account) == verdict,
{
}

/// Law: an account's verdict reflects only the verification attempt that
/// completed last; no history is retained.
pub proof fn lemma_verdict_last_write_wins(
    m: Map<Seq<char>, bool>,
    account: Seq<char>,
    first: bool,
    second: bool,
)
    ensures
        verdict_lookup(m.insert(account, first).insert(account, second), account) == second,
{
}

/// Law: an account never graded queries as `false`.
pub proof fn lemma_verdict_absent_false(m: Map<Seq<char>, bool>, account: Seq<char>)
    requires
        !m.contains_key(account),
    ensures
        verdict_lookup(m, account) == false,
{
}

} // verus!
