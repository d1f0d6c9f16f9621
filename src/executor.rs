//! What one directive asks of the prefix-set mutator, and how its exit
//! status is read.

use vstd::prelude::*;
use crate::family::{ipset_table, table_for};

verus! {

/// The flag that makes the mutator accept adding a present prefix or
/// deleting an absent one.
pub open spec fn exist_flag() -> Seq<char> {
    seq!['-', 'e', 'x', 'i', 's', 't']
}

/// The arguments of the mutator call for a verb word and a prefix:
/// the verb, the exists-tolerant flag, the prefix's set, the prefix.
pub open spec fn mutator_call(verb: Seq<char>, prefix: Seq<char>) -> Seq<Seq<char>> {
    seq![verb, exist_flag(), table_for(prefix), prefix]
}

/// A mutation that the mutator reported as failed.
#[derive(Debug)]
pub enum ExecutionError {
    MutationFailed { verb: String, prefix: String, table: String },
}

/// The arguments to hand the mutator for one directive.
pub fn mutator_args(verb: &str, prefix: &str) -> (r: Vec<String>)
    ensures
        r@.map_values(|s: String| s@) == mutator_call(verb@, prefix@),
{
    let flag = "-exist";
    proof {
        reveal_strlit("-exist");
        assert(flag@ =~= exist_flag());
    }
    let mut args: Vec<String> = Vec::new();
    args.push(verb.to_string());
    args.push(flag.to_string());
    args.push(ipset_table(prefix).to_string());
    args.push(prefix.to_string());
    assert(args@.map_values(|s: String| s@) =~= mutator_call(verb@, prefix@));
    args
}

/// The result of one mutation, from whether the mutator exited with success.
pub fn mutation_outcome(verb: &str, prefix: &str, succeeded: bool) -> (r: Result<(), ExecutionError>)
    ensures
        r is Ok <==> succeeded,
        r matches Err(ExecutionError::MutationFailed { verb: v, prefix: p, table: t }) ==> v@
            == verb@ && p@ == prefix@ && t@ == table_for(prefix@),
{
    if succeeded {
        Ok(())
    } else {
        Err(
            ExecutionError::MutationFailed {
                verb: verb.to_string(),
                prefix: prefix.to_string(),
                table: ipset_table(prefix).to_string(),
            },
        )
    }
}

/// Applying a directive again makes the very same mutator call, and that
/// call always carries the exists-tolerant flag: a repeated add or delete is
/// a no-op for the mutator rather than an error.
pub proof fn lemma_repeat_is_same_tolerant_call(verb: Seq<char>, prefix: Seq<char>)
    ensures
        mutator_call(verb, prefix).len() == 4,
        mutator_call(verb, prefix)[1] == exist_flag(),
        mutator_call(verb, prefix)[0] == verb,
        mutator_call(verb, prefix)[3] == prefix,
{
}

} // verus!
