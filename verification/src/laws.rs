//! What holds of every transaction: the verdict stated over the
//! transaction's contents, one law for each way it can go.

use crate::digest::minted_identifier;
use crate::error::{outcome_code, Error, SysError};
use crate::identifier::{identifier_read, CellDataModel};
use crate::transaction::{OutputModel, Transaction, TransactionModel};
use crate::validator::{
    candidate_indices, consumed_identifiers, in_governance_mode, is_candidate, output_verdict,
    outputs_verdict, verdict,
};
use vstd::prelude::*;

verus! {

/// Every read that the validation depends on gave a value: the script's
/// arguments hold a governance lock hash, the script's hash and the first
/// input are known, and each cell of the token type yields an identifier.
pub open spec fn readable(tx: TransactionModel) -> bool {
    &&& tx.script_args is Ok
    &&& tx.script_args->Ok_0.len() >= 32
    &&& tx.script_hash is Ok
    &&& tx.first_input is Ok
    &&& forall|i: int|
        0 <= i < tx.group_input_data.len() ==> (#[trigger] identifier_read(
            tx.group_input_data[i],
        )) is Ok
    &&& forall|i: int| #[trigger]
        is_token_output(tx, i) ==> identifier_read(tx.outputs[i].data) is Ok
}

/// Whether output `i` exists and is of the token type.
pub open spec fn is_token_output(tx: TransactionModel, i: int) -> bool {
    0 <= i < tx.outputs.len() && is_candidate(tx.outputs[i], tx.script_hash->Ok_0)
}

/// The identifier that output `i` carries.
pub open spec fn output_identifier(tx: TransactionModel, i: int) -> Seq<u8> {
    identifier_read(tx.outputs[i].data)->Ok_0
}

/// Whether `id` is the identifier of some consumed cell of the token type.
pub open spec fn is_consumed(tx: TransactionModel, id: Seq<u8>) -> bool {
    exists|i: int|
        0 <= i < tx.group_input_data.len() && #[trigger] identifier_read(tx.group_input_data[i])
            == Ok::<Seq<u8>, SysError>(id)
}

/// Whether some input is locked by the governance lock that the script's
/// arguments name.
pub open spec fn governance_active(tx: TransactionModel) -> bool {
    in_governance_mode(tx.input_lock_hashes, tx.script_args->Ok_0.subrange(0, 32))
}

/// The identifier derived for a mint at output `i`.
pub open spec fn derived_identifier(tx: TransactionModel, i: int) -> Seq<u8> {
    minted_identifier(tx.first_input->Ok_0, i as u64)
}

/// Whether output `i` passes: it is a transfer, or a mint under governance
/// with the derived identifier.
pub open spec fn output_passes(tx: TransactionModel, i: int) -> bool {
    ||| is_consumed(tx, output_identifier(tx, i))
    ||| governance_active(tx) && output_identifier(tx, i) == derived_identifier(tx, i)
}

/// When every read yields an identifier, the collected set holds exactly the
/// identifiers read.
pub proof fn consumed_set_is_exact(reads: Seq<CellDataModel>)
    requires
        forall|i: int| 0 <= i < reads.len() ==> (#[trigger] identifier_read(reads[i])) is Ok,
    ensures
        consumed_identifiers(reads) is Ok,
        forall|id: Seq<u8>|
            consumed_identifiers(reads)->Ok_0.contains(id) <==> exists|i: int|
                0 <= i < reads.len() && #[trigger] identifier_read(reads[i]) == Ok::<
                    Seq<u8>,
                    SysError,
                >(id),
    decreases reads.len(),
{
    if reads.len() > 0 {
        let before = reads.drop_last();
        let n = reads.len() - 1;
        assert forall|i: int| 0 <= i < before.len() implies (#[trigger] identifier_read(
            before[i],
        )) is Ok by {
            assert(before[i] == reads[i]);
        }
        consumed_set_is_exact(before);
        let earlier = consumed_identifiers(before)->Ok_0;
        let last = identifier_read(reads[n])->Ok_0;
        assert(identifier_read(reads[n]) is Ok);
        assert(consumed_identifiers(reads) == Ok::<Set<Seq<u8>>, Error>(earlier.insert(last)));
        assert forall|id: Seq<u8>|
            consumed_identifiers(reads)->Ok_0.contains(id) <==> exists|i: int|
                0 <= i < reads.len() && #[trigger] identifier_read(reads[i]) == Ok::<
                    Seq<u8>,
                    SysError,
                >(id) by {
            if earlier.contains(id) {
                let i = choose|i: int|
                    0 <= i < before.len() && #[trigger] identifier_read(before[i]) == Ok::<
                        Seq<u8>,
                        SysError,
                    >(id);
                assert(before[i] == reads[i]);
                assert(identifier_read(reads[i]) == Ok::<Seq<u8>, SysError>(id));
            }
            if id == last {
                assert(identifier_read(reads[n]) == Ok::<Seq<u8>, SysError>(id));
            }
            if exists|i: int|
                0 <= i < reads.len() && #[trigger] identifier_read(reads[i]) == Ok::<
                    Seq<u8>,
                    SysError,
                >(id) {
                let i = choose|i: int|
                    0 <= i < reads.len() && #[trigger] identifier_read(reads[i]) == Ok::<
                        Seq<u8>,
                        SysError,
                    >(id);
                if i < n {
                    assert(before[i] == reads[i]);
                    assert(identifier_read(before[i]) == Ok::<Seq<u8>, SysError>(id));
                }
            }
        }
    }
}

/// The located positions are exactly the outputs of the token type, each
/// once, in ascending order.
pub proof fn candidates_are_exact(outputs: Seq<OutputModel>, script_hash: Seq<u8>)
    ensures
        forall|k: int|
            0 <= k < candidate_indices(outputs, script_hash).len() ==> {
                let i = #[trigger] candidate_indices(outputs, script_hash)[k];
                0 <= i < outputs.len() && is_candidate(outputs[i], script_hash)
            },
        forall|a: int, b: int|
            0 <= a < b < candidate_indices(outputs, script_hash).len() ==> candidate_indices(
                outputs,
                script_hash,
            )[a] < candidate_indices(outputs, script_hash)[b],
        forall|i: int|
            0 <= i < outputs.len() && is_candidate(#[trigger] outputs[i], script_hash)
                ==> candidate_indices(outputs, script_hash).contains(i),
    decreases outputs.len(),
{
    if outputs.len() > 0 {
        let before = outputs.drop_last();
        let n = outputs.len() - 1;
        let found = candidate_indices(outputs, script_hash);
        let earlier = candidate_indices(before, script_hash);
        candidates_are_exact(before, script_hash);
        assert forall|k: int| 0 <= k < found.len() implies {
            let i = #[trigger] found[k];
            0 <= i < outputs.len() && is_candidate(outputs[i], script_hash)
        } by {
            if k < earlier.len() {
                assert(found[k] == earlier[k]);
                assert(before[earlier[k]] == outputs[earlier[k]]);
            }
        }
        assert forall|a: int, b: int| 0 <= a < b < found.len() implies found[a] < found[b] by {
            assert(found[a] == earlier[a]);
            if b < earlier.len() {
                assert(found[b] == earlier[b]);
            }
        }
        assert forall|i: int|
            0 <= i < outputs.len() && is_candidate(
                #[trigger] outputs[i],
                script_hash,
            ) implies found.contains(i) by {
            if i < n {
                assert(before[i] == outputs[i]);
                assert(earlier.contains(i));
                let k = choose|k: int| 0 <= k < earlier.len() && earlier[k] == i;
                assert(found[k] == i);
            } else {
                assert(found[found.len() - 1] == i);
            }
        }
    }
}

/// A list of outputs is accepted if and only if each of them is. A rejection
/// is that of some output of the list before which every output is accepted.
pub proof fn first_rejection_decides(
    outputs: Seq<OutputModel>,
    indices: Seq<int>,
    consumed: Set<Seq<u8>>,
    governance_mode: bool,
    first_input: Seq<u8>,
)
    ensures
        outputs_verdict(outputs, indices, consumed, governance_mode, first_input) is Ok
            <==> forall|k: int|
            0 <= k < indices.len() ==> output_verdict(
                outputs,
                #[trigger] indices[k],
                consumed,
                governance_mode,
                first_input,
            ) is Ok,
        outputs_verdict(outputs, indices, consumed, governance_mode, first_input) is Err
            ==> exists|k: int|
            {
                &&& 0 <= k < indices.len()
                &&& output_verdict(
                    outputs,
                    #[trigger] indices[k],
                    consumed,
                    governance_mode,
                    first_input,
                ) == outputs_verdict(outputs, indices, consumed, governance_mode, first_input)
                &&& forall|j: int|
                    0 <= j < k ==> output_verdict(
                        outputs,
                        #[trigger] indices[j],
                        consumed,
                        governance_mode,
                        first_input,
                    ) is Ok
            },
    decreases indices.len(),
{
    if indices.len() > 0 {
        let before = indices.drop_last();
        let n = indices.len() - 1;
        first_rejection_decides(outputs, before, consumed, governance_mode, first_input);
        let whole = outputs_verdict(outputs, indices, consumed, governance_mode, first_input);
        let earlier = outputs_verdict(outputs, before, consumed, governance_mode, first_input);
        if earlier is Ok {
            assert forall|j: int| 0 <= j < n implies output_verdict(
                outputs,
                #[trigger] indices[j],
                consumed,
                governance_mode,
                first_input,
            ) is Ok by {
                assert(before[j] == indices[j]);
            }
            if whole is Err {
                assert(output_verdict(outputs, indices[n], consumed, governance_mode, first_input)
                    == whole);
            }
        } else {
            let k = choose|k: int|
                {
                    &&& 0 <= k < before.len()
                    &&& output_verdict(
                        outputs,
                        #[trigger] before[k],
                        consumed,
                        governance_mode,
                        first_input,
                    ) == earlier
                    &&& forall|j: int|
                        0 <= j < k ==> output_verdict(
                            outputs,
                            #[trigger] before[j],
                            consumed,
                            governance_mode,
                            first_input,
                        ) is Ok
                };
            assert(before[k] == indices[k]);
            assert forall|j: int| 0 <= j < k implies output_verdict(
                outputs,
                #[trigger] indices[j],
                consumed,
                governance_mode,
                first_input,
            ) is Ok by {
                assert(before[j] == indices[j]);
            }
            assert(output_verdict(outputs, indices[k], consumed, governance_mode, first_input)
                == whole);
        }
    }
}

/// On a readable transaction the verdict is that of its outputs of the token
/// type, and each such output is rejected only as a mint: for want of
/// governance mode, or, under governance, for a wrong identifier.
proof fn readable_verdict(tx: TransactionModel)
    requires
        readable(tx),
    ensures
        consumed_identifiers(tx.group_input_data) is Ok,
        forall|id: Seq<u8>|
            consumed_identifiers(tx.group_input_data)->Ok_0.contains(id) <==> is_consumed(tx, id),
        verdict(tx) == outputs_verdict(
            tx.outputs,
            candidate_indices(tx.outputs, tx.script_hash->Ok_0),
            consumed_identifiers(tx.group_input_data)->Ok_0,
            governance_active(tx),
            tx.first_input->Ok_0,
        ),
        forall|i: int| #[trigger]
            is_token_output(tx, i) ==> output_verdict(
                tx.outputs,
                i,
                consumed_identifiers(tx.group_input_data)->Ok_0,
                governance_active(tx),
                tx.first_input->Ok_0,
            ) == if output_passes(tx, i) {
                Ok::<(), Error>(())
            } else if governance_active(tx) {
                Err::<(), Error>(Error::InvalidNft)
            } else {
                Err::<(), Error>(Error::RequireGovernanceMode)
            },
{
    consumed_set_is_exact(tx.group_input_data);
    let consumed = consumed_identifiers(tx.group_input_data)->Ok_0;
    assert forall|id: Seq<u8>| consumed.contains(id) <==> is_consumed(tx, id) by {}
    assert forall|i: int| #[trigger] is_token_output(tx, i) implies output_verdict(
        tx.outputs,
        i,
        consumed,
        governance_active(tx),
        tx.first_input->Ok_0,
    ) == if output_passes(tx, i) {
        Ok::<(), Error>(())
    } else if governance_active(tx) {
        Err::<(), Error>(Error::InvalidNft)
    } else {
        Err::<(), Error>(Error::RequireGovernanceMode)
    } by {
        assert(identifier_read(tx.outputs[i].data) is Ok);
        assert(consumed.contains(output_identifier(tx, i)) <==> is_consumed(
            tx,
            output_identifier(tx, i),
        ));
    }
}

/// A readable transaction is accepted if and only if each of its outputs of
/// the token type passes.
pub proof fn acceptance_is_exact(tx: TransactionModel)
    requires
        readable(tx),
    ensures
        verdict(tx) is Ok <==> forall|i: int| #[trigger]
            is_token_output(tx, i) ==> output_passes(tx, i),
{
    readable_verdict(tx);
    let script_hash = tx.script_hash->Ok_0;
    let indices = candidate_indices(tx.outputs, script_hash);
    let consumed = consumed_identifiers(tx.group_input_data)->Ok_0;
    candidates_are_exact(tx.outputs, script_hash);
    first_rejection_decides(
        tx.outputs,
        indices,
        consumed,
        governance_active(tx),
        tx.first_input->Ok_0,
    );
    if verdict(tx) is Ok {
        assert forall|i: int| #[trigger] is_token_output(tx, i) implies output_passes(tx, i) by {
            assert(indices.contains(i));
            let k = choose|k: int| 0 <= k < indices.len() && indices[k] == i;
            assert(output_verdict(
                tx.outputs,
                indices[k],
                consumed,
                governance_active(tx),
                tx.first_input->Ok_0,
            ) is Ok);
        }
    }
    if forall|i: int| #[trigger] is_token_output(tx, i) ==> output_passes(tx, i) {
        assert forall|k: int| 0 <= k < indices.len() implies output_verdict(
            tx.outputs,
            #[trigger] indices[k],
            consumed,
            governance_active(tx),
            tx.first_input->Ok_0,
        ) is Ok by {
            assert(is_token_output(tx, indices[k]));
        }
    }
}

/// A readable transaction is rejected only for a mint: without governance
/// mode as `RequireGovernanceMode`, under governance as `InvalidNft`.
pub proof fn rejection_is_exact(tx: TransactionModel)
    requires
        readable(tx),
        verdict(tx) is Err,
    ensures
        verdict(tx) == if governance_active(tx) {
            Err::<(), Error>(Error::InvalidNft)
        } else {
            Err::<(), Error>(Error::RequireGovernanceMode)
        },
{
    readable_verdict(tx);
    let script_hash = tx.script_hash->Ok_0;
    let indices = candidate_indices(tx.outputs, script_hash);
    let consumed = consumed_identifiers(tx.group_input_data)->Ok_0;
    candidates_are_exact(tx.outputs, script_hash);
    first_rejection_decides(
        tx.outputs,
        indices,
        consumed,
        governance_active(tx),
        tx.first_input->Ok_0,
    );
    let k = choose|k: int|
        {
            &&& 0 <= k < indices.len()
            &&& output_verdict(
                tx.outputs,
                #[trigger] indices[k],
                consumed,
                governance_active(tx),
                tx.first_input->Ok_0,
            ) == verdict(tx)
            &&& forall|j: int|
                0 <= j < k ==> output_verdict(
                    tx.outputs,
                    #[trigger] indices[j],
                    consumed,
                    governance_active(tx),
                    tx.first_input->Ok_0,
                ) is Ok
        };
    assert(is_token_output(tx, indices[k]));
}

/// A transaction whose outputs of the token type all carry consumed
/// identifiers is accepted, with or without governance mode.
pub proof fn transfer_is_accepted(tx: TransactionModel)
    requires
        readable(tx),
        forall|i: int| #[trigger]
            is_token_output(tx, i) ==> is_consumed(tx, output_identifier(tx, i)),
    ensures
        verdict(tx) == Ok::<(), Error>(()),
{
    acceptance_is_exact(tx);
}

/// A transaction that brings in an identifier that was not consumed, while
/// no governance lock is spent, is rejected with `RequireGovernanceMode`.
pub proof fn mint_requires_governance(tx: TransactionModel, i: int)
    requires
        readable(tx),
        is_token_output(tx, i),
        !is_consumed(tx, output_identifier(tx, i)),
        !governance_active(tx),
    ensures
        verdict(tx) == Err::<(), Error>(Error::RequireGovernanceMode),
{
    acceptance_is_exact(tx);
    rejection_is_exact(tx);
}

/// Under governance mode, a transaction that brings in an identifier that
/// was not consumed and is not the one derived for its output is rejected
/// with `InvalidNft`.
pub proof fn wrong_identifier_is_invalid(tx: TransactionModel, i: int)
    requires
        readable(tx),
        is_token_output(tx, i),
        !is_consumed(tx, output_identifier(tx, i)),
        governance_active(tx),
        output_identifier(tx, i) != derived_identifier(tx, i),
    ensures
        verdict(tx) == Err::<(), Error>(Error::InvalidNft),
{
    acceptance_is_exact(tx);
    rejection_is_exact(tx);
}

/// Under governance mode, a transaction is accepted if each of its outputs
/// of the token type that is not a transfer carries the identifier derived
/// for it.
pub proof fn derived_identifier_is_accepted(tx: TransactionModel)
    requires
        readable(tx),
        governance_active(tx),
        forall|i: int| #[trigger]
            is_token_output(tx, i) && !is_consumed(tx, output_identifier(tx, i))
                ==> output_identifier(tx, i) == derived_identifier(tx, i),
    ensures
        verdict(tx) == Ok::<(), Error>(()),
{
    acceptance_is_exact(tx);
}

/// Arguments shorter than 32 bytes are rejected with `InvalidArgument`,
/// whatever the cells of the transaction hold.
pub proof fn short_arguments_are_invalid(tx: TransactionModel)
    requires
        tx.script_args is Ok,
        tx.script_args->Ok_0.len() < 32,
    ensures
        verdict(tx) == Err::<(), Error>(Error::InvalidArgument),
{
}

/// The outcome depends on the contents of the transaction alone: two
/// transactions with the same contents have the same outcome code.
pub proof fn outcome_is_determined(a: Transaction, b: Transaction)
    requires
        a@ == b@,
    ensures
        verdict(a@) == verdict(b@),
        outcome_code(verdict(a@)) == outcome_code(verdict(b@)),
{
}

} // verus!
