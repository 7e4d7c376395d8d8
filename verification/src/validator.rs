//! The validation pipeline: decode the governance lock hash, detect
//! governance mode, collect the consumed identifiers, locate the outputs of
//! the token type, and judge each of them as a transfer or a mint.

use crate::consumed::ConsumedSet;
use crate::digest::{derive_minted_identifier, minted_identifier};
use crate::error::{outcome_code, rejection_of, Error};
use crate::identifier::{
    byte32_eq, identifier_read, read_identifier, Byte32, CellData, CellDataModel,
};
use crate::transaction::{
    hash_models, output_models, read_models, Output, OutputModel, Transaction, TransactionModel,
};
use vstd::prelude::*;

verus! {

/// The governance lock hash named by the script's arguments: their first 32
/// bytes. Shorter arguments are invalid.
pub open spec fn governance_hash_of(args: Seq<u8>) -> Result<Seq<u8>, Error> {
    if args.len() < 32 {
        Err(Error::InvalidArgument)
    } else {
        Ok(args.subrange(0, 32))
    }
}

/// A decoded governance lock hash, as a value of the model.
pub open spec fn hash_model(out: Result<Byte32, Error>) -> Result<Seq<u8>, Error> {
    match out {
        Ok(hash) => Ok(hash@),
        Err(e) => Err(e),
    }
}

/// Decodes the governance lock hash from the executing script's arguments.
///
/// Fails with `InvalidArgument` exactly when fewer than 32 bytes are present.
/// Bytes past the first 32 are ignored.
pub fn governance_lock_hash(args: &[u8]) -> (out: Result<Byte32, Error>)
    ensures
        hash_model(out) == governance_hash_of(args@),
{
    if args.len() < 32 {
        return Err(Error::InvalidArgument);
    }
    let mut hash: Byte32 = [0u8; 32];
    let mut i: usize = 0;
    while i < 32
        invariant
            i <= 32,
            args@.len() >= 32,
            forall|j: int| 0 <= j < i ==> hash@[j] == args@[j],
        decreases 32 - i,
    {
        hash[i] = args[i];
        i += 1;
    }
    assert(hash@ =~= args@.subrange(0, 32));
    Ok(hash)
}

/// Governance mode: some input is locked by the governance lock.
pub open spec fn in_governance_mode(lock_hashes: Seq<Seq<u8>>, governance: Seq<u8>) -> bool {
    exists|i: int| 0 <= i < lock_hashes.len() && lock_hashes[i] == governance
}

/// Detects governance mode from the lock hashes of all inputs.
///
/// The answer is one flag for the whole transaction: true if and only if
/// some input's lock hash equals the governance lock hash.
pub fn governance_mode(lock_hashes: &[Byte32], governance: &Byte32) -> (mode: bool)
    ensures
        mode == in_governance_mode(hash_models(lock_hashes@), governance@),
{
    let mut i: usize = 0;
    while i < lock_hashes.len()
        invariant
            i <= lock_hashes@.len(),
            forall|j: int| 0 <= j < i ==> hash_models(lock_hashes@)[j] != governance@,
        decreases lock_hashes@.len() - i,
    {
        if byte32_eq(&lock_hashes[i], governance) {
            assert(hash_models(lock_hashes@)[i as int] == governance@);
            return true;
        }
        i += 1;
    }
    false
}

/// The identifiers of the consumed cells of the token type, as a set. If a
/// read faults beyond recovery, the first such fault is the result.
pub open spec fn consumed_identifiers(reads: Seq<CellDataModel>) -> Result<Set<Seq<u8>>, Error>
    decreases reads.len(),
{
    if reads.len() == 0 {
        Ok(Set::empty())
    } else {
        match consumed_identifiers(reads.drop_last()) {
            Err(e) => Err(e),
            Ok(set) => match identifier_read(reads.last()) {
                Err(fault) => Err(rejection_of(fault)),
                Ok(id) => Ok(set.insert(id)),
            },
        }
    }
}

/// A collected set, as a value of the model.
pub open spec fn consumed_model(out: Result<ConsumedSet, Error>) -> Result<Set<Seq<u8>>, Error> {
    match out {
        Ok(set) => Ok(set@),
        Err(e) => Err(e),
    }
}

/// A fault among the first `k` reads decides the result for the whole list.
proof fn consumed_fault_stands(reads: Seq<CellDataModel>, k: int)
    requires
        0 <= k <= reads.len(),
        consumed_identifiers(reads.take(k)) is Err,
    ensures
        consumed_identifiers(reads) == consumed_identifiers(reads.take(k)),
    decreases reads.len() - k,
{
    if k < reads.len() {
        assert(reads.take(k + 1).drop_last() =~= reads.take(k));
        consumed_fault_stands(reads, k + 1);
    } else {
        assert(reads.take(k) =~= reads);
    }
}

/// Collects the identifiers held by the inputs of the token type.
///
/// `reads` holds the read of the data of each such input, in order. Equal identifiers count once. The first read with a fault that is
/// not recovered ends the collection with that fault's rejection.
pub fn collect_consumed(reads: &[CellData]) -> (out: Result<ConsumedSet, Error>)
    ensures
        consumed_model(out) == consumed_identifiers(read_models(reads@)),
{
    let ghost models = read_models(reads@);
    let mut set = ConsumedSet::new();
    let mut i: usize = 0;
    while i < reads.len()
        invariant
            i <= reads@.len(),
            models == read_models(reads@),
            consumed_identifiers(models.take(i as int)) == Ok::<Set<Seq<u8>>, Error>(set@),
        decreases reads@.len() - i,
    {
        proof {
            assert(models.take(i + 1).drop_last() =~= models.take(i as int));
            assert(models.take(i + 1).last() == reads@[i as int]@);
        }
        match read_identifier(&reads[i]) {
            Err(fault) => {
                proof {
                    consumed_fault_stands(models, i + 1);
                }
                return Err(Error::from(fault));
            },
            Ok(id) => {
                set.insert(&id);
            },
        }
        i += 1;
    }
    assert(models.take(i as int) =~= models);
    Ok(set)
}

/// Whether an output is of the token type: its type script is the executing
/// script.
pub open spec fn is_candidate(output: OutputModel, script_hash: Seq<u8>) -> bool {
    output.type_hash == Some(script_hash)
}

/// The positions of the outputs of the token type, in output order.
pub open spec fn candidate_indices(outputs: Seq<OutputModel>, script_hash: Seq<u8>) -> Seq<int>
    decreases outputs.len(),
{
    if outputs.len() == 0 {
        Seq::empty()
    } else {
        let before = candidate_indices(outputs.drop_last(), script_hash);
        if is_candidate(outputs.last(), script_hash) {
            before.push(outputs.len() - 1)
        } else {
            before
        }
    }
}

/// A list of positions, as integers.
pub open spec fn index_models(indices: Seq<usize>) -> Seq<int> {
    indices.map_values(|i: usize| i as int)
}

/// Locates the outputs of the token type.
///
/// Returns, in ascending order, the position of every output whose type
/// hash is present and equal to `script_hash`.
pub fn locate_nft_outputs(outputs: &[Output], script_hash: &Byte32) -> (indices: Vec<usize>)
    ensures
        index_models(indices@) == candidate_indices(output_models(outputs@), script_hash@),
{
    let ghost models = output_models(outputs@);
    let mut indices: Vec<usize> = Vec::new();
    let mut i: usize = 0;
    while i < outputs.len()
        invariant
            i <= outputs@.len(),
            models == output_models(outputs@),
            index_models(indices@) == candidate_indices(models.take(i as int), script_hash@),
        decreases outputs@.len() - i,
    {
        proof {
            assert(models.take(i + 1).drop_last() =~= models.take(i as int));
            assert(models.take(i + 1).last() == outputs@[i as int]@);
        }
        let found = match &outputs[i].type_hash {
            Some(hash) => byte32_eq(hash, script_hash),
            None => false,
        };
        if found {
            let ghost before = indices@;
            indices.push(i);
            assert(index_models(indices@) =~= index_models(before).push(i as int));
        }
        i += 1;
    }
    assert(models.take(i as int) =~= models);
    indices
}

/// The verdict on a mint whose identifier is `id`, given the identifier
/// that was derived for its output.
pub open spec fn mint_verdict(id: Seq<u8>, derived: Seq<u8>) -> Result<(), Error> {
    if id == derived {
        Ok(())
    } else {
        Err(Error::InvalidNft)
    }
}

/// The verdict on one identifier at output `index`.
///
/// An identifier that was consumed is a transfer and passes. Any other is a
/// mint: it needs governance mode, and must be the identifier derived from
/// the first input and the index.
pub open spec fn transition_verdict(
    consumed: Set<Seq<u8>>,
    governance_mode: bool,
    first_input: Seq<u8>,
    index: int,
    id: Seq<u8>,
) -> Result<(), Error> {
    if consumed.contains(id) {
        Ok(())
    } else if !governance_mode {
        Err(Error::RequireGovernanceMode)
    } else {
        mint_verdict(id, minted_identifier(first_input, index as u64))
    }
}

/// The verdict on the output at `index`: the rejection of a fault in reading
/// its identifier, or else the verdict on that identifier. A position past
/// the last output is a read past the end.
pub open spec fn output_verdict(
    outputs: Seq<OutputModel>,
    index: int,
    consumed: Set<Seq<u8>>,
    governance_mode: bool,
    first_input: Seq<u8>,
) -> Result<(), Error> {
    if 0 <= index < outputs.len() {
        match identifier_read(outputs[index].data) {
            Err(fault) => Err(rejection_of(fault)),
            Ok(id) => transition_verdict(consumed, governance_mode, first_input, index, id),
        }
    } else {
        Err(Error::IndexOutOfBound)
    }
}

/// The verdict on the outputs at `indices`, taken in list order: that of the
/// first one that is rejected, or acceptance if none is.
pub open spec fn outputs_verdict(
    outputs: Seq<OutputModel>,
    indices: Seq<int>,
    consumed: Set<Seq<u8>>,
    governance_mode: bool,
    first_input: Seq<u8>,
) -> Result<(), Error>
    decreases indices.len(),
{
    if indices.len() == 0 {
        Ok(())
    } else {
        match outputs_verdict(
            outputs,
            indices.drop_last(),
            consumed,
            governance_mode,
            first_input,
        ) {
            Err(e) => Err(e),
            Ok(_) => output_verdict(
                outputs,
                indices.last(),
                consumed,
                governance_mode,
                first_input,
            ),
        }
    }
}

/// A rejection among the first `k` positions decides the verdict on the
/// whole list.
proof fn rejection_stands(
    outputs: Seq<OutputModel>,
    indices: Seq<int>,
    consumed: Set<Seq<u8>>,
    governance_mode: bool,
    first_input: Seq<u8>,
    k: int,
)
    requires
        0 <= k <= indices.len(),
        outputs_verdict(outputs, indices.take(k), consumed, governance_mode, first_input) is Err,
    ensures
        outputs_verdict(outputs, indices, consumed, governance_mode, first_input)
            == outputs_verdict(outputs, indices.take(k), consumed, governance_mode, first_input),
    decreases indices.len() - k,
{
    if k < indices.len() {
        assert(indices.take(k + 1).drop_last() =~= indices.take(k));
        rejection_stands(outputs, indices, consumed, governance_mode, first_input, k + 1);
    } else {
        assert(indices.take(k) =~= indices);
    }
}

/// Judges a mint once the identifier for its output has been derived.
///
/// Accepts if and only if the output carries exactly the derived identifier;
/// otherwise the rejection is `InvalidNft`.
pub fn settle_mint(id: &Byte32, derived: &Byte32) -> (out: Result<(), Error>)
    ensures
        out == mint_verdict(id@, derived@),
{
    if byte32_eq(id, derived) {
        Ok(())
    } else {
        Err(Error::InvalidNft)
    }
}

/// Judges the identifier `id` found at output `index`.
///
/// A consumed identifier is a transfer and is accepted with no further
/// check. Any other is a mint: without governance mode it is rejected with
/// `RequireGovernanceMode`, and with it the identifier must be the one
/// derived from `first_input` and `index`, else `InvalidNft`.
pub fn check_transition(
    consumed: &ConsumedSet,
    governance_mode: bool,
    first_input: &[u8],
    index: usize,
    id: &Byte32,
) -> (out: Result<(), Error>)
    ensures
        out == transition_verdict(consumed@, governance_mode, first_input@, index as int, id@),
{
    if consumed.contains(id) {
        return Ok(());
    }
    if !governance_mode {
        return Err(Error::RequireGovernanceMode);
    }
    let derived = derive_minted_identifier(first_input, index as u64);
    settle_mint(id, &derived)
}

/// Judges the output at `index`: reads its identifier, then judges that.
///
/// A fault in the read that is not recovered is the rejection. So is an
/// `index` past the last output, as `IndexOutOfBound`.
pub fn check_output(
    outputs: &[Output],
    index: usize,
    consumed: &ConsumedSet,
    governance_mode: bool,
    first_input: &[u8],
) -> (out: Result<(), Error>)
    ensures
        out == output_verdict(
            output_models(outputs@),
            index as int,
            consumed@,
            governance_mode,
            first_input@,
        ),
{
    if index >= outputs.len() {
        return Err(Error::IndexOutOfBound);
    }
    match read_identifier(&outputs[index].data) {
        Err(fault) => Err(Error::from(fault)),
        Ok(id) => check_transition(consumed, governance_mode, first_input, index, &id),
    }
}

/// Judges the outputs at `indices` one after the other and stops at the
/// first rejection, which is the result. With no rejection, or no index, the
/// result is acceptance.
pub fn validate_outputs(
    outputs: &[Output],
    indices: &[usize],
    consumed: &ConsumedSet,
    governance_mode: bool,
    first_input: &[u8],
) -> (out: Result<(), Error>)
    ensures
        out == outputs_verdict(
            output_models(outputs@),
            index_models(indices@),
            consumed@,
            governance_mode,
            first_input@,
        ),
{
    let ghost models = output_models(outputs@);
    let ghost positions = index_models(indices@);
    let mut k: usize = 0;
    while k < indices.len()
        invariant
            k <= indices@.len(),
            models == output_models(outputs@),
            positions == index_models(indices@),
            outputs_verdict(
                models,
                positions.take(k as int),
                consumed@,
                governance_mode,
                first_input@,
            ) is Ok,
        decreases indices@.len() - k,
    {
        proof {
            assert(positions.take(k + 1).drop_last() =~= positions.take(k as int));
            assert(positions.take(k + 1).last() == indices@[k as int] as int);
        }
        match check_output(outputs, indices[k], consumed, governance_mode, first_input) {
            Err(e) => {
                proof {
                    rejection_stands(
                        models,
                        positions,
                        consumed@,
                        governance_mode,
                        first_input@,
                        k + 1,
                    );
                }
                return Err(e);
            },
            Ok(_) => {},
        }
        k += 1;
    }
    assert(positions.take(k as int) =~= positions);
    Ok(())
}

/// The verdict on a transaction.
///
/// The stages run in a fixed order and the first rejection decides. The
/// order is the script's arguments, the governance lock hash in them, the consumed
/// identifiers, the script's own hash, the first input, and then the outputs
/// of the token type in ascending order.
pub open spec fn verdict(tx: TransactionModel) -> Result<(), Error> {
    match tx.script_args {
        Err(fault) => Err(rejection_of(fault)),
        Ok(args) => match governance_hash_of(args) {
            Err(e) => Err(e),
            Ok(governance) => match consumed_identifiers(tx.group_input_data) {
                Err(e) => Err(e),
                Ok(consumed) => match tx.script_hash {
                    Err(fault) => Err(rejection_of(fault)),
                    Ok(script_hash) => match tx.first_input {
                        Err(fault) => Err(rejection_of(fault)),
                        Ok(first_input) => outputs_verdict(
                            tx.outputs,
                            candidate_indices(tx.outputs, script_hash),
                            consumed,
                            in_governance_mode(tx.input_lock_hashes, governance),
                            first_input,
                        ),
                    },
                },
            },
        },
    }
}

/// Validates a transaction: accepts it with `Ok`, or rejects it with the
/// first rejection that the pipeline meets.
pub fn validate(tx: &Transaction) -> (out: Result<(), Error>)
    ensures
        out == verdict(tx@),
{
    let args = match &tx.script_args {
        Err(fault) => {
            return Err(Error::from(*fault));
        },
        Ok(args) => args,
    };
    let governance = match governance_lock_hash(args.as_slice()) {
        Err(e) => {
            return Err(e);
        },
        Ok(hash) => hash,
    };
    let mode = governance_mode(tx.input_lock_hashes.as_slice(), &governance);
    let consumed = match collect_consumed(tx.group_input_data.as_slice()) {
        Err(e) => {
            return Err(e);
        },
        Ok(set) => set,
    };
    let script_hash = match &tx.script_hash {
        Err(fault) => {
            return Err(Error::from(*fault));
        },
        Ok(hash) => hash,
    };
    let indices = locate_nft_outputs(tx.outputs.as_slice(), script_hash);
    let first_input = match &tx.first_input {
        Err(fault) => {
            return Err(Error::from(*fault));
        },
        Ok(bytes) => bytes,
    };
    validate_outputs(
        tx.outputs.as_slice(),
        indices.as_slice(),
        &consumed,
        mode,
        first_input.as_slice(),
    )
}

/// Runs the validation and returns the outcome code for the host: 0 for
/// acceptance, and the code of the rejection otherwise.
pub fn entry(tx: &Transaction) -> (code: i8)
    ensures
        code == outcome_code(verdict(tx@)),
{
    match validate(tx) {
        Ok(_) => 0,
        Err(e) => e.code(),
    }
}

} // verus!
