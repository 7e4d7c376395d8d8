//! What a type script can see of the transaction it validates.

use crate::error::SysError;
use crate::identifier::{Byte32, CellData, CellDataModel};
use vstd::prelude::*;

verus! {

/// One output of the transaction.
#[derive(Debug)]
pub struct Output {
    /// The hash of the output's type script, if it has one.
    pub type_hash: Option<Byte32>,
    /// The read of the output's data.
    pub data: CellData,
}

/// The host's answers to every read the validator may make.
///
/// Lists are in transaction order. A read that the host refused is kept as
/// the fault it reported.
#[derive(Debug)]
pub struct Transaction {
    /// The argument bytes of the executing script.
    pub script_args: Result<Vec<u8>, SysError>,
    /// The hash of the executing script.
    pub script_hash: Result<Byte32, SysError>,
    /// The lock hash of each input.
    pub input_lock_hashes: Vec<Byte32>,
    /// The read of the data of each input whose type script is the
    /// executing script.
    pub group_input_data: Vec<CellData>,
    /// The outputs.
    pub outputs: Vec<Output>,
    /// The raw encoding of the first input.
    pub first_input: Result<Vec<u8>, SysError>,
}

/// An output, as a value of the model.
pub ghost struct OutputModel {
    pub type_hash: Option<Seq<u8>>,
    pub data: CellDataModel,
}

/// A transaction, as a value of the model: byte sequences in place of buffers.
pub ghost struct TransactionModel {
    pub script_args: Result<Seq<u8>, SysError>,
    pub script_hash: Result<Seq<u8>, SysError>,
    pub input_lock_hashes: Seq<Seq<u8>>,
    pub group_input_data: Seq<CellDataModel>,
    pub outputs: Seq<OutputModel>,
    pub first_input: Result<Seq<u8>, SysError>,
}

/// A list of 32-byte values, as byte sequences.
pub open spec fn hash_models(hashes: Seq<Byte32>) -> Seq<Seq<u8>> {
    hashes.map_values(|h: Byte32| h@)
}

/// A list of data reads, as values of the model.
pub open spec fn read_models(reads: Seq<CellData>) -> Seq<CellDataModel> {
    reads.map_values(|r: CellData| r@)
}

/// The answer to a read of bytes, as a value of the model.
pub open spec fn bytes_read_model(read: Result<Vec<u8>, SysError>) -> Result<Seq<u8>, SysError> {
    match read {
        Ok(bytes) => Ok(bytes@),
        Err(fault) => Err(fault),
    }
}

/// A list of outputs, as values of the model.
pub open spec fn output_models(outputs: Seq<Output>) -> Seq<OutputModel> {
    outputs.map_values(|o: Output| o@)
}

/// The answer to a read of a 32-byte value, as a value of the model.
pub open spec fn hash_read_model(read: Result<Byte32, SysError>) -> Result<Seq<u8>, SysError> {
    match read {
        Ok(hash) => Ok(hash@),
        Err(fault) => Err(fault),
    }
}

impl View for Output {
    type V = OutputModel;

    open spec fn view(&self) -> OutputModel {
        OutputModel {
            type_hash: match self.type_hash {
                Some(hash) => Some(hash@),
                None => None,
            },
            data: self.data@,
        }
    }
}

impl View for Transaction {
    type V = TransactionModel;

    open spec fn view(&self) -> TransactionModel {
        TransactionModel {
            script_args: bytes_read_model(self.script_args),
            script_hash: hash_read_model(self.script_hash),
            input_lock_hashes: hash_models(self.input_lock_hashes@),
            group_input_data: read_models(self.group_input_data@),
            outputs: output_models(self.outputs@),
            first_input: bytes_read_model(self.first_input),
        }
    }
}

} // verus!
