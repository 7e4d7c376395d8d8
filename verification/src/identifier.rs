//! Token identifiers: the first 32 bytes of a cell's data.

use crate::error::SysError;
use vstd::prelude::*;

verus! {

/// A 32-byte value: a token identifier or the hash of a script.
pub type Byte32 = [u8; 32];

/// What a read of a cell's data gave.
#[derive(Debug)]
pub struct CellData {
    /// The bytes that the host delivered, from the start of the data.
    pub bytes: Vec<u8>,
    /// The fault that the host reported with them, if any.
    pub fault: Option<SysError>,
}

/// A read of a cell's data, as a value of the model.
pub ghost struct CellDataModel {
    pub bytes: Seq<u8>,
    pub fault: Option<SysError>,
}

impl View for CellData {
    type V = CellDataModel;

    open spec fn view(&self) -> CellDataModel {
        CellDataModel { bytes: self.bytes@, fault: self.fault }
    }
}

/// The identifier carried by cell data: its first 32 bytes, with zeros where
/// the data ends early.
pub open spec fn identifier_of(data: Seq<u8>) -> Seq<u8> {
    Seq::new(
        32,
        |i: int|
            if i < data.len() {
                data[i]
            } else {
                0u8
            },
    )
}

/// The identifier that a data read yields. A read that found fewer bytes
/// than it asked for is no failure: what was delivered is the data. Every
/// other fault stands.
pub open spec fn identifier_read(read: CellDataModel) -> Result<Seq<u8>, SysError> {
    match read.fault {
        None => Ok(identifier_of(read.bytes)),
        Some(SysError::LengthNotEnough) => Ok(identifier_of(read.bytes)),
        Some(fault) => Err(fault),
    }
}

/// The result of turning a read into an identifier, as a value of the model.
pub open spec fn identifier_model(out: Result<Byte32, SysError>) -> Result<Seq<u8>, SysError> {
    match out {
        Ok(id) => Ok(id@),
        Err(fault) => Err(fault),
    }
}

/// Whether two 32-byte values hold the same bytes.
pub fn byte32_eq(a: &Byte32, b: &Byte32) -> (same: bool)
    ensures
        same == (a@ == b@),
{
    let mut i: usize = 0;
    while i < 32
        invariant
            i <= 32,
            forall|j: int| 0 <= j < i ==> a@[j] == b@[j],
        decreases 32 - i,
    {
        if a[i] != b[i] {
            return false;
        }
        i += 1;
    }
    assert(a@ =~= b@);
    true
}

/// Reads the identifier off cell data.
///
/// Data shorter than 32 bytes is not rejected: the missing bytes count as
/// zero, so an empty cell carries the zero identifier.
pub fn nft_identifier(data: &[u8]) -> (id: Byte32)
    ensures
        id@ == identifier_of(data@),
{
    let mut id: Byte32 = [0u8; 32];
    let mut i: usize = 0;
    while i < 32 && i < data.len()
        invariant
            i <= 32,
            i <= data@.len(),
            forall|j: int| 0 <= j < i ==> id@[j] == data@[j],
            forall|j: int| i <= j < 32 ==> id@[j] == 0u8,
        decreases 32 - i,
    {
        id[i] = data[i];
        i += 1;
    }
    assert(id@ =~= identifier_of(data@));
    id
}

/// Turns a read of a cell's data into an identifier.
///
/// A read that reports too few bytes is recovered: the identifier is read
/// off the bytes that were delivered. Any other fault is handed back
/// unchanged.
pub fn read_identifier(read: &CellData) -> (out: Result<Byte32, SysError>)
    ensures
        identifier_model(out) == identifier_read(read@),
{
    match read.fault {
        None => Ok(nft_identifier(read.bytes.as_slice())),
        Some(SysError::LengthNotEnough) => Ok(nft_identifier(read.bytes.as_slice())),
        Some(fault) => Err(fault),
    }
}

} // verus!
