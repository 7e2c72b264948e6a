//! The versioned-storage guard: one persisted record naming this module
//! and its semantic version, written at instantiation and checked before
//! any migration runs.
use vstd::prelude::*;

use crate::errors::ContractError;
use crate::strutil::str_eq;

verus! {

/// Declares cosmwasm_std::MemoryStorage, the storage the guard holds;
/// opaque here, and read and written only through the cw2 calls below.
#[verifier::external_type_specification]
#[verifier::external_body]
pub struct ExMemoryStorage(cosmwasm_std::MemoryStorage);

/// The records the store holds at the versioned-storage key: empty before
/// the first write, one `(name, version)` pair after it.
pub uninterp spec fn version_record(s: cosmwasm_std::MemoryStorage) -> Seq<(Seq<char>, Seq<char>)>;

/// The persisted record: the module's name and its semantic version.
pub struct VersionRecord {
    pub name: String,
    pub version: String,
}

/// Relies on cw2::set_contract_version: stores `{contract: name, version}`
/// at the versioned-storage key, replacing whatever was there, and leaves
/// the store unchanged when the write is refused.
#[verifier::external_body]
fn cw2_set_version(store: &mut cosmwasm_std::MemoryStorage, name: &str, version: &str) -> (r:
    Result<(), ()>)
    ensures
        r is Ok ==> version_record(*final(store)) == seq![(name@, version@)],
        r is Err ==> version_record(*final(store)) == version_record(*old(store)),
{
    match cw2::set_contract_version(store, name, version) {
        Ok(()) => Ok(()),
        Err(_) => Err(()),
    }
}

/// Relies on cw2::get_contract_version: loads the record stored at the
/// versioned-storage key, and fails when none was ever written.
#[verifier::external_body]
fn cw2_get_version(store: &cosmwasm_std::MemoryStorage) -> (r: Result<VersionRecord, ()>)
    ensures
        r is Ok <== version_record(*store).len() == 1,
        r is Err <== version_record(*store).len() == 0,
        r matches Ok(v) ==> (version_record(*store).len() == 1 ==> v.name@ == version_record(
            *store,
        )[0].0 && v.version@ == version_record(*store)[0].1),
{
    match cw2::get_contract_version(store) {
        Ok(cv) => Ok(VersionRecord { name: cv.contract, version: cv.version }),
        Err(_) => Err(()),
    }
}

/// Writes the version marker unconditionally; fails only when the store
/// refuses the write, and then leaves the store unchanged.
pub fn set_version(store: &mut cosmwasm_std::MemoryStorage, name: &str, version: &str) -> (r:
    Result<(), ContractError>)
    ensures
        r is Ok ==> version_record(*final(store)) == seq![(name@, version@)],
        r is Err ==> r == Err::<(), ContractError>(ContractError::StorageFailure)
            && version_record(*final(store)) == version_record(*old(store)),
{
    match cw2_set_version(store, name, version) {
        Ok(()) => Ok(()),
        Err(()) => Err(ContractError::StorageFailure),
    }
}

/// Reads the persisted marker and succeeds exactly when its name equals
/// `contract_name`; a missing or foreign record is a `VersionMismatch`,
/// and a failed validation must abort the migration.
pub fn validate_migration(store: &cosmwasm_std::MemoryStorage, contract_name: &str) -> (r: Result<
    (),
    ContractError,
>)
    ensures
        version_record(*store).len() == 0 ==> r == Err::<(), ContractError>(
            ContractError::VersionMismatch,
        ),
        version_record(*store).len() == 1 ==> {
            &&& r is Ok <==> version_record(*store)[0].0 == contract_name@
            &&& r is Err ==> r == Err::<(), ContractError>(ContractError::VersionMismatch)
        },
{
    match cw2_get_version(store) {
        Ok(v) => {
            if str_eq(v.name.as_str(), contract_name) {
                Ok(())
            } else {
                Err(ContractError::VersionMismatch)
            }
        },
        Err(()) => Err(ContractError::VersionMismatch),
    }
}

} // verus!
