//! Marshalling layer between owned values and flat, foreign-compatible
//! records that an external caller with a different memory model can read.
//!
//! Owned values (scalars, text, ordered sequences) are *externalized* into
//! fixed-layout counterparts, transferring responsibility for the backing
//! memory to the foreign side, and later *internalized* back so the memory
//! can be released through normal ownership rules. Each record crosses the
//! boundary exactly once in each direction: externalize at most once,
//! internalize exactly once per externalized record.

use vstd::prelude::*;

mod config;
mod error;
mod list;
mod loader;
mod sync;
mod traits;

pub use config::{dec_value, is_digit, line_splits_at, parse_sync_module, valid_line};
pub use error::MarshalError;
pub use list::{UnsafeList, lemma_nonempty_externalization_not_null, lemma_order_preserved};
pub use loader::{DsRomLoaderData, SafeDsRomLoaderData};
pub use sync::{DsdSyncData, DsdSyncModule, SafeDsdConfigData, SyncModule};
pub use traits::{TryIntoSafe, TryIntoUnsafe, UnsafeString};

verus! {

/// Externalizes loader metadata built from a parsed ROM. Succeeds exactly
/// when the metadata externalizes (its title free of null bytes, its overlay
/// count within the count field's range); the returned record is its
/// externalization, is always reclaimable, and internalizes successfully.
pub fn get_loader_data(data: SafeDsRomLoaderData) -> (r: Option<DsRomLoaderData>)
    ensures
        r is Some <==> data.externalize_ok(),
        r is Some ==> data.is_externalization(r->0),
        r is Some ==> r->0.reclaimable() && r->0.internalize_ok(),
{
    let ghost owned = data;
    match data.try_into_unsafe() {
        Ok(record) => {
            proof {
                TryIntoUnsafe::lemma_round_trip(owned, record);
            }
            Some(record)
        },
        Err(_) => None,
    }
}

/// Reclaims a record produced by [`get_loader_data`] and drops it, releasing
/// all nested memory. Must be called exactly once per record that
/// [`get_loader_data`] produced, and only on such records.
pub fn free_loader_data(data: DsRomLoaderData)
    requires
        data.reclaimable(),
{
    let _ = data.try_into_safe();
}

/// Externalizes a loaded sync configuration. Succeeds exactly when the
/// configuration externalizes (every module name free of null bytes, the
/// module count within the count field's range); the returned record is its
/// externalization, is always reclaimable, and internalizes successfully.
pub fn get_dsd_sync_data(config: SafeDsdConfigData) -> (r: Option<DsdSyncData>)
    ensures
        r is Some <==> config.externalize_ok(),
        r is Some ==> config.is_externalization(r->0),
        r is Some ==> r->0.reclaimable() && r->0.internalize_ok(),
{
    let ghost owned = config;
    match config.try_into_unsafe() {
        Ok(record) => {
            proof {
                TryIntoUnsafe::lemma_round_trip(owned, record);
            }
            Some(record)
        },
        Err(_) => None,
    }
}

/// Reclaims a record produced by [`get_dsd_sync_data`] and drops it,
/// releasing all nested memory. Must be called exactly once per record that
/// [`get_dsd_sync_data`] produced, and only on such records.
pub fn free_dsd_sync_data(data: DsdSyncData)
    requires
        data.reclaimable(),
{
    let _ = data.try_into_safe();
}

} // verus!
