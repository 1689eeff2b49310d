use vstd::prelude::*;

use crate::error::MarshalError;
use crate::list::UnsafeList;
use crate::traits::{TryIntoSafe, TryIntoUnsafe, UnsafeString};

verus! {

/// One module listed in a sync configuration, in owned form.
pub struct SyncModule {
    /// The module's name.
    pub name: String,
    /// The module's base RAM address.
    pub base_address: u32,
}

/// The foreign-compatible form of a [`SyncModule`].
pub struct DsdSyncModule {
    /// The module's name as a null-terminated buffer.
    pub name: UnsafeString,
    /// The module's base RAM address.
    pub base_address: u32,
}

/// Sync configuration in owned form, as loaded from a configuration file.
pub struct SafeDsdConfigData {
    /// The configured modules, in configuration order.
    pub modules: Vec<SyncModule>,
}

/// Sync configuration in foreign-compatible form, produced by externalizing
/// a [`SafeDsdConfigData`].
pub struct DsdSyncData {
    /// The modules as a (pointer, count) container.
    pub modules: UnsafeList<DsdSyncModule>,
}

impl TryIntoUnsafe for SyncModule {
    type UnsafeType = DsdSyncModule;

    open spec fn same_owned(self, other: SyncModule) -> bool {
        &&& self.name.same_owned(other.name)
        &&& self.base_address == other.base_address
    }

    open spec fn externalize_ok(self) -> bool {
        self.name.externalize_ok()
    }

    open spec fn is_externalization(self, u: DsdSyncModule) -> bool {
        &&& self.name.is_externalization(u.name)
        &&& u.base_address == self.base_address
    }

    fn try_into_unsafe(self) -> (r: Result<DsdSyncModule, MarshalError>) {
        let name = match self.name.try_into_unsafe() {
            Ok(n) => n,
            Err(e) => {
                return Err(e);
            },
        };
        Ok(DsdSyncModule { name, base_address: self.base_address })
    }

    proof fn lemma_round_trip(v: SyncModule, u: DsdSyncModule) {
        TryIntoUnsafe::lemma_round_trip(v.name, u.name);
        assert(u.reclaimable());
        assert(u.internalize_ok());
        assert forall|w: SyncModule| #[trigger] u.is_internalization(w) implies v.same_owned(
            w,
        ) by {
            assert(u.name.is_internalization(w.name));
        }
    }
}

impl TryIntoSafe for DsdSyncModule {
    type SafeType = SyncModule;

    open spec fn reclaimable(self) -> bool {
        self.name.reclaimable()
    }

    open spec fn internalize_ok(self) -> bool {
        self.name.internalize_ok()
    }

    open spec fn is_internalization(self, s: SyncModule) -> bool {
        &&& self.name.is_internalization(s.name)
        &&& s.base_address == self.base_address
    }

    fn try_into_safe(self) -> (r: Result<SyncModule, MarshalError>) {
        let name = match self.name.try_into_safe() {
            Ok(n) => n,
            Err(e) => {
                return Err(e);
            },
        };
        Ok(SyncModule { name, base_address: self.base_address })
    }
}

impl TryIntoUnsafe for SafeDsdConfigData {
    type UnsafeType = DsdSyncData;

    open spec fn same_owned(self, other: SafeDsdConfigData) -> bool {
        self.modules.same_owned(other.modules)
    }

    open spec fn externalize_ok(self) -> bool {
        self.modules.externalize_ok()
    }

    open spec fn is_externalization(self, u: DsdSyncData) -> bool {
        self.modules.is_externalization(u.modules)
    }

    fn try_into_unsafe(self) -> (r: Result<DsdSyncData, MarshalError>) {
        let modules = match self.modules.try_into_unsafe() {
            Ok(m) => m,
            Err(e) => {
                return Err(e);
            },
        };
        Ok(DsdSyncData { modules })
    }

    proof fn lemma_round_trip(v: SafeDsdConfigData, u: DsdSyncData) {
        TryIntoUnsafe::lemma_round_trip(v.modules, u.modules);
        assert(u.reclaimable());
        assert(u.internalize_ok());
        assert forall|w: SafeDsdConfigData| #[trigger] u.is_internalization(
            w,
        ) implies v.same_owned(w) by {
            assert(u.modules.is_internalization(w.modules));
        }
    }
}

impl TryIntoSafe for DsdSyncData {
    type SafeType = SafeDsdConfigData;

    open spec fn reclaimable(self) -> bool {
        self.modules.reclaimable()
    }

    open spec fn internalize_ok(self) -> bool {
        self.modules.internalize_ok()
    }

    open spec fn is_internalization(self, s: SafeDsdConfigData) -> bool {
        self.modules.is_internalization(s.modules)
    }

    fn try_into_safe(self) -> (r: Result<SafeDsdConfigData, MarshalError>) {
        let modules = match self.modules.try_into_safe() {
            Ok(m) => m,
            Err(e) => {
                return Err(e);
            },
        };
        Ok(SafeDsdConfigData { modules })
    }
}

} // verus!
