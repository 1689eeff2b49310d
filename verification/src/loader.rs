use vstd::prelude::*;

use crate::error::MarshalError;
use crate::list::UnsafeList;
use crate::traits::{TryIntoSafe, TryIntoUnsafe, UnsafeString};

verus! {

/// Loader metadata read from a parsed ROM, in owned form.
pub struct SafeDsRomLoaderData {
    /// Short game title from the ROM header.
    pub title: String,
    /// Base RAM address of the ARM9 program.
    pub arm9_base_address: u32,
    /// Entry function address of the ARM9 program.
    pub arm9_entry_function: u32,
    /// Base RAM addresses of the ARM9 overlays, in overlay order.
    pub overlay_base_addresses: Vec<u32>,
}

/// Loader metadata in foreign-compatible form, produced by externalizing
/// a [`SafeDsRomLoaderData`].
pub struct DsRomLoaderData {
    /// The game title as a null-terminated buffer.
    pub title: UnsafeString,
    /// Base RAM address of the ARM9 program.
    pub arm9_base_address: u32,
    /// Entry function address of the ARM9 program.
    pub arm9_entry_function: u32,
    /// The overlay base addresses as a (pointer, count) container.
    pub overlay_base_addresses: UnsafeList<u32>,
}

impl TryIntoUnsafe for SafeDsRomLoaderData {
    type UnsafeType = DsRomLoaderData;

    open spec fn same_owned(self, other: SafeDsRomLoaderData) -> bool {
        &&& self.title.same_owned(other.title)
        &&& self.arm9_base_address == other.arm9_base_address
        &&& self.arm9_entry_function == other.arm9_entry_function
        &&& self.overlay_base_addresses.same_owned(other.overlay_base_addresses)
    }

    open spec fn externalize_ok(self) -> bool {
        &&& self.title.externalize_ok()
        &&& self.overlay_base_addresses.externalize_ok()
    }

    open spec fn is_externalization(self, u: DsRomLoaderData) -> bool {
        &&& self.title.is_externalization(u.title)
        &&& u.arm9_base_address == self.arm9_base_address
        &&& u.arm9_entry_function == self.arm9_entry_function
        &&& self.overlay_base_addresses.is_externalization(u.overlay_base_addresses)
    }

    fn try_into_unsafe(self) -> (r: Result<DsRomLoaderData, MarshalError>) {
        let title = match self.title.try_into_unsafe() {
            Ok(t) => t,
            Err(e) => {
                return Err(e);
            },
        };
        let overlay_base_addresses = match self.overlay_base_addresses.try_into_unsafe() {
            Ok(l) => l,
            Err(e) => {
                return Err(e);
            },
        };
        Ok(
            DsRomLoaderData {
                title,
                arm9_base_address: self.arm9_base_address,
                arm9_entry_function: self.arm9_entry_function,
                overlay_base_addresses,
            },
        )
    }

    proof fn lemma_round_trip(v: SafeDsRomLoaderData, u: DsRomLoaderData) {
        TryIntoUnsafe::lemma_round_trip(v.title, u.title);
        TryIntoUnsafe::lemma_round_trip(v.overlay_base_addresses, u.overlay_base_addresses);
        assert(u.reclaimable());
        assert(u.internalize_ok());
        assert forall|w: SafeDsRomLoaderData| #[trigger]
            u.is_internalization(w) implies v.same_owned(w) by {
            assert(u.title.is_internalization(w.title));
            assert(u.overlay_base_addresses.is_internalization(w.overlay_base_addresses));
        }
    }
}

impl TryIntoSafe for DsRomLoaderData {
    type SafeType = SafeDsRomLoaderData;

    open spec fn reclaimable(self) -> bool {
        &&& self.title.reclaimable()
        &&& self.overlay_base_addresses.reclaimable()
    }

    open spec fn internalize_ok(self) -> bool {
        &&& self.title.internalize_ok()
        &&& self.overlay_base_addresses.internalize_ok()
    }

    open spec fn is_internalization(self, s: SafeDsRomLoaderData) -> bool {
        &&& self.title.is_internalization(s.title)
        &&& s.arm9_base_address == self.arm9_base_address
        &&& s.arm9_entry_function == self.arm9_entry_function
        &&& self.overlay_base_addresses.is_internalization(s.overlay_base_addresses)
    }

    fn try_into_safe(self) -> (r: Result<SafeDsRomLoaderData, MarshalError>) {
        let title = match self.title.try_into_safe() {
            Ok(t) => t,
            Err(e) => {
                return Err(e);
            },
        };
        let overlay_base_addresses = match self.overlay_base_addresses.try_into_safe() {
            Ok(l) => l,
            Err(e) => {
                return Err(e);
            },
        };
        Ok(
            SafeDsRomLoaderData {
                title,
                arm9_base_address: self.arm9_base_address,
                arm9_entry_function: self.arm9_entry_function,
                overlay_base_addresses,
            },
        )
    }
}

} // verus!
