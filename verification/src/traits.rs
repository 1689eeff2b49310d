use vstd::prelude::*;
use vstd::string::*;
use vstd::utf8::*;

use crate::error::MarshalError;

verus! {

/// Conversion of an owned value into its flat, foreign-compatible
/// counterpart. Externalizing relinquishes ownership of all backing memory:
/// the foreign side becomes responsible for it until the value is handed
/// back through the matching [`TryIntoSafe`] conversion.
///
/// Every externalized value can be internalized again: the foreign type of
/// each owned shape reverses the conversion, and `lemma_round_trip` proves
/// that doing so rebuilds the original value.
pub trait TryIntoUnsafe: Sized where Self::UnsafeType: TryIntoSafe<SafeType = Self> {
    /// The foreign-compatible counterpart of `Self`.
    type UnsafeType;

    /// Whether `self` and `other` are the same owned value, compared
    /// structurally (element by element, character by character).
    spec fn same_owned(self, other: Self) -> bool;

    /// Whether externalizing `self` succeeds.
    spec fn externalize_ok(self) -> bool;

    /// Whether `u` is the foreign-compatible form of `self`.
    spec fn is_externalization(self, u: Self::UnsafeType) -> bool;

    /// Converts `self` into its foreign-compatible form, handing ownership
    /// of the backing memory to the caller. Fails, producing no output at
    /// all, when any part of the value cannot be represented.
    fn try_into_unsafe(self) -> (r: Result<Self::UnsafeType, MarshalError>)
        ensures
            r is Ok <==> self.externalize_ok(),
            r is Ok ==> self.is_externalization(r->Ok_0),
    ;

    /// Round trip: a value that externalized successfully can always be
    /// internalized, and internalizing rebuilds the original value.
    proof fn lemma_round_trip(v: Self, u: Self::UnsafeType)
        requires
            v.externalize_ok(),
            v.is_externalization(u),
        ensures
            u.reclaimable(),
            u.internalize_ok(),
            forall|w: Self| #[trigger] u.is_internalization(w) ==> v.same_owned(w),
    ;
}

/// Conversion of a foreign-compatible value back into an owned value,
/// reclaiming the memory that a matching [`TryIntoUnsafe`] conversion handed
/// out, so that it is released through normal ownership rules.
pub trait TryIntoSafe: Sized {
    /// The owned counterpart of `Self`.
    type SafeType;

    /// Whether `self` is shaped like a value produced by externalization,
    /// so that its backing memory can be reclaimed at all. Callers must
    /// only internalize values produced by externalization, and each such
    /// value at most once.
    spec fn reclaimable(self) -> bool;

    /// Whether internalizing `self` succeeds.
    spec fn internalize_ok(self) -> bool;

    /// Whether `s` is the owned value rebuilt from `self`.
    spec fn is_internalization(self, s: Self::SafeType) -> bool;

    /// Converts `self` back into an owned value, reclaiming ownership of
    /// all backing memory. Even on failure the reclaimed memory is released
    /// normally: no leak, no double free.
    fn try_into_safe(self) -> (r: Result<Self::SafeType, MarshalError>)
        requires
            self.reclaimable(),
        ensures
            r is Ok <==> self.internalize_ok(),
            r is Ok ==> self.is_internalization(r->Ok_0),
    ;
}

impl TryIntoUnsafe for u32 {
    type UnsafeType = u32;

    open spec fn same_owned(self, other: u32) -> bool {
        self == other
    }

    open spec fn externalize_ok(self) -> bool {
        true
    }

    open spec fn is_externalization(self, u: u32) -> bool {
        u == self
    }

    fn try_into_unsafe(self) -> (r: Result<u32, MarshalError>) {
        Ok(self)
    }

    proof fn lemma_round_trip(v: u32, u: u32) {
        assert(u.reclaimable());
        assert(u.internalize_ok());
        assert(forall|w: u32| #[trigger] u.is_internalization(w) ==> v.same_owned(w));
    }
}

impl TryIntoSafe for u32 {
    type SafeType = u32;

    open spec fn reclaimable(self) -> bool {
        true
    }

    open spec fn internalize_ok(self) -> bool {
        true
    }

    open spec fn is_internalization(self, s: u32) -> bool {
        s == self
    }

    fn try_into_safe(self) -> (r: Result<u32, MarshalError>) {
        Ok(self)
    }
}

impl TryIntoUnsafe for u8 {
    type UnsafeType = u8;

    open spec fn same_owned(self, other: u8) -> bool {
        self == other
    }

    open spec fn externalize_ok(self) -> bool {
        true
    }

    open spec fn is_externalization(self, u: u8) -> bool {
        u == self
    }

    fn try_into_unsafe(self) -> (r: Result<u8, MarshalError>) {
        Ok(self)
    }

    proof fn lemma_round_trip(v: u8, u: u8) {
        assert(u.reclaimable());
        assert(u.internalize_ok());
        assert(forall|w: u8| #[trigger] u.is_internalization(w) ==> v.same_owned(w));
    }
}

impl TryIntoSafe for u8 {
    type SafeType = u8;

    open spec fn reclaimable(self) -> bool {
        true
    }

    open spec fn internalize_ok(self) -> bool {
        true
    }

    open spec fn is_internalization(self, s: u8) -> bool {
        s == self
    }

    fn try_into_safe(self) -> (r: Result<u8, MarshalError>) {
        Ok(self)
    }
}

impl TryIntoUnsafe for u16 {
    type UnsafeType = u16;

    open spec fn same_owned(self, other: u16) -> bool {
        self == other
    }

    open spec fn externalize_ok(self) -> bool {
        true
    }

    open spec fn is_externalization(self, u: u16) -> bool {
        u == self
    }

    fn try_into_unsafe(self) -> (r: Result<u16, MarshalError>) {
        Ok(self)
    }

    proof fn lemma_round_trip(v: u16, u: u16) {
        assert(u.reclaimable());
        assert(u.internalize_ok());
        assert(forall|w: u16| #[trigger] u.is_internalization(w) ==> v.same_owned(w));
    }
}

impl TryIntoSafe for u16 {
    type SafeType = u16;

    open spec fn reclaimable(self) -> bool {
        true
    }

    open spec fn internalize_ok(self) -> bool {
        true
    }

    open spec fn is_internalization(self, s: u16) -> bool {
        s == self
    }

    fn try_into_safe(self) -> (r: Result<u16, MarshalError>) {
        Ok(self)
    }
}

/// The foreign-compatible form of owned text: a null-terminated byte
/// buffer holding the text's encoded bytes, which the foreign side reads
/// up to (and not including) the terminator.
pub struct UnsafeString {
    /// The encoded bytes of the text followed by a single null terminator.
    pub buffer: Vec<u8>,
}

impl UnsafeString {
    /// The encoded text bytes: everything before the null terminator.
    pub open spec fn content(self) -> Seq<u8> {
        self.buffer@.take(self.buffer@.len() - 1)
    }
}

/// Relies on `String::from_utf8`: it succeeds exactly when the bytes are
/// valid UTF-8, and then returns the text those bytes encode.
#[verifier::external_body]
pub(crate) fn string_from_utf8(bytes: Vec<u8>) -> (r: Option<String>)
    ensures
        r is Some <==> valid_utf8(bytes@),
        r is Some ==> r->0@ == decode_utf8(bytes@),
{
    String::from_utf8(bytes).ok()
}

impl TryIntoUnsafe for String {
    type UnsafeType = UnsafeString;

    open spec fn same_owned(self, other: String) -> bool {
        self@ == other@
    }

    open spec fn externalize_ok(self) -> bool {
        !encode_utf8(self@).contains(0u8)
    }

    open spec fn is_externalization(self, u: UnsafeString) -> bool {
        u.buffer@ == encode_utf8(self@).push(0u8)
    }

    fn try_into_unsafe(self) -> (r: Result<UnsafeString, MarshalError>)
        ensures
            r is Err ==> r->Err_0 == MarshalError::NulByte,
    {
        let mut buffer = self.as_str().as_bytes_vec();
        let mut i: usize = 0;
        while i < buffer.len()
            invariant
                i <= buffer@.len(),
                buffer@ == encode_utf8(self@),
                forall|j: int| 0 <= j < i ==> buffer@[j] != 0u8,
            decreases buffer@.len() - i,
        {
            if buffer[i] == 0u8 {
                return Err(MarshalError::NulByte);
            }
            i += 1;
        }
        buffer.push(0u8);
        Ok(UnsafeString { buffer })
    }

    proof fn lemma_round_trip(v: String, u: UnsafeString) {
        assert(u.content() =~= encode_utf8(v@));
        encode_utf8_valid_utf8(v@);
        encode_utf8_decode_utf8(v@);
        assert forall|i: int| 0 <= i < u.buffer@.len() - 1 implies u.buffer@[i] != 0u8 by {
            assert(u.buffer@[i] == encode_utf8(v@)[i]);
        }
        assert(u.reclaimable());
        assert(u.internalize_ok());
        assert forall|w: String| #[trigger] u.is_internalization(w) implies v.same_owned(w) by {
            assert(w@ == decode_utf8(u.content()));
        }
    }
}

impl TryIntoSafe for UnsafeString {
    type SafeType = String;

    open spec fn reclaimable(self) -> bool {
        &&& self.buffer@.len() >= 1
        &&& self.buffer@.last() == 0u8
        &&& forall|i: int| 0 <= i < self.buffer@.len() - 1 ==> self.buffer@[i] != 0u8
    }

    open spec fn internalize_ok(self) -> bool {
        valid_utf8(self.content())
    }

    open spec fn is_internalization(self, s: String) -> bool {
        s@ == decode_utf8(self.content())
    }

    fn try_into_safe(self) -> (r: Result<String, MarshalError>)
        ensures
            r is Err ==> r->Err_0 == MarshalError::InvalidText,
    {
        let mut bytes = self.buffer;
        let _terminator = bytes.pop();
        match string_from_utf8(bytes) {
            Some(s) => Ok(s),
            None => Err(MarshalError::InvalidText),
        }
    }
}

} // verus!
