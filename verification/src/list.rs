use vstd::prelude::*;

use crate::error::MarshalError;
use crate::traits::{TryIntoSafe, TryIntoUnsafe};

verus! {

/// The foreign-compatible form of an ordered sequence: one contiguous block
/// of converted elements together with the element count the foreign side
/// reads. An empty sequence carries no block at all, which stands for a true
/// null pointer: some foreign runtimes eagerly dereference any non-null
/// pointer they receive, so an empty sequence must never hand out a
/// non-null-but-not-dereferenceable block.
pub struct UnsafeList<T> {
    /// The contiguous block of converted elements; `None` models the null
    /// pointer handed out for an empty sequence.
    pub items: Option<Vec<T>>,
    /// The element count stored in the container's fixed-width count field.
    pub len: u32,
}

impl<T> UnsafeList<T> {
    /// Whether the container carries a null pointer instead of a block.
    pub open spec fn is_null(self) -> bool {
        self.items is None
    }
}

impl<T: TryIntoUnsafe> TryIntoUnsafe for Vec<T> {
    type UnsafeType = UnsafeList<T::UnsafeType>;

    open spec fn same_owned(self, other: Vec<T>) -> bool {
        &&& self@.len() == other@.len()
        &&& forall|i: int| 0 <= i < self@.len() ==> self@[i].same_owned(#[trigger] other@[i])
    }

    open spec fn externalize_ok(self) -> bool {
        &&& self@.len() <= u32::MAX
        &&& forall|i: int| 0 <= i < self@.len() ==> (#[trigger] self@[i]).externalize_ok()
    }

    open spec fn is_externalization(self, u: UnsafeList<T::UnsafeType>) -> bool {
        &&& u.len == self@.len()
        &&& if self@.len() == 0 {
            u.is_null()
        } else {
            &&& u.items is Some
            &&& u.items->0@.len() == self@.len()
            &&& forall|i: int|
                0 <= i < self@.len() ==> self@[i].is_externalization(#[trigger] u.items->0@[i])
        }
    }

    /// Converts every element in original order into one contiguous block.
    /// An empty sequence yields a null container; a non-empty one never
    /// does. A sequence too long for the count field, or any failing
    /// element, aborts the whole conversion with no partial output.
    fn try_into_unsafe(self) -> (r: Result<UnsafeList<T::UnsafeType>, MarshalError>)
        ensures
            r is Ok && self@.len() == 0 ==> r->Ok_0.is_null(),
            r is Ok && self@.len() > 0 ==> !r->Ok_0.is_null(),
            r is Err && self@.len() > u32::MAX ==> r->Err_0 == MarshalError::TooLong,
    {
        let mut rest = self;
        let ghost orig = rest@;
        if rest.len() > u32::MAX as usize {
            return Err(MarshalError::TooLong);
        }
        let len = rest.len() as u32;
        if len == 0 {
            return Ok(UnsafeList { items: None, len: 0 });
        }
        let mut block: Vec<T::UnsafeType> = Vec::new();
        while rest.len() > 0
            invariant
                self@ == orig,
                orig.len() <= u32::MAX,
                block@.len() + rest@.len() == orig.len(),
                rest@ == orig.subrange(block@.len() as int, orig.len() as int),
                forall|i: int|
                    0 <= i < block@.len() ==> orig[i].is_externalization(#[trigger] block@[i]),
                forall|i: int| 0 <= i < block@.len() ==> (#[trigger] orig[i]).externalize_ok(),
            decreases rest@.len(),
        {
            let element = rest.remove(0);
            assert(element == orig[block@.len() as int]);
            match element.try_into_unsafe() {
                Ok(converted) => block.push(converted),
                Err(e) => {
                    proof {
                        assert(self@[block@.len() as int] == element);
                        assert(!self.externalize_ok());
                    }
                    return Err(e);
                },
            }
        }
        Ok(UnsafeList { items: Some(block), len })
    }

    proof fn lemma_round_trip(v: Vec<T>, u: UnsafeList<T::UnsafeType>) {
        if v@.len() > 0 {
            let block = u.items->0;
            assert forall|i: int| 0 <= i < block@.len() implies (#[trigger] block@[i]).reclaimable()
                && block@[i].internalize_ok() by {
                T::lemma_round_trip(v@[i], block@[i]);
            }
            assert forall|w: Vec<T>| #[trigger] u.is_internalization(w) implies v.same_owned(w) by {
                assert forall|i: int| 0 <= i < v@.len() implies v@[i].same_owned(
                    #[trigger] w@[i],
                ) by {
                    T::lemma_round_trip(v@[i], block@[i]);
                    assert(block@[i].is_internalization(w@[i]));
                }
            }
        }
    }
}

/// A non-empty sequence never externalizes to a null container: the result
/// of a successful conversion carries a block and the input's element count.
/// (An input longer than the count field's range is left out: it yields a
/// clean failure instead of a record.)
pub proof fn lemma_nonempty_externalization_not_null<T: TryIntoUnsafe>(
    v: Vec<T>,
    u: UnsafeList<T::UnsafeType>,
)
    requires
        v.externalize_ok(),
        v.is_externalization(u),
        v@.len() > 0,
    ensures
        !u.is_null(),
        u.len == v@.len(),
{
}

/// Order preservation: in a successful externalization of a non-empty
/// sequence, the block element at each position is the externalized form of
/// the input element at that same position, and any internalization of the
/// container rebuilds the input elements in that same order.
pub proof fn lemma_order_preserved<T: TryIntoUnsafe>(v: Vec<T>, u: UnsafeList<T::UnsafeType>)
    requires
        v.externalize_ok(),
        v.is_externalization(u),
        v@.len() > 0,
    ensures
        u.items is Some,
        u.items->0@.len() == v@.len(),
        forall|i: int|
            0 <= i < v@.len() ==> v@[i].is_externalization(#[trigger] u.items->0@[i]),
        forall|w: Vec<T>, i: int|
            u.is_internalization(w) && 0 <= i < v@.len() ==> v@[i].same_owned(#[trigger] w@[i]),
{
    assert forall|w: Vec<T>, i: int|
        u.is_internalization(w) && 0 <= i < v@.len() implies v@[i].same_owned(
        #[trigger] w@[i],
    ) by {
        T::lemma_round_trip(v@[i], u.items->0@[i]);
        assert(u.items->0@[i].is_internalization(w@[i]));
    }
}

impl<T: TryIntoSafe> TryIntoSafe for UnsafeList<T> {
    type SafeType = Vec<T::SafeType>;

    open spec fn reclaimable(self) -> bool {
        match self.items {
            None => self.len == 0,
            Some(block) => {
                &&& block@.len() == self.len
                &&& forall|i: int| 0 <= i < block@.len() ==> (#[trigger] block@[i]).reclaimable()
            },
        }
    }

    open spec fn internalize_ok(self) -> bool {
        match self.items {
            None => true,
            Some(block) => forall|i: int|
                0 <= i < block@.len() ==> (#[trigger] block@[i]).internalize_ok(),
        }
    }

    open spec fn is_internalization(self, s: Vec<T::SafeType>) -> bool {
        match self.items {
            None => s@.len() == 0,
            Some(block) => {
                &&& s@.len() == block@.len()
                &&& forall|i: int| 0 <= i < block@.len() ==> block@[i].is_internalization(
                    #[trigger] s@[i],
                )
            },
        }
    }

    /// Reclaims the block (a null container is an empty sequence, with
    /// nothing to reclaim) and internalizes the elements in order. On a
    /// failing element the block has already been reclaimed, so everything
    /// is still released normally: no leak, no double free.
    fn try_into_safe(self) -> (r: Result<Vec<T::SafeType>, MarshalError>)
        ensures
            self.is_null() ==> r is Ok && r->Ok_0@.len() == 0,
    {
        match self.items {
            None => Ok(Vec::new()),
            Some(block) => {
                let mut rest = block;
                let ghost orig = rest@;
                let mut out: Vec<T::SafeType> = Vec::new();
                while rest.len() > 0
                    invariant
                        self.items is Some && self.items->0@ == orig,
                        out@.len() + rest@.len() == orig.len(),
                        rest@ == orig.subrange(out@.len() as int, orig.len() as int),
                        forall|i: int|
                            0 <= i < orig.len() ==> (#[trigger] orig[i]).reclaimable(),
                        forall|i: int|
                            0 <= i < out@.len() ==> orig[i].is_internalization(#[trigger] out@[i]),
                        forall|i: int| 0 <= i < out@.len() ==> (#[trigger] orig[i]).internalize_ok(),
                    decreases rest@.len(),
                {
                    let element = rest.remove(0);
                    assert(element == orig[out@.len() as int]);
                    match element.try_into_safe() {
                        Ok(value) => out.push(value),
                        Err(e) => {
                            proof {
                                assert(self.items->0@[out@.len() as int] == element);
                                assert(!self.internalize_ok());
                            }
                            return Err(e);
                        },
                    }
                }
                Ok(out)
            },
        }
    }
}

} // verus!
