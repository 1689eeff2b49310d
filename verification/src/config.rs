use vstd::prelude::*;
use vstd::slice::{slice_subrange, slice_to_vec};
use vstd::utf8::*;

use crate::sync::SyncModule;
use crate::traits::string_from_utf8;

verus! {

/// Whether `b` is an ASCII decimal digit.
pub open spec fn is_digit(b: u8) -> bool {
    48 <= b <= 57
}

/// The number denoted by a sequence of decimal digit bytes.
pub open spec fn dec_value(s: Seq<u8>) -> int
    decreases s.len(),
{
    if s.len() == 0 {
        0
    } else {
        dec_value(s.drop_last()) * 10 + (s.last() - 48)
    }
}

/// Whether a configuration line splits at position `k` into a module name
/// and a base address: the first separator `=` stands at `k`, the name
/// before it is valid UTF-8, and everything after it is at least one decimal
/// digit denoting a value within `u32` range.
pub open spec fn line_splits_at(line: Seq<u8>, k: int) -> bool {
    &&& 0 <= k < line.len()
    &&& line[k] == 61u8
    &&& forall|j: int| 0 <= j < k ==> line[j] != 61u8
    &&& valid_utf8(line.subrange(0, k))
    &&& k + 1 < line.len()
    &&& forall|j: int| k < j < line.len() ==> is_digit(#[trigger] line[j])
    &&& dec_value(line.subrange(k + 1, line.len() as int)) <= u32::MAX
}

/// Whether a configuration line is well-formed (`name=base_address`).
pub open spec fn valid_line(line: Seq<u8>) -> bool {
    exists|k: int| line_splits_at(line, k)
}

/// The denoted value of a digit sequence is never negative.
proof fn lemma_dec_value_nonneg(s: Seq<u8>)
    requires
        forall|j: int| 0 <= j < s.len() ==> is_digit(#[trigger] s[j]),
    ensures
        dec_value(s) >= 0,
    decreases s.len(),
{
    if s.len() > 0 {
        lemma_dec_value_nonneg(s.drop_last());
    }
}

/// Extending a digit sequence never shrinks its denoted value.
proof fn lemma_dec_value_prefix(s: Seq<u8>, n: int)
    requires
        forall|j: int| 0 <= j < s.len() ==> is_digit(#[trigger] s[j]),
        0 <= n <= s.len(),
    ensures
        dec_value(s.take(n)) <= dec_value(s),
    decreases s.len() - n,
{
    if n == s.len() {
        assert(s.take(n) =~= s);
    } else {
        lemma_dec_value_prefix(s.drop_last(), n);
        assert(s.drop_last().take(n) =~= s.take(n));
        lemma_dec_value_nonneg(s.drop_last());
        lemma_dec_value_nonneg(s.take(n));
    }
}

/// Any two split positions of one line are the same position: the separator
/// at a split position is the line's first `=`.
proof fn lemma_split_position_unique(line: Seq<u8>, k1: int, k2: int)
    requires
        line_splits_at(line, k1),
        line_splits_at(line, k2),
    ensures
        k1 == k2,
{
}

/// Parses one configuration line of the form `name=base_address`, with a
/// decimal address. Returns the module exactly when the line is well-formed;
/// the name is the decoded text before the first `=` and the address is the
/// denoted value of the digits after it.
pub fn parse_sync_module(line: &[u8]) -> (r: Option<SyncModule>)
    ensures
        r is Some <==> valid_line(line@),
        r is Some ==> exists|k: int|
            {
                &&& #[trigger] line_splits_at(line@, k)
                &&& encode_utf8(r->0.name@) == line@.subrange(0, k)
                &&& r->0.base_address == dec_value(line@.subrange(k + 1, line@.len() as int))
            },
{
    let mut k: usize = 0;
    while k < line.len() && line[k] != 61u8
        invariant
            k <= line@.len(),
            forall|j: int| 0 <= j < k ==> line@[j] != 61u8,
        decreases line@.len() - k,
    {
        k += 1;
    }
    if k == line.len() {
        proof {
            assert forall|kk: int| !(#[trigger] line_splits_at(line@, kk)) by {
                if 0 <= kk < line@.len() {
                    assert(line@[kk] != 61u8);
                }
            }
        }
        return None;
    }
    if k + 1 == line.len() {
        proof {
            assert forall|kk: int| !(#[trigger] line_splits_at(line@, kk)) by {
                if line_splits_at(line@, kk) {
                    assert(kk == k as int);
                }
            }
        }
        return None;
    }
    let ghost address = line@.subrange(k + 1, line@.len() as int);
    let mut i: usize = k + 1;
    let mut value: u64 = 0;
    while i < line.len()
        invariant
            k + 1 <= i <= line@.len(),
            k < line@.len(),
            line@[k as int] == 61u8,
            forall|j: int| 0 <= j < k ==> line@[j] != 61u8,
            forall|j: int| k < j < i ==> is_digit(#[trigger] line@[j]),
            value <= u32::MAX,
            value == dec_value(line@.subrange(k + 1, i as int)),
            address == line@.subrange(k + 1, line@.len() as int),
        decreases line@.len() - i,
    {
        let b = line[i];
        if b < 48u8 || b > 57u8 {
            proof {
                assert forall|kk: int| !(#[trigger] line_splits_at(line@, kk)) by {
                    if line_splits_at(line@, kk) {
                        assert(kk == k as int);
                        assert(is_digit(line@[i as int]));
                    }
                }
            }
            return None;
        }
        let next: u64 = value * 10 + (b - 48u8) as u64;
        proof {
            assert(line@.subrange(k + 1, i as int + 1).drop_last() =~= line@.subrange(
                k + 1,
                i as int,
            ));
            assert(line@.subrange(k + 1, i as int + 1).last() == line@[i as int]);
        }
        if next > u32::MAX as u64 {
            proof {
                assert forall|kk: int| !(#[trigger] line_splits_at(line@, kk)) by {
                    if line_splits_at(line@, kk) {
                        assert(kk == k as int);
                        assert(forall|j: int| 0 <= j < address.len() ==> is_digit(
                            #[trigger] address[j],
                        ));
                        lemma_dec_value_prefix(address, i + 1 - (k + 1));
                        assert(address.take(i + 1 - (k + 1)) =~= line@.subrange(
                            k + 1,
                            i as int + 1,
                        ));
                    }
                }
            }
            return None;
        }
        value = next;
        i += 1;
    }
    let name_bytes = slice_to_vec(slice_subrange(line, 0, k));
    let ghost name_view = name_bytes@;
    match string_from_utf8(name_bytes) {
        Some(name) => {
            proof {
                broadcast use decode_utf8_encode_utf8;

                assert(line@.subrange(k + 1, i as int) =~= address);
                assert(line_splits_at(line@, k as int));
            }
            Some(SyncModule { name, base_address: value as u32 })
        },
        None => {
            proof {
                assert forall|kk: int| !(#[trigger] line_splits_at(line@, kk)) by {
                    if line_splits_at(line@, kk) {
                        assert(kk == k as int);
                        assert(valid_utf8(name_view));
                    }
                }
            }
            None
        },
    }
}

} // verus!
