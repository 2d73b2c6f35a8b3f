//! Primitive wire types and the alignment rule they share.

pub mod primitive;
pub mod wlarray;
pub mod wlstring;

pub use wlarray::WlArray;
pub use wlstring::WlString;

use vstd::prelude::*;

verus! {

/// Unsigned 32-bit integer argument.
pub type WlUint = u32;

/// Signed 32-bit integer argument.
pub type WlInt = i32;

/// Reference to an existing object, by its id.
pub type WlObject = u32;

/// Id of an object that the request being sent creates.
pub type WlNewId = u32;

/// Value of an interface-specific enumeration.
pub type WlEnum = u32;

/// Width in bytes of an unsigned integer argument.
pub const WL_TYPE_UINT_LEN: usize = 4;

/// Width in bytes of a signed integer argument.
pub const WL_TYPE_INT_LEN: usize = 4;

/// Width in bytes of an object reference.
pub const WL_TYPE_OBJECT_LEN: usize = 4;

/// Width in bytes of a new id.
pub const WL_TYPE_NEWID_LEN: usize = 4;

/// Width in bytes of an enumerated value.
pub const WL_TYPE_ENUM_LEN: usize = 4;

/// The smallest multiple of four that is at least `n`.
pub open spec fn spec_roundup_4(n: int) -> int {
    if n % 4 == 0 {
        n
    } else {
        n + 4 - n % 4
    }
}

/// `n` zero bytes: what pads an argument up to the next 32-bit boundary.
pub open spec fn zeros(n: int) -> Seq<u8> {
    Seq::new(n as nat, |i: int| 0u8)
}

/// Rounding up gives a multiple of four that is at least the count and less
/// than four above it.
pub proof fn lemma_roundup_4_aligns(n: int)
    requires
        n >= 0,
    ensures
        spec_roundup_4(n) >= n,
        spec_roundup_4(n) % 4 == 0,
        spec_roundup_4(n) < n + 4,
{
}

/// Rounding up keeps the order of two counts.
pub proof fn lemma_roundup_4_monotonic(a: int, b: int)
    requires
        0 <= a <= b,
    ensures
        spec_roundup_4(a) <= spec_roundup_4(b),
{
}

/// Rounds a byte count up to the next 32-bit boundary.
pub fn roundup_4(number: usize) -> (padded: usize)
    requires
        spec_roundup_4(number as int) <= usize::MAX,
    ensures
        padded == spec_roundup_4(number as int),
        padded >= number,
        padded % 4 == 0,
        padded < number + 4,
{
    let rem: usize = number % 4;
    if rem == 0 {
        number
    } else {
        number + (4 - rem)
    }
}

} // verus!
