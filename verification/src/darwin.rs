//! The detector of the Darwin family of operating systems.
//!
//! Each feature beyond the Darwin minimum is looked up by name in the
//! system's configuration parameters. The lookup itself is the caller's: it
//! is handed in as a function from a name to the system's reply, and is only
//! ever called with a well-formed name.

use vstd::prelude::*;
use crate::feature::{AES_MASK, NEON_MASK, PMULL_MASK, SHA256_MASK, SHA512_MASK};

verus! {

/// What every 64-bit Darwin target guarantees: the vector unit, AES, SHA-256
/// and carryless multiply.
pub const MIN_STATIC_FEATURES: u32 = NEON_MASK | AES_MASK | SHA256_MASK | PMULL_MASK;

/// Everything beyond the minimum is detected at run time on every Darwin
/// target, also where the target declares it, so that the dynamic path stays
/// exercised.
pub const FORCE_DYNAMIC_DETECTION: u32 = !MIN_STATIC_FEATURES;

/// The size, in bytes, of the integer that a lookup writes.
pub const VALUE_BYTES: usize = 4;

/// The name of the parameter that reports the SHA-512 instructions:
/// `hw.optional.armv8_2_sha512`, with its terminator.
pub const SHA512_NAME: [u8; 27] = [
    104, 119, 46, 111, 112, 116, 105, 111, 110, 97, 108, 46, 97, 114, 109, 118, 56, 95, 50, 95,
    115, 104, 97, 53, 49, 50, 0,
];

/// What the system answered to one lookup.
#[derive(Clone, Copy, Debug)]
pub struct QueryReply {
    /// The return code; zero is success.
    pub rc: i32,
    /// The number of bytes that the system wrote.
    pub len: usize,
    /// The integer that the system wrote.
    pub value: i32,
}

impl QueryReply {
    /// The reply says that the feature is there: the lookup succeeded, wrote
    /// an integer of the expected size, and the integer is not zero.
    pub open spec fn reports_present(&self) -> bool {
        self.rc == 0 && self.len == VALUE_BYTES && self.value != 0
    }

    /// Reads a reply. Any failure of the lookup reads as absence.
    pub fn present(&self) -> (yes: bool)
        ensures
            yes == self.reports_present(),
    {
        if self.rc != 0 {
            return false;
        }
        if self.len != VALUE_BYTES {
            return false;
        }
        self.value != 0
    }
}

/// A name is well formed when its one zero byte is its last byte.
pub open spec fn nul_terminated(name: Seq<u8>) -> bool {
    &&& name.len() > 0
    &&& name[name.len() - 1] == 0
    &&& forall|i: int| 0 <= i < name.len() - 1 ==> name[i] != 0
}

/// Whether `name` ends in its only zero byte.
pub fn is_nul_terminated(name: &[u8]) -> (ok: bool)
    ensures
        ok == nul_terminated(name@),
{
    let n: usize = name.len();
    let mut i: usize = 0;
    while i < n
        invariant
            n == name@.len(),
            i <= n,
            forall|j: int| 0 <= j < i ==> name@[j] != 0,
        decreases n - i,
    {
        if name[i] == 0 {
            return i + 1 == n;
        }
        i = i + 1;
    }
    false
}

/// Looks one feature up by `name`.
///
/// A name that is not well formed is refused before the lookup is made, and
/// reads as absence.
pub fn detect_feature<Q: Fn(&[u8]) -> QueryReply>(name: &[u8], query: &Q) -> (present: bool)
    requires
        nul_terminated(name@) ==> query.requires((name,)),
    ensures
        !nul_terminated(name@) ==> !present,
        nul_terminated(name@) ==> exists|reply: QueryReply|
            query.ensures((name,), reply) && present == reply.reports_present(),
{
    if !is_nul_terminated(name) {
        return false;
    }
    let reply = query(name);
    reply.present()
}

/// The raw mask that a reply to the SHA-512 lookup stands for.
pub open spec fn reported_mask(reply: QueryReply) -> u32 {
    if reply.reports_present() {
        SHA512_MASK
    } else {
        0
    }
}

/// Detects what a Darwin target does not guarantee: the SHA-512
/// instructions. The vector unit needs no lookup, every 64-bit target has it.
pub fn detect_features<Q: Fn(&[u8]) -> QueryReply>(query: Q) -> (features: u32)
    requires
        forall|name: &[u8]| nul_terminated(name@) ==> query.requires((name,)),
    ensures
        exists|name: &[u8], reply: QueryReply|
            name@ == SHA512_NAME@ && query.ensures((name,), reply) && features == reported_mask(
                reply,
            ),
{
    let mut features: u32 = 0;
    let name = SHA512_NAME.as_slice();
    assert(nul_terminated(name@));
    if detect_feature(name, &query) {
        features = features | SHA512_MASK;
        assert(0u32 | 0x40u32 == 0x40u32) by (bit_vector);
    }
    features
}

} // verus!
