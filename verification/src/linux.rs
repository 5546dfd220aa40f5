//! The detector of Linux and Android.
//!
//! The kernel hands every process a vector of hardware capabilities. Reading
//! it is the caller's part; what its bits mean for the capability word is
//! decided here.

use vstd::prelude::*;
use crate::feature::{contained, AES_MASK, NEON_MASK, PMULL_MASK, SHA256_MASK, SHA512_MASK};
use crate::target::{bit_if, Arch};

verus! {

/// No bit is forced to dynamic detection on these systems.
pub const FORCE_DYNAMIC_DETECTION: u32 = 0;

/// Bit of the AES instructions in the 64-bit capability vector.
pub const HWCAP_AES: u64 = 0x8;

/// Bit of carryless multiply in the 64-bit capability vector.
pub const HWCAP_PMULL: u64 = 0x10;

/// Bit of the SHA-256 instructions in the 64-bit capability vector.
pub const HWCAP_SHA2: u64 = 0x40;

/// Bit of the SHA-512 instructions in the 64-bit capability vector.
pub const HWCAP_SHA512: u64 = 0x20_0000;

/// Bit of the vector unit in the 32-bit capability vector.
pub const HWCAP_NEON: u64 = 0x1000;

/// Whether the capability vector `caps` has the bit `bit`.
pub open spec fn has(caps: u64, bit: u64) -> bool {
    caps & bit == bit
}

/// The raw mask that a capability vector stands for on `arch`.
///
/// On the 64-bit architecture the vector unit is not looked for: every such
/// target has it, and the static mask says so.
pub open spec fn reported_mask(arch: Arch, caps: u64) -> u32 {
    match arch {
        Arch::Aarch64 => bit_if(has(caps, HWCAP_AES), AES_MASK) | bit_if(
            has(caps, HWCAP_PMULL),
            PMULL_MASK,
        ) | bit_if(has(caps, HWCAP_SHA2), SHA256_MASK) | bit_if(
            has(caps, HWCAP_SHA512),
            SHA512_MASK,
        ),
        Arch::Arm => bit_if(has(caps, HWCAP_NEON), NEON_MASK),
    }
}

/// The raw mask of a process whose capability vector is `caps`, or that has
/// none: an environment that does not expose the vector detects nothing.
pub open spec fn detected_mask(arch: Arch, caps: Option<u64>) -> u32 {
    match caps {
        Some(caps) => reported_mask(arch, caps),
        None => 0,
    }
}

/// `mask` where the capability vector has `bit`, nothing otherwise.
fn flag_bit(caps: u64, bit: u64, mask: u32) -> (m: u32)
    ensures
        m == bit_if(has(caps, bit), mask),
{
    if caps & bit == bit {
        mask
    } else {
        0
    }
}

/// Derives the raw mask from the capability vector, if the environment
/// exposes one.
pub fn detect_features(arch: Arch, caps: Option<u64>) -> (features: u32)
    ensures
        features == detected_mask(arch, caps),
        caps.is_none() ==> features == 0,
{
    match caps {
        None => 0,
        Some(caps) => match arch {
            Arch::Aarch64 => flag_bit(caps, HWCAP_AES, AES_MASK) | flag_bit(
                caps,
                HWCAP_PMULL,
                PMULL_MASK,
            ) | flag_bit(caps, HWCAP_SHA2, SHA256_MASK) | flag_bit(
                caps,
                HWCAP_SHA512,
                SHA512_MASK,
            ),
            Arch::Arm => flag_bit(caps, HWCAP_NEON, NEON_MASK),
        },
    }
}

/// On the 64-bit architecture each of the four detected features is in the
/// raw mask exactly if its bit is in the capability vector, and nothing else
/// is in the raw mask.
pub proof fn lemma_reported_bits(caps: u64)
    ensures
        contained(AES_MASK, reported_mask(Arch::Aarch64, caps)) <==> has(caps, HWCAP_AES),
        contained(PMULL_MASK, reported_mask(Arch::Aarch64, caps)) <==> has(caps, HWCAP_PMULL),
        contained(SHA256_MASK, reported_mask(Arch::Aarch64, caps)) <==> has(caps, HWCAP_SHA2),
        contained(SHA512_MASK, reported_mask(Arch::Aarch64, caps)) <==> has(caps, HWCAP_SHA512),
        contained(
            reported_mask(Arch::Aarch64, caps),
            AES_MASK | PMULL_MASK | SHA256_MASK | SHA512_MASK,
        ),
{
    let a: u32 = bit_if(has(caps, HWCAP_AES), AES_MASK);
    let p: u32 = bit_if(has(caps, HWCAP_PMULL), PMULL_MASK);
    let s: u32 = bit_if(has(caps, HWCAP_SHA2), SHA256_MASK);
    let h: u32 = bit_if(has(caps, HWCAP_SHA512), SHA512_MASK);
    assert({
        &&& (0x04u32 & (a | p | s | h) == 0x04u32) == (a == 0x04u32)
        &&& (0x20u32 & (a | p | s | h) == 0x20u32) == (p == 0x20u32)
        &&& (0x10u32 & (a | p | s | h) == 0x10u32) == (s == 0x10u32)
        &&& (0x40u32 & (a | p | s | h) == 0x40u32) == (h == 0x40u32)
        &&& (a | p | s | h) & (0x04u32 | 0x20u32 | 0x10u32 | 0x40u32) == a | p | s | h
    }) by (bit_vector)
        requires
            a == 0 || a == 0x04u32,
            p == 0 || p == 0x20u32,
            s == 0 || s == 0x10u32,
            h == 0 || h == 0x40u32,
    ;
}

/// On the 32-bit architecture the raw mask is the vector-unit bit or
/// nothing.
pub proof fn lemma_reported_bits_arm(caps: u64)
    ensures
        reported_mask(Arch::Arm, caps) == if has(caps, HWCAP_NEON) {
            NEON_MASK
        } else {
            0
        },
{
}

} // verus!
