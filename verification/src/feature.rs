//! The registry of capabilities and their bit positions in the shared
//! 32-bit capability word.
//!
//! The bit positions are a long-lived contract with separately compiled
//! machine code that reads the capability word directly: a bit is never
//! reassigned to another capability.

use vstd::prelude::*;
use crate::featureflags::{get, Features};
use crate::target::Arch;

verus! {

/// Bit of the vector unit, the architectural baseline of the 64-bit
/// architecture.
pub const NEON_MASK: u32 = 0x01;

/// Bit of the AES instructions.
pub const AES_MASK: u32 = 0x04;

/// Bit of the SHA-256 instructions.
pub const SHA256_MASK: u32 = 0x10;

/// Bit of the carryless (polynomial) multiply instructions.
pub const PMULL_MASK: u32 = 0x20;

/// Bit of the SHA-512 instructions.
pub const SHA512_MASK: u32 = 0x40;

/// A named instruction-set extension, identified by the bits it occupies in
/// the capability word.
///
/// Capabilities that only ever arrive together may share one `Feature` whose
/// mask has several bits; such a feature is present only if all of its bits
/// are.
#[derive(Clone, Copy, Debug)]
pub struct Feature {
    pub name: &'static str,
    pub mask: u32,
}

/// `mask` lies wholly within `word`.
pub open spec fn contained(mask: u32, word: u32) -> bool {
    mask & word == mask
}

impl Feature {
    /// Whether a capability word `word` grants this feature: every bit of the
    /// feature's mask is set in it.
    pub open spec fn granted_by(&self, word: u32) -> bool {
        contained(self.mask, word)
    }

    /// Whether this feature may be used, given a token that certifies the
    /// published capability word.
    ///
    /// A feature that the target guarantees is answered from the static mask
    /// alone, without reading the published word; the answer is the same
    /// either way, because the published word contains the static mask.
    #[inline(always)]
    pub fn available(&self, cpu_features: Features) -> (yes: bool)
        ensures
            yes == self.granted_by(cpu_features.word()),
            contained(self.mask, cpu_features.static_mask()) ==> yes,
    {
        let mask: u32 = self.mask;
        let fixed: u32 = cpu_features.static_part();
        if mask == mask & fixed {
            proof {
                let word: u32 = cpu_features.word();
                assert(mask & word == mask) by (bit_vector)
                    requires
                        mask == mask & fixed,
                        fixed & word == fixed,
                ;
            }
            return true;
        }
        mask == mask & get(cpu_features)
    }
}

/// The vector unit.
pub open spec fn neon_spec() -> Feature {
    Feature { name: "neon", mask: NEON_MASK }
}

/// The AES instructions.
pub open spec fn aes_spec() -> Feature {
    Feature { name: "aes", mask: AES_MASK }
}

/// The SHA-256 instructions.
pub open spec fn sha256_spec() -> Feature {
    Feature { name: "sha256", mask: SHA256_MASK }
}

/// The carryless multiply instructions.
pub open spec fn pmull_spec() -> Feature {
    Feature { name: "pmull", mask: PMULL_MASK }
}

/// The SHA-512 instructions.
pub open spec fn sha512_spec() -> Feature {
    Feature { name: "sha512", mask: SHA512_MASK }
}

/// The vector unit.
#[verifier::when_used_as_spec(neon_spec)]
pub fn neon() -> (f: Feature)
    ensures
        f == neon_spec(),
{
    Feature { name: "neon", mask: NEON_MASK }
}

/// The AES instructions.
#[verifier::when_used_as_spec(aes_spec)]
pub fn aes() -> (f: Feature)
    ensures
        f == aes_spec(),
{
    Feature { name: "aes", mask: AES_MASK }
}

/// The SHA-256 instructions.
#[verifier::when_used_as_spec(sha256_spec)]
pub fn sha256() -> (f: Feature)
    ensures
        f == sha256_spec(),
{
    Feature { name: "sha256", mask: SHA256_MASK }
}

/// The carryless multiply instructions.
#[verifier::when_used_as_spec(pmull_spec)]
pub fn pmull() -> (f: Feature)
    ensures
        f == pmull_spec(),
{
    Feature { name: "pmull", mask: PMULL_MASK }
}

/// The SHA-512 instructions.
#[verifier::when_used_as_spec(sha512_spec)]
pub fn sha512() -> (f: Feature)
    ensures
        f == sha512_spec(),
{
    Feature { name: "sha512", mask: SHA512_MASK }
}

/// The features that exist on `arch`, in the order of their bits: five on the
/// 64-bit architecture, the vector unit alone on the 32-bit one.
pub open spec fn all_features_spec(arch: Arch) -> Seq<Feature> {
    match arch {
        Arch::Aarch64 => seq![neon(), aes(), sha256(), pmull(), sha512()],
        Arch::Arm => seq![neon()],
    }
}

/// The features that exist on `arch`.
pub fn all_features(arch: Arch) -> (all: Vec<Feature>)
    ensures
        all@ == all_features_spec(arch),
{
    match arch {
        Arch::Aarch64 => {
            let all = vec![neon(), aes(), sha256(), pmull(), sha512()];
            assert(all@ =~= all_features_spec(arch));
            all
        },
        Arch::Arm => {
            let all = vec![neon()];
            assert(all@ =~= all_features_spec(arch));
            all
        },
    }
}

/// The bits of all of `features` together.
pub open spec fn union_of(features: Seq<Feature>) -> u32
    decreases features.len(),
{
    if features.len() == 0 {
        0
    } else {
        union_of(features.drop_last()) | features.last().mask
    }
}

/// The bits of all of `features` together.
pub fn union_mask(features: &[Feature]) -> (all: u32)
    ensures
        all == union_of(features@),
{
    let mut all: u32 = 0;
    let mut i: usize = 0;
    while i < features.len()
        invariant
            i <= features@.len(),
            all == union_of(features@.take(i as int)),
        decreases features@.len() - i,
    {
        assert(features@.take(i + 1).drop_last() =~= features@.take(i as int));
        all = all | features[i].mask;
        i = i + 1;
    }
    assert(features@.take(i as int) =~= features@);
    all
}

/// The bits of all features that exist on `arch`.
pub open spec fn all_features_mask(arch: Arch) -> u32 {
    match arch {
        Arch::Aarch64 => NEON_MASK | AES_MASK | SHA256_MASK | PMULL_MASK | SHA512_MASK,
        Arch::Arm => NEON_MASK,
    }
}

/// The bits of the features of an architecture, taken together, are the
/// architecture's mask of all features.
pub proof fn lemma_union_of_all(arch: Arch)
    ensures
        union_of(all_features_spec(arch)) == all_features_mask(arch),
{
    let one = seq![neon()];
    assert(union_of(Seq::<Feature>::empty()) == 0);
    assert(one.drop_last() =~= Seq::<Feature>::empty());
    assert(one.last() == neon());
    assert(union_of(one) == 0u32 | NEON_MASK);
    assert(0u32 | 0x01u32 == 0x01u32) by (bit_vector);
    match arch {
        Arch::Aarch64 => {
            let two = seq![neon(), aes()];
            let three = seq![neon(), aes(), sha256()];
            let four = seq![neon(), aes(), sha256(), pmull()];
            let five = seq![neon(), aes(), sha256(), pmull(), sha512()];
            assert(two.drop_last() =~= one);
            assert(three.drop_last() =~= two);
            assert(four.drop_last() =~= three);
            assert(five.drop_last() =~= four);
            assert(union_of(two) == union_of(one) | AES_MASK);
            assert(union_of(three) == union_of(two) | SHA256_MASK);
            assert(union_of(four) == union_of(three) | PMULL_MASK);
            assert(union_of(five) == union_of(four) | SHA512_MASK);
        },
        Arch::Arm => {},
    }
}

} // verus!
