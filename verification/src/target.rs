//! What is known of the target before the process starts: architecture,
//! operating system, declared instruction-set flags and test overrides, and
//! the masks that follow from them.

use vstd::prelude::*;
use crate::darwin::MIN_STATIC_FEATURES;
use crate::feature::{
    all_features, all_features_mask, contained, lemma_union_of_all, union_mask, AES_MASK,
    NEON_MASK, PMULL_MASK, SHA256_MASK, SHA512_MASK,
};

verus! {

/// The two supported architectures.
#[derive(Clone, Copy, Debug, PartialEq, Eq, Structural)]
pub enum Arch {
    /// The 64-bit architecture.
    Aarch64,
    /// The 32-bit architecture.
    Arm,
}

/// The operating system of the target.
#[derive(Clone, Copy, Debug, PartialEq, Eq, Structural)]
pub enum Os {
    Ios,
    Macos,
    Tvos,
    Visionos,
    Watchos,
    Fuchsia,
    Android,
    Linux,
    Windows,
    Other,
}

/// The detector variant that a target is built with.
#[derive(Clone, Copy, Debug, PartialEq, Eq, Structural)]
pub enum Platform {
    Darwin,
    Fuchsia,
    Linux,
    Windows,
    /// Any other target: nothing is detected at run time.
    Fallback,
}

/// Why a target is refused.
#[derive(Clone, Copy, Debug, PartialEq, Eq, Structural)]
pub enum GuardError {
    /// The pointer width is not the word size of the architecture.
    PointerWidth,
    /// The target is not little-endian.
    Endianness,
    /// A 64-bit target whose static mask lacks the vector unit.
    MissingBaseline,
    /// A Darwin target whose static mask is not the Darwin minimum.
    DarwinBaseline,
}

/// A description of the target and of the build's test overrides.
#[derive(Clone, Copy, Debug)]
pub struct Target {
    pub arch: Arch,
    pub os: Os,
    /// Size of a pointer, and of a reference, in bytes.
    pub pointer_bytes: usize,
    pub little_endian: bool,
    /// The target declares the vector unit.
    pub neon: bool,
    /// The target declares the AES instructions, and with them carryless
    /// multiply.
    pub aes: bool,
    /// The target declares the SHA-256 instructions.
    pub sha2: bool,
    /// The target declares the SHA-512 instructions.
    pub sha3: bool,
    /// Test override: behave as if the hardware had nothing but the vector
    /// unit.
    pub no_hw: bool,
    /// Test override: behave as if the hardware lacked the vector unit.
    pub no_neon: bool,
}

/// `bit` where `on` holds, nothing otherwise.
pub open spec fn bit_if(on: bool, bit: u32) -> u32 {
    if on {
        bit
    } else {
        0
    }
}

/// The detector variant for an architecture and an operating system.
pub open spec fn select_platform(arch: Arch, os: Os) -> Platform {
    match os {
        Os::Ios | Os::Macos | Os::Tvos | Os::Visionos | Os::Watchos => if arch == Arch::Aarch64 {
            Platform::Darwin
        } else {
            Platform::Fallback
        },
        Os::Fuchsia => if arch == Arch::Aarch64 {
            Platform::Fuchsia
        } else {
            Platform::Fallback
        },
        Os::Android | Os::Linux => Platform::Linux,
        Os::Windows => if arch == Arch::Aarch64 {
            Platform::Windows
        } else {
            Platform::Fallback
        },
        Os::Other => Platform::Fallback,
    }
}

/// The pointer width, in bytes, that the architecture is assumed to have.
pub open spec fn word_bytes(arch: Arch) -> usize {
    match arch {
        Arch::Aarch64 => 8,
        Arch::Arm => 4,
    }
}

/// The bits that the detector variant always wants verified at run time,
/// whatever the target declares.
pub open spec fn force_dynamic_of(platform: Platform) -> u32 {
    match platform {
        Platform::Darwin => !MIN_STATIC_FEATURES,
        _ => 0,
    }
}

impl Target {
    /// The detector variant of this target.
    pub open spec fn platform_spec(&self) -> Platform {
        select_platform(self.arch, self.os)
    }

    /// The bits of the features that the declared flags guarantee, before
    /// forced dynamic detection is taken into account.
    pub open spec fn static_detected_spec(&self) -> u32 {
        match self.arch {
            Arch::Aarch64 => bit_if(self.neon, NEON_MASK) | bit_if(self.aes, AES_MASK) | bit_if(
                self.sha2,
                SHA256_MASK,
            ) | bit_if(self.aes, PMULL_MASK) | bit_if(self.sha3, SHA512_MASK),
            Arch::Arm => bit_if(self.neon, NEON_MASK),
        }
    }

    /// The bits that are verified at run time even if the target declares
    /// them.
    pub open spec fn force_dynamic_spec(&self) -> u32 {
        force_dynamic_of(self.platform_spec())
    }

    /// The static mask: what the target guarantees, less what is forced to
    /// dynamic detection.
    pub open spec fn static_mask_spec(&self) -> u32 {
        self.static_detected_spec() & !self.force_dynamic_spec()
    }

    /// The bits that the test overrides remove from what was detected.
    pub open spec fn suppression_mask_spec(&self) -> u32 {
        bit_if(self.no_hw, all_features_mask(self.arch) & !NEON_MASK) | bit_if(
            self.no_neon,
            NEON_MASK,
        )
    }

    /// The first guard that the target violates, if any.
    pub open spec fn violation(&self) -> Option<GuardError> {
        if self.pointer_bytes != word_bytes(self.arch) {
            Some(GuardError::PointerWidth)
        } else if !self.little_endian {
            Some(GuardError::Endianness)
        } else if self.arch == Arch::Aarch64 && self.static_mask_spec() & NEON_MASK != NEON_MASK {
            Some(GuardError::MissingBaseline)
        } else if self.platform_spec() == Platform::Darwin && self.static_mask_spec()
            != MIN_STATIC_FEATURES {
            Some(GuardError::DarwinBaseline)
        } else {
            None
        }
    }

    /// The target passes every guard.
    pub open spec fn accepted(&self) -> bool {
        self.violation().is_none()
    }

    /// The detector variant of this target.
    #[verifier::when_used_as_spec(platform_spec)]
    pub fn platform(&self) -> (p: Platform)
        ensures
            p == self.platform_spec(),
    {
        let wide: bool = self.arch == Arch::Aarch64;
        match self.os {
            Os::Ios | Os::Macos | Os::Tvos | Os::Visionos | Os::Watchos => if wide {
                Platform::Darwin
            } else {
                Platform::Fallback
            },
            Os::Fuchsia => if wide {
                Platform::Fuchsia
            } else {
                Platform::Fallback
            },
            Os::Android | Os::Linux => Platform::Linux,
            Os::Windows => if wide {
                Platform::Windows
            } else {
                Platform::Fallback
            },
            Os::Other => Platform::Fallback,
        }
    }

    /// The bits of the features that the declared flags guarantee.
    #[verifier::when_used_as_spec(static_detected_spec)]
    pub fn static_detected(&self) -> (m: u32)
        ensures
            m == self.static_detected_spec(),
    {
        match self.arch {
            Arch::Aarch64 => pick(self.neon, NEON_MASK) | pick(self.aes, AES_MASK) | pick(
                self.sha2,
                SHA256_MASK,
            ) | pick(self.aes, PMULL_MASK) | pick(self.sha3, SHA512_MASK),
            Arch::Arm => pick(self.neon, NEON_MASK),
        }
    }

    /// The bits that are verified at run time even if the target declares
    /// them.
    #[verifier::when_used_as_spec(force_dynamic_spec)]
    pub fn force_dynamic(&self) -> (m: u32)
        ensures
            m == self.force_dynamic_spec(),
    {
        match self.platform() {
            Platform::Darwin => !MIN_STATIC_FEATURES,
            _ => 0,
        }
    }

    /// The static mask.
    #[verifier::when_used_as_spec(static_mask_spec)]
    pub fn static_mask(&self) -> (m: u32)
        ensures
            m == self.static_mask_spec(),
    {
        self.static_detected() & !self.force_dynamic()
    }

    /// The bits that the test overrides remove from what was detected.
    #[verifier::when_used_as_spec(suppression_mask_spec)]
    pub fn suppression_mask(&self) -> (m: u32)
        ensures
            m == self.suppression_mask_spec(),
    {
        let features = all_features(self.arch);
        let all: u32 = union_mask(features.as_slice());
        proof {
            lemma_union_of_all(self.arch);
        }
        pick(self.no_hw, all & !NEON_MASK) | pick(self.no_neon, NEON_MASK)
    }

    /// Holds the target to the guards, in their order: pointer width,
    /// endianness, the 64-bit baseline, the Darwin minimum.
    pub fn check(&self) -> (verdict: Result<Config, GuardError>)
        ensures
            match verdict {
                Ok(config) => self.violation().is_none() && config.target() == *self,
                Err(e) => self.violation() == Some(e),
            },
    {
        if self.pointer_bytes != match self.arch {
            Arch::Aarch64 => 8usize,
            Arch::Arm => 4usize,
        } {
            return Err(GuardError::PointerWidth);
        }
        if !self.little_endian {
            return Err(GuardError::Endianness);
        }
        let fixed: u32 = self.static_mask();
        if self.arch == Arch::Aarch64 && fixed & NEON_MASK != NEON_MASK {
            return Err(GuardError::MissingBaseline);
        }
        if self.platform() == Platform::Darwin && fixed != MIN_STATIC_FEATURES {
            return Err(GuardError::DarwinBaseline);
        }
        Ok(Config { target: *self })
    }
}

/// `bit` where `on` holds, nothing otherwise.
fn pick(on: bool, bit: u32) -> (m: u32)
    ensures
        m == bit_if(on, bit),
{
    if on {
        bit
    } else {
        0
    }
}

/// A target that has passed every guard.
#[derive(Clone, Copy, Debug)]
pub struct Config {
    target: Target,
}

impl Config {
    #[verifier::type_invariant]
    spec fn wf(self) -> bool {
        self.target.accepted()
    }

    /// The target that was accepted.
    pub closed spec fn target(self) -> Target {
        self.target
    }

    /// The target that was accepted.
    pub fn description(&self) -> (t: Target)
        ensures
            t == self.target(),
            t.accepted(),
    {
        proof {
            use_type_invariant(self);
        }
        self.target
    }
}

/// On the 64-bit architecture a feature is among the statically detected
/// ones exactly if the target declares the flag that brings it: AES and
/// carryless multiply come with one flag.
pub proof fn lemma_static_detected_bits(target: Target)
    requires
        target.arch == Arch::Aarch64,
    ensures
        contained(NEON_MASK, target.static_detected_spec()) <==> target.neon,
        contained(AES_MASK, target.static_detected_spec()) <==> target.aes,
        contained(SHA256_MASK, target.static_detected_spec()) <==> target.sha2,
        contained(PMULL_MASK, target.static_detected_spec()) <==> target.aes,
        contained(SHA512_MASK, target.static_detected_spec()) <==> target.sha3,
{
    let n: u32 = bit_if(target.neon, NEON_MASK);
    let a: u32 = bit_if(target.aes, AES_MASK);
    let s: u32 = bit_if(target.sha2, SHA256_MASK);
    let p: u32 = bit_if(target.aes, PMULL_MASK);
    let h: u32 = bit_if(target.sha3, SHA512_MASK);
    assert({
        &&& (0x01u32 & (n | a | s | p | h) == 0x01u32) == (n == 0x01u32)
        &&& (0x04u32 & (n | a | s | p | h) == 0x04u32) == (a == 0x04u32)
        &&& (0x10u32 & (n | a | s | p | h) == 0x10u32) == (s == 0x10u32)
        &&& (0x20u32 & (n | a | s | p | h) == 0x20u32) == (p == 0x20u32)
        &&& (0x40u32 & (n | a | s | p | h) == 0x40u32) == (h == 0x40u32)
    }) by (bit_vector)
        requires
            n == 0 || n == 0x01u32,
            a == 0 || a == 0x04u32,
            s == 0 || s == 0x10u32,
            p == 0 || p == 0x20u32,
            h == 0 || h == 0x40u32,
    ;
}

/// The static mask and the forced-dynamic mask of a target never share a
/// bit, whatever the target declares.
pub proof fn lemma_static_excludes_forced(target: Target)
    ensures
        target.static_mask_spec() & target.force_dynamic_spec() == 0,
{
    let detected: u32 = target.static_detected_spec();
    let forced: u32 = target.force_dynamic_spec();
    assert((detected & !forced) & forced == 0) by (bit_vector);
}

/// The static mask holds nothing but bits of features that exist on the
/// target's architecture.
pub proof fn lemma_static_within_features(target: Target)
    ensures
        contained(target.static_mask_spec(), all_features_mask(target.arch)),
{
    let forced: u32 = target.force_dynamic_spec();
    let n: u32 = bit_if(target.neon, NEON_MASK);
    let a: u32 = bit_if(target.aes, AES_MASK);
    let s: u32 = bit_if(target.sha2, SHA256_MASK);
    let p: u32 = bit_if(target.aes, PMULL_MASK);
    let h: u32 = bit_if(target.sha3, SHA512_MASK);
    assert(((n | a | s | p | h) & !forced) & (0x01u32 | 0x04u32 | 0x10u32 | 0x20u32 | 0x40u32) == (
    n | a | s | p | h) & !forced) by (bit_vector)
        requires
            n == 0 || n == 0x01u32,
            a == 0 || a == 0x04u32,
            s == 0 || s == 0x10u32,
            p == 0 || p == 0x20u32,
            h == 0 || h == 0x40u32,
    ;
    assert((n & !forced) & 0x01u32 == n & !forced) by (bit_vector)
        requires
            n == 0 || n == 0x01u32,
    ;
}

/// On the 64-bit architecture the vector unit is in the static mask of
/// every accepted target.
pub proof fn lemma_baseline_is_static(target: Target)
    requires
        target.accepted(),
        target.arch == Arch::Aarch64,
    ensures
        contained(NEON_MASK, target.static_mask_spec()),
{
    let fixed: u32 = target.static_mask_spec();
    assert(0x01u32 & fixed == 0x01u32) by (bit_vector)
        requires
            fixed & 0x01u32 == 0x01u32,
    ;
}

/// An accepted Darwin target has exactly the Darwin minimum as its static
/// mask: the SHA-512 bit is left to dynamic detection even where the target
/// declares it.
pub proof fn lemma_darwin_static_is_minimum(target: Target)
    requires
        target.accepted(),
        target.platform_spec() == Platform::Darwin,
    ensures
        target.static_mask_spec() == MIN_STATIC_FEATURES,
        target.static_mask_spec() & SHA512_MASK == 0,
        target.neon && target.aes && target.sha2,
{
    let fixed: u32 = target.static_mask_spec();
    assert(MIN_STATIC_FEATURES == 0x35u32) by (bit_vector);
    assert(0x35u32 & 0x40u32 == 0) by (bit_vector);
    let n: u32 = bit_if(target.neon, NEON_MASK);
    let a: u32 = bit_if(target.aes, AES_MASK);
    let s: u32 = bit_if(target.sha2, SHA256_MASK);
    let p: u32 = bit_if(target.aes, PMULL_MASK);
    let h: u32 = bit_if(target.sha3, SHA512_MASK);
    assert(n == 0x01u32 && a == 0x04u32 && s == 0x10u32) by (bit_vector)
        requires
            (n | a | s | p | h) & !!0x35u32 == 0x35u32,
            n == 0 || n == 0x01u32,
            a == 0 || a == 0x04u32,
            s == 0 || s == 0x10u32,
            p == 0 || p == 0x20u32,
            h == 0 || h == 0x40u32,
    ;
}

/// A Darwin target is accepted exactly if it has the assumed pointer width,
/// is little-endian and declares the vector unit, AES and SHA-256.
pub proof fn lemma_darwin_accepted_iff(target: Target)
    requires
        target.platform_spec() == Platform::Darwin,
    ensures
        target.accepted() <==> target.pointer_bytes == 8 && target.little_endian && target.neon
            && target.aes && target.sha2,
{
    assert(MIN_STATIC_FEATURES == 0x35u32) by (bit_vector);
    let n: u32 = bit_if(target.neon, NEON_MASK);
    let a: u32 = bit_if(target.aes, AES_MASK);
    let s: u32 = bit_if(target.sha2, SHA256_MASK);
    let p: u32 = bit_if(target.aes, PMULL_MASK);
    let h: u32 = bit_if(target.sha3, SHA512_MASK);
    let fixed: u32 = target.static_mask_spec();
    assert(fixed == 0x35u32 <==> (n == 0x01u32 && a == 0x04u32 && s == 0x10u32)) by (bit_vector)
        requires
            fixed == (n | a | s | p | h) & !!0x35u32,
            n == 0 || n == 0x01u32,
            a == 0 || a == 0x04u32,
            s == 0 || s == 0x10u32,
            p == 0 || p == 0x20u32,
            h == 0 || h == 0x40u32,
            (a == 0x04u32) == (p == 0x20u32),
    ;
    assert(0x35u32 & 0x01u32 == 0x01u32) by (bit_vector);
}

} // verus!
