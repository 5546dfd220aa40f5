use armcap::darwin::MIN_STATIC_FEATURES;
use armcap::feature::{
    aes, all_features, neon, pmull, sha256, sha512, union_mask, Feature, AES_MASK, NEON_MASK,
    PMULL_MASK, SHA256_MASK, SHA512_MASK,
};
use armcap::target::{Arch, GuardError, Os, Platform, Target};

fn base(arch: Arch, os: Os) -> Target {
    Target {
        arch,
        os,
        pointer_bytes: match arch {
            Arch::Aarch64 => 8,
            Arch::Arm => 4,
        },
        little_endian: true,
        neon: true,
        aes: false,
        sha2: false,
        sha3: false,
        no_hw: false,
        no_neon: false,
    }
}

#[test]
fn mask_constants_match_the_features() {
    assert_eq!(NEON_MASK, 1 << 0);
    assert_eq!(AES_MASK, 1 << 2);
    assert_eq!(SHA256_MASK, 1 << 4);
    assert_eq!(PMULL_MASK, 1 << 5);
    assert_eq!(SHA512_MASK, 1 << 6);
    assert_eq!(neon().mask, NEON_MASK);
    assert_eq!(aes().mask, AES_MASK);
    assert_eq!(sha256().mask, SHA256_MASK);
    assert_eq!(pmull().mask, PMULL_MASK);
    assert_eq!(sha512().mask, SHA512_MASK);
}

#[test]
fn features_have_their_names() {
    assert_eq!(neon().name, "neon");
    assert_eq!(aes().name, "aes");
    assert_eq!(sha256().name, "sha256");
    assert_eq!(pmull().name, "pmull");
    assert_eq!(sha512().name, "sha512");
}

#[test]
fn all_features_per_architecture() {
    let wide: Vec<u32> = all_features(Arch::Aarch64).iter().map(|f: &Feature| f.mask).collect();
    assert_eq!(wide, vec![1, 4, 16, 32, 64]);
    let narrow: Vec<u32> = all_features(Arch::Arm).iter().map(|f: &Feature| f.mask).collect();
    assert_eq!(narrow, vec![1]);
}

#[test]
fn union_mask_is_the_or_of_all_masks() {
    assert_eq!(union_mask(&all_features(Arch::Aarch64)), 0x75);
    assert_eq!(union_mask(&all_features(Arch::Arm)), 0x01);
    assert_eq!(union_mask(&[]), 0);
    let pair = [Feature { name: "a", mask: 0x0a }, Feature { name: "b", mask: 0x0c }];
    assert_eq!(union_mask(&pair), 0x0e);
}

#[test]
fn platform_follows_architecture_and_system() {
    for os in [Os::Ios, Os::Macos, Os::Tvos, Os::Visionos, Os::Watchos] {
        assert_eq!(base(Arch::Aarch64, os).platform(), Platform::Darwin);
        assert_eq!(base(Arch::Arm, os).platform(), Platform::Fallback);
    }
    assert_eq!(base(Arch::Aarch64, Os::Fuchsia).platform(), Platform::Fuchsia);
    assert_eq!(base(Arch::Arm, Os::Fuchsia).platform(), Platform::Fallback);
    assert_eq!(base(Arch::Aarch64, Os::Linux).platform(), Platform::Linux);
    assert_eq!(base(Arch::Arm, Os::Linux).platform(), Platform::Linux);
    assert_eq!(base(Arch::Aarch64, Os::Android).platform(), Platform::Linux);
    assert_eq!(base(Arch::Arm, Os::Android).platform(), Platform::Linux);
    assert_eq!(base(Arch::Aarch64, Os::Windows).platform(), Platform::Windows);
    assert_eq!(base(Arch::Arm, Os::Windows).platform(), Platform::Fallback);
    assert_eq!(base(Arch::Aarch64, Os::Other).platform(), Platform::Fallback);
    assert_eq!(base(Arch::Arm, Os::Other).platform(), Platform::Fallback);
}

#[test]
fn static_detected_takes_each_declared_flag() {
    let mut t = base(Arch::Aarch64, Os::Linux);
    assert_eq!(t.static_detected(), 0x01);
    t.aes = true;
    assert_eq!(t.static_detected(), 0x01 | 0x04 | 0x20);
    t.sha2 = true;
    assert_eq!(t.static_detected(), 0x01 | 0x04 | 0x10 | 0x20);
    t.sha3 = true;
    assert_eq!(t.static_detected(), 0x75);
    t.neon = false;
    assert_eq!(t.static_detected(), 0x74);
    t.aes = false;
    t.sha2 = false;
    assert_eq!(t.static_detected(), 0x40);
}

#[test]
fn static_detected_on_32_bit_is_the_vector_unit_alone() {
    let mut t = base(Arch::Arm, Os::Linux);
    t.aes = true;
    t.sha2 = true;
    t.sha3 = true;
    assert_eq!(t.static_detected(), 0x01);
    t.neon = false;
    assert_eq!(t.static_detected(), 0);
}

#[test]
fn darwin_forces_everything_beyond_its_minimum() {
    assert_eq!(MIN_STATIC_FEATURES, 0x35);
    assert_eq!(armcap::darwin::FORCE_DYNAMIC_DETECTION, !0x35u32);
    let mut t = base(Arch::Aarch64, Os::Macos);
    t.aes = true;
    t.sha2 = true;
    t.sha3 = true;
    assert_eq!(t.force_dynamic(), !0x35u32);
    assert_eq!(t.static_detected(), 0x75);
    assert_eq!(t.static_mask(), 0x35);
    assert_eq!(t.static_mask() & t.force_dynamic(), 0);
}

#[test]
fn other_platforms_force_nothing() {
    for os in [Os::Fuchsia, Os::Linux, Os::Android, Os::Windows, Os::Other] {
        let mut t = base(Arch::Aarch64, os);
        t.aes = true;
        t.sha2 = true;
        t.sha3 = true;
        assert_eq!(t.force_dynamic(), 0);
        assert_eq!(t.static_mask(), 0x75);
    }
    assert_eq!(armcap::linux::FORCE_DYNAMIC_DETECTION, 0);
    assert_eq!(armcap::fallback::FORCE_DYNAMIC_DETECTION, 0);
}

#[test]
fn static_and_forced_masks_never_overlap() {
    let systems = [Os::Macos, Os::Ios, Os::Linux, Os::Windows, Os::Fuchsia, Os::Other];
    for arch in [Arch::Aarch64, Arch::Arm] {
        for os in systems {
            for flags in 0u32..16 {
                let mut t = base(arch, os);
                t.neon = flags & 1 != 0;
                t.aes = flags & 2 != 0;
                t.sha2 = flags & 4 != 0;
                t.sha3 = flags & 8 != 0;
                assert_eq!(t.static_mask() & t.force_dynamic(), 0);
                assert_eq!(t.static_mask(), t.static_detected() & !t.force_dynamic());
            }
        }
    }
}

#[test]
fn suppression_masks() {
    let mut t = base(Arch::Aarch64, Os::Linux);
    assert_eq!(t.suppression_mask(), 0);
    t.no_hw = true;
    assert_eq!(t.suppression_mask(), 0x74);
    t.no_neon = true;
    assert_eq!(t.suppression_mask(), 0x75);
    t.no_hw = false;
    assert_eq!(t.suppression_mask(), 0x01);

    let mut n = base(Arch::Arm, Os::Linux);
    n.no_hw = true;
    assert_eq!(n.suppression_mask(), 0);
    n.no_neon = true;
    assert_eq!(n.suppression_mask(), 0x01);
}

#[test]
fn accepted_target_keeps_its_description() {
    let t = base(Arch::Aarch64, Os::Linux);
    let config = t.check().unwrap();
    let back = config.description();
    assert_eq!(back.arch, Arch::Aarch64);
    assert_eq!(back.os, Os::Linux);
    assert_eq!(back.pointer_bytes, 8);
    assert!(back.little_endian && back.neon && !back.aes && !back.sha2 && !back.sha3);
    assert!(!back.no_hw && !back.no_neon);
}

#[test]
fn wrong_pointer_width_is_refused() {
    let mut t = base(Arch::Aarch64, Os::Linux);
    t.pointer_bytes = 4;
    assert_eq!(t.check().err(), Some(GuardError::PointerWidth));
    let mut n = base(Arch::Arm, Os::Linux);
    n.pointer_bytes = 8;
    assert_eq!(n.check().err(), Some(GuardError::PointerWidth));
}

#[test]
fn big_endian_is_refused() {
    let mut t = base(Arch::Aarch64, Os::Linux);
    t.little_endian = false;
    assert_eq!(t.check().err(), Some(GuardError::Endianness));
    let mut n = base(Arch::Arm, Os::Other);
    n.little_endian = false;
    assert_eq!(n.check().err(), Some(GuardError::Endianness));
}

#[test]
fn missing_baseline_is_refused_on_64_bit_only() {
    let mut t = base(Arch::Aarch64, Os::Linux);
    t.neon = false;
    assert_eq!(t.check().err(), Some(GuardError::MissingBaseline));
    let mut n = base(Arch::Arm, Os::Linux);
    n.neon = false;
    assert!(n.check().is_ok());
}

#[test]
fn darwin_below_its_minimum_is_refused() {
    let mut t = base(Arch::Aarch64, Os::Macos);
    assert_eq!(t.check().err(), Some(GuardError::DarwinBaseline));
    t.aes = true;
    assert_eq!(t.check().err(), Some(GuardError::DarwinBaseline));
    t.sha2 = true;
    assert!(t.check().is_ok());
    t.sha3 = true;
    assert!(t.check().is_ok());
    assert_eq!(t.check().unwrap().description().static_mask(), 0x35);
}

#[test]
fn guards_are_held_in_order() {
    let mut t = base(Arch::Aarch64, Os::Macos);
    t.neon = false;
    assert_eq!(t.check().err(), Some(GuardError::MissingBaseline));
    t.little_endian = false;
    assert_eq!(t.check().err(), Some(GuardError::Endianness));
    t.pointer_bytes = 4;
    assert_eq!(t.check().err(), Some(GuardError::PointerWidth));
}

#[test]
fn vector_unit_is_static_on_every_accepted_64_bit_target() {
    for os in [Os::Macos, Os::Linux, Os::Windows, Os::Fuchsia, Os::Other] {
        for flags in 0u32..16 {
            let mut t = base(Arch::Aarch64, os);
            t.neon = flags & 1 != 0;
            t.aes = flags & 2 != 0;
            t.sha2 = flags & 4 != 0;
            t.sha3 = flags & 8 != 0;
            if let Ok(config) = t.check() {
                assert_eq!(config.description().static_mask() & NEON_MASK, NEON_MASK);
            }
        }
    }
}
