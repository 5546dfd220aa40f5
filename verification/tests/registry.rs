use armcap::feature::{aes, all_features, neon, pmull, sha256, sha512, Feature};
use armcap::featureflags::{get, get_or_init, CapabilityCell};
use armcap::target::{Arch, Config, Os, Target};

fn host() -> Config {
    Target {
        arch: Arch::Aarch64,
        os: Os::Linux,
        pointer_bytes: 8,
        little_endian: true,
        neon: true,
        aes: true,
        sha2: false,
        sha3: false,
        no_hw: false,
        no_neon: false,
    }
    .check()
    .unwrap()
}

#[test]
fn test_mask_abi() {
    assert_eq!(neon().mask, 1);
}

#[test]
fn test_mask_abi_hw() {
    assert_eq!(aes().mask, 4);
    assert_eq!(sha256().mask, 16);
    assert_eq!(pmull().mask, 32);
    assert_eq!(sha512().mask, 64);
}

#[test]
fn test_armcap_static_is_subset_of_armcap_dynamic() {
    let config = host();
    let armcap_static = config.description().static_mask();
    let cell = CapabilityCell::new(config);
    let cpu = get_or_init(&cell, || sha256().mask);
    let armcap_dynamic = get(cpu);
    assert_eq!(armcap_dynamic & armcap_static, armcap_static);

    all_features(Arch::Aarch64).iter().for_each(|feature: &Feature| {
        if (armcap_static & feature.mask) != 0 {
            assert!(feature.available(cpu));
        }
    })
}
