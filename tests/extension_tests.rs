use metadata_hash_ext::{
    custom, CheckMetadataHash, CheckMetadataHashMode, CheckMetadataHashParams, ConstructionError,
    DeclaredExtension, ExtensionChain, ExtensionParams,
};

fn registry() -> scale_info::PortableRegistry {
    scale_info::PortableRegistry::from(scale_info::Registry::new())
}

fn instance(mode: CheckMetadataHashMode, digest: Option<[u8; 32]>) -> CheckMetadataHash {
    CheckMetadataHash { mode, metadata_digest: digest }
}

fn encoded(name: &str, extra: Vec<u8>, additional: Vec<u8>) -> ExtensionParams {
    ExtensionParams::Encoded { name: name.to_string(), extra, additional }
}

fn declared(names: &[&str]) -> Vec<DeclaredExtension> {
    names
        .iter()
        .enumerate()
        .map(|(i, n)| DeclaredExtension { identifier: n.to_string(), extra_ty: i as u32 })
        .collect()
}

/// Two units ahead of the metadata check and one behind it, with fixed bytes.
fn default_params() -> Vec<ExtensionParams> {
    vec![
        encoded("CheckSpecVersion", vec![], vec![0x2a, 0, 0, 0]),
        encoded("CheckNonce", vec![0x04], vec![]),
        ExtensionParams::MetadataCheck(CheckMetadataHashParams::default()),
        encoded("ChargeTransactionPayment", vec![0x00], vec![]),
    ]
}

fn default_names() -> Vec<DeclaredExtension> {
    declared(&["CheckSpecVersion", "CheckNonce", "CheckMetadataHash", "ChargeTransactionPayment"])
}

#[test]
fn is_enabled_by_mode() {
    assert!(!CheckMetadataHashMode::Disabled.is_enabled());
    assert!(CheckMetadataHashMode::Enabled.is_enabled());
}

#[test]
fn disabled_instance_encodes_one_zero_byte() {
    let h = instance(CheckMetadataHashMode::Disabled, None);
    assert_eq!(h.encode_extra(), vec![0x00]);
    assert_eq!(h.encode_additional(), vec![0x00]);
}

#[test]
fn enabled_instance_appends_digest_to_additional() {
    let mut d = [0u8; 32];
    for (i, b) in d.iter_mut().enumerate() {
        *b = i as u8 + 1;
    }
    let h = instance(CheckMetadataHashMode::Enabled, Some(d));
    assert_eq!(h.encode_extra(), vec![0x01]);
    let mut expected = vec![0x01];
    expected.extend_from_slice(&d);
    assert_eq!(h.encode_additional(), expected);
}

#[test]
fn enabled_with_repeated_ab_digest() {
    let params = CheckMetadataHashParams::enabled([0xAB; 32]);
    let h = CheckMetadataHash::new(params).unwrap();
    let mut expected = vec![0x01];
    expected.extend_from_slice(&[0xAB; 32]);
    assert_eq!(h.encode_additional(), expected);
    assert_eq!(h.encode_additional().len(), 33);
    assert_eq!(h.encode_extra(), vec![0x01]);
}

#[test]
fn encoders_append_after_existing_bytes() {
    let h = instance(CheckMetadataHashMode::Enabled, Some([7; 32]));
    let mut v = vec![9, 9];
    h.encode_extra_to(&mut v);
    assert_eq!(v, vec![9, 9, 1]);
    let mut w = vec![5];
    h.encode_additional_to(&mut w);
    assert_eq!(w.len(), 34);
    assert_eq!(&w[..2], &[5, 1]);
    assert!(w[2..].iter().all(|b| *b == 7));
}

#[test]
fn new_copies_parameters() {
    let h = CheckMetadataHash::new(CheckMetadataHashParams::default()).unwrap();
    assert_eq!(h.mode, CheckMetadataHashMode::Disabled);
    assert_eq!(h.metadata_digest, None);
    let h = CheckMetadataHash::new(CheckMetadataHashParams::enabled([3; 32])).unwrap();
    assert_eq!(h.mode, CheckMetadataHashMode::Enabled);
    assert_eq!(h.metadata_digest, Some([3; 32]));
}

#[test]
fn identifies_only_its_own_name() {
    let reg = registry();
    assert!(CheckMetadataHash::matches("CheckMetadataHash", 0, &reg));
    assert!(CheckMetadataHash::matches("CheckMetadataHash", 77, &reg));
    assert!(!CheckMetadataHash::matches("AnyOtherName", 0, &reg));
    assert!(!CheckMetadataHash::matches("checkMetadataHash", 0, &reg));
    assert!(!CheckMetadataHash::matches("CheckMetadataHas", 0, &reg));
    assert!(!CheckMetadataHash::matches("CheckMetadataHashX", 0, &reg));
    assert!(!CheckMetadataHash::matches("", 0, &reg));
}

#[test]
fn mode_decodes_from_extra() {
    for mode in [CheckMetadataHashMode::Disabled, CheckMetadataHashMode::Enabled] {
        let h = instance(mode, if mode.is_enabled() { Some([1; 32]) } else { None });
        assert_eq!(CheckMetadataHashMode::decode(&h.encode_extra()), Some(mode));
    }
    assert_eq!(CheckMetadataHashMode::decode(&[]), None);
    assert_eq!(CheckMetadataHashMode::decode(&[2]), None);
    assert_eq!(CheckMetadataHashMode::from_byte(0), Some(CheckMetadataHashMode::Disabled));
    assert_eq!(CheckMetadataHashMode::from_byte(1), Some(CheckMetadataHashMode::Enabled));
    assert_eq!(CheckMetadataHashMode::from_byte(0xff), None);
}

#[test]
fn default_chain_disables_metadata_check() {
    let chain = ExtensionChain::new(&default_names(), &registry(), default_params()).unwrap();
    assert_eq!(chain.encode_extra_all(), vec![0x04, 0x00, 0x00]);
    assert_eq!(chain.encode_additional_all(), vec![0x2a, 0, 0, 0, 0x00]);
}

#[test]
fn extra_all_length_is_sum_of_units() {
    let chain = ExtensionChain::new(&default_names(), &registry(), custom(default_params(), [0x11; 32]))
        .unwrap();
    // 0 + 1 + 1 + 1 bytes of extra data.
    assert_eq!(chain.encode_extra_all().len(), 3);
    assert_eq!(chain.encode_extra_all(), vec![0x04, 0x01, 0x00]);
    let additional = chain.encode_additional_all();
    assert_eq!(additional.len(), 4 + 33);
    assert_eq!(&additional[..5], &[0x2a, 0, 0, 0, 0x01]);
    assert!(additional[5..].iter().all(|b| *b == 0x11));
}

#[test]
fn override_changes_only_the_digest() {
    let d1 = [0x01; 32];
    let d2 = [0xfe; 32];
    let c1 = ExtensionChain::new(&default_names(), &registry(), custom(default_params(), d1)).unwrap();
    let c2 = ExtensionChain::new(&default_names(), &registry(), custom(default_params(), d2)).unwrap();
    assert_eq!(c1.encode_extra_all(), c2.encode_extra_all());
    let a1 = c1.encode_additional_all();
    let a2 = c2.encode_additional_all();
    assert_eq!(a1.len(), a2.len());
    let cut = a1.len() - 32;
    assert_eq!(&a1[..cut], &a2[..cut]);
    assert_eq!(&a1[cut..], &d1[..]);
    assert_eq!(&a2[cut..], &d2[..]);
}

#[test]
fn custom_leaves_other_positions() {
    let out = custom(default_params(), [0x22; 32]);
    assert_eq!(out.len(), 4);
    match &out[1] {
        ExtensionParams::Encoded { name, extra, additional } => {
            assert_eq!(name, "CheckNonce");
            assert_eq!(extra, &vec![0x04]);
            assert!(additional.is_empty());
        }
        _ => panic!("position 1 changed kind"),
    }
    match &out[2] {
        ExtensionParams::MetadataCheck(p) => {
            assert_eq!(p.mode, CheckMetadataHashMode::Enabled);
            assert_eq!(p.metadata_digest, Some([0x22; 32]));
        }
        _ => panic!("position 2 changed kind"),
    }
}

#[test]
fn chain_without_metadata_check_name_fails() {
    let names = declared(&["CheckSpecVersion", "CheckNonce", "ChargeTransactionPayment"]);
    let r = ExtensionChain::new(&names, &registry(), default_params());
    assert_eq!(r.err(), Some(ConstructionError::UnrecognizedExtension { index: 2 }));
}

#[test]
fn chain_with_fewer_names_fails_as_missing() {
    let names = declared(&["CheckSpecVersion", "CheckNonce", "CheckMetadataHash"]);
    let r = ExtensionChain::new(&names, &registry(), default_params());
    assert_eq!(r.err(), Some(ConstructionError::MissingExtension { index: 3 }));
}

#[test]
fn chain_with_extra_unknown_name_fails() {
    let names = declared(&[
        "CheckSpecVersion",
        "CheckNonce",
        "CheckMetadataHash",
        "ChargeTransactionPayment",
        "SomethingNew",
    ]);
    let r = ExtensionChain::new(&names, &registry(), default_params());
    assert_eq!(r.err(), Some(ConstructionError::UnrecognizedExtension { index: 4 }));
}

#[test]
fn empty_chain_encodes_nothing() {
    let chain = ExtensionChain::new(&vec![], &registry(), vec![]).unwrap();
    assert!(chain.encode_extra_all().is_empty());
    assert!(chain.encode_additional_all().is_empty());
}
