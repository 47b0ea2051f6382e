use uvm_jni::variant::{requested_variants, variants_of_codes, InstallVariant, Variant, VariantSet};

#[test]
fn known_codes_select_their_variant() {
    assert_eq!(Variant::from(0).value(), InstallVariant::Android);
    assert_eq!(Variant::from(1).value(), InstallVariant::Ios);
    assert_eq!(Variant::from(3).value(), InstallVariant::WebGl);
    assert_eq!(Variant::from(4).value(), InstallVariant::Linux);
    assert_eq!(Variant::from(5).value(), InstallVariant::Windows);
    assert_eq!(Variant::from(6).value(), InstallVariant::WindowsMono);
}

#[test]
fn other_codes_select_android() {
    for code in [2, 7, 12, -1, i32::MIN, i32::MAX] {
        assert_eq!(Variant::from(code).value(), InstallVariant::Android);
    }
}

#[test]
fn into_converts_like_from() {
    let v: Variant = 5.into();
    assert_eq!(v, Variant(InstallVariant::Windows));
}

#[test]
fn empty_set() {
    let s = VariantSet::new();
    assert_eq!(s.len(), 0);
    assert!(!s.contains(InstallVariant::Linux));
    assert!(s.to_vec().is_empty());
}

#[test]
fn insert_reports_new_variants_only() {
    let mut s = VariantSet::new();
    assert!(s.insert(InstallVariant::Ios));
    assert!(s.insert(InstallVariant::WebGl));
    assert!(!s.insert(InstallVariant::Ios));
    assert_eq!(s.len(), 2);
    assert!(s.contains(InstallVariant::Ios));
    assert!(s.contains(InstallVariant::WebGl));
    assert!(!s.contains(InstallVariant::Windows));
    let items = s.to_vec();
    assert_eq!(items.len(), 2);
    assert!(items.contains(&InstallVariant::Ios));
    assert!(items.contains(&InstallVariant::WebGl));
}

#[test]
fn codes_collapse_to_distinct_variants() {
    let s = variants_of_codes(&vec![1, 2, 0, 1, 6, 9]);
    assert_eq!(s.len(), 3);
    assert!(s.contains(InstallVariant::Ios));
    assert!(s.contains(InstallVariant::Android));
    assert!(s.contains(InstallVariant::WindowsMono));
    assert!(!s.contains(InstallVariant::WebGl));
    assert_eq!(s.to_vec().len(), 3);
}

#[test]
fn no_codes_give_empty_set() {
    let s = variants_of_codes(&Vec::new());
    assert_eq!(s.len(), 0);
}

#[test]
fn no_component_array_requests_nothing() {
    assert!(requested_variants(None).is_none());
}

#[test]
fn component_array_requests_its_variants() {
    let s = requested_variants(Some(vec![4, 5, 4])).unwrap();
    assert_eq!(s.len(), 2);
    assert!(s.contains(InstallVariant::Linux));
    assert!(s.contains(InstallVariant::Windows));
    assert!(!s.contains(InstallVariant::Android));
}

#[test]
fn empty_component_array_requests_empty_set() {
    let s = requested_variants(Some(Vec::new())).unwrap();
    assert_eq!(s.len(), 0);
}
