use module_graph::npm::id::NPMPackageId;

#[test]
fn test_npm_package_id() {
    let id = NPMPackageId::from_string("npm@1.0.0").unwrap();
    assert_eq!(id.name, "npm");
    assert_eq!(id.version, "1.0.0");
    assert_eq!(id.to_string(), "npm@1.0.0");
}

#[test]
fn scoped_name_keeps_its_leading_at() {
    let id = NPMPackageId::from_string("@preact/signals@1.2.3").unwrap();
    assert_eq!(id.name, "@preact/signals");
    assert_eq!(id.version, "1.2.3");
    assert_eq!(id.to_string(), "@preact/signals@1.2.3");
}

#[test]
fn name_without_version_is_no_identifier() {
    assert!(NPMPackageId::from_string("react").is_none());
    assert!(NPMPackageId::from_string("@react").is_none());
}

#[test]
fn version_may_hold_further_ats() {
    let id = NPMPackageId::from_string("a@1@2").unwrap();
    assert_eq!(id.name, "a");
    assert_eq!(id.version, "1@2");
}

#[test]
fn clone_keeps_both_parts() {
    let id = NPMPackageId { name: "a".to_string(), version: "1".to_string() };
    let copy = id.clone();
    assert_eq!(copy.name, "a");
    assert_eq!(copy.version, "1");
}

#[test]
fn try_from_str_refuses_what_cannot_be_split() {
    assert_eq!(NPMPackageId::try_from_str("a@1").unwrap().to_string(), "a@1");
    assert!(NPMPackageId::try_from_str("").is_err());
    assert!(NPMPackageId::try_from_str("\u{e9}@1").is_err());
    assert!(NPMPackageId::try_from_str("react").is_err());
    assert!(NPMPackageId::is_splittable("@a/b@1"));
    assert!(!NPMPackageId::is_splittable(""));
}
