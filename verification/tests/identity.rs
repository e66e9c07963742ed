use keylime_agent::identity::{get_uuid, identity_of, uuid_is_misformatted, Identity};
use uuid::Uuid;

#[test]
fn test_get_uuid() {
    assert_eq!(get_uuid("hash_ek"), "hash_ek");
    let _ = Uuid::parse_str(&get_uuid("generate")).unwrap();
    assert_eq!(
        get_uuid("D432FBB3-D2F1-4A97-9EF7-75BD81C00000"),
        "d432fbb3-d2f1-4a97-9ef7-75bd81c00000"
    );
    assert_ne!(
        get_uuid("D432FBB3-D2F1-4A97-9EF7-75BD81C0000X"),
        "d432fbb3-d2f1-4a97-9ef7-75bd81c0000X"
    );
    let _ = Uuid::parse_str(&get_uuid(
        "D432FBB3-D2F1-4A97-9EF7-75BD81C0000X",
    ))
    .unwrap();
}

fn is_canonical(text: &str) -> bool {
    text.len() == 36
        && text.chars().enumerate().all(|(i, c)| {
            if i == 8 || i == 13 || i == 18 || i == 23 {
                c == '-'
            } else {
                c.is_ascii_digit() || ('a'..='f').contains(&c)
            }
        })
}

#[test]
fn a_fresh_identity_is_a_random_uuid_in_the_canonical_form() {
    for configured in ["generate", "not-a-uuid", "", "Generate", "HASH_EK"] {
        let first = get_uuid(configured);
        let second = get_uuid(configured);
        assert!(is_canonical(&first));
        assert_ne!(first, configured);
        assert_ne!(first, second);
        let parsed = Uuid::parse_str(&first).unwrap();
        assert_eq!(parsed.get_version_num(), 4);
        assert_eq!(&first[14..15], "4");
        assert!(["8", "9", "a", "b"].contains(&&first[19..20]));
    }
}

#[test]
fn a_written_uuid_is_kept_in_lower_case() {
    assert_eq!(
        get_uuid("d432fbb3-d2f1-4a97-9ef7-75bd81c00000"),
        "d432fbb3-d2f1-4a97-9ef7-75bd81c00000"
    );
    assert_eq!(
        get_uuid("0123ABCD-89ef-4567-89AB-CDEFabcdef01"),
        "0123abcd-89ef-4567-89ab-cdefabcdef01"
    );
    assert_eq!(
        get_uuid("D432FBB3D2F14A979EF775BD81C00000"),
        "d432fbb3-d2f1-4a97-9ef7-75bd81c00000"
    );
    assert_eq!(
        get_uuid("{D432FBB3-D2F1-4A97-9EF7-75BD81C00000}"),
        "d432fbb3-d2f1-4a97-9ef7-75bd81c00000"
    );
    assert_eq!(
        get_uuid("urn:uuid:D432FBB3-D2F1-4A97-9EF7-75BD81C00000"),
        "d432fbb3-d2f1-4a97-9ef7-75bd81c00000"
    );
    let once = get_uuid("FFFFFFFF-FFFF-FFFF-FFFF-FFFFFFFFFFFF");
    assert_eq!(once, "ffffffff-ffff-ffff-ffff-ffffffffffff");
    assert_eq!(get_uuid(&once), once);
    assert_eq!(get_uuid("00000000-0000-0000-0000-000000000000"), "00000000-0000-0000-0000-000000000000");
}

#[test]
fn the_source_of_the_identity_is_decided() {
    let bytes = [0x12u8; 16];
    assert!(matches!(identity_of("hash_ek", None), Identity::HashEk));
    assert!(matches!(identity_of("hash_ek", Some(bytes)), Identity::HashEk));
    assert!(matches!(identity_of("generate", None), Identity::Fresh));
    assert!(matches!(identity_of("generate", Some(bytes)), Identity::Fresh));
    assert!(matches!(identity_of("anything", None), Identity::Fresh));
    assert!(matches!(identity_of("", None), Identity::Fresh));
    assert!(matches!(identity_of("anything", Some(bytes)), Identity::Given(given) if given == bytes));
}

#[test]
fn a_value_that_is_no_uuid_is_reported() {
    assert!(uuid_is_misformatted("not-a-uuid"));
    assert!(uuid_is_misformatted(""));
    assert!(uuid_is_misformatted("D432FBB3-D2F1-4A97-9EF7-75BD81C0000X"));
    assert!(uuid_is_misformatted("d432fbb3-d2f1-4a97-9ef7-75bd81c0000"));
    assert!(!uuid_is_misformatted("generate"));
    assert!(!uuid_is_misformatted("hash_ek"));
    assert!(!uuid_is_misformatted("d432fbb3-d2f1-4a97-9ef7-75bd81c00000"));
    assert!(!uuid_is_misformatted("D432FBB3D2F14A979EF775BD81C00000"));
}
