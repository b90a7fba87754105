use beatlocker::ids::{str_to_uuid, EntityId};

#[test]
fn artist_identifier_is_stable() {
    let a = str_to_uuid("Richard Bona");
    assert_eq!(a, str_to_uuid("Richard Bona"));
    assert_eq!(a.to_text(), "d094e9f8-a8e2-1737-0cfc-c4b24ab0aedf");
    assert_ne!(a, str_to_uuid("Richard Bona "));
}

#[test]
fn nil_identifier_text() {
    assert_eq!(EntityId::nil().to_text(), "00000000-0000-0000-0000-000000000000");
    assert!(EntityId::nil().is_nil());
}

#[test]
fn identifier_halves() {
    let id = EntityId::from_u64_pair(0x0123_4567_89ab_cdef, 0xfedc_ba98_7654_3210);
    assert_eq!(id.value, 0x0123_4567_89ab_cdef_fedc_ba98_7654_3210);
    assert_eq!(id.to_text(), "01234567-89ab-cdef-fedc-ba9876543210");
}
