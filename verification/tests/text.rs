use civic_ledger::account::Identity;
use civic_ledger::text::text_eq;

#[test]
fn equal_texts_are_equal() {
    assert!(text_eq("", ""));
    assert!(text_eq("update_contract", "update_contract"));
    assert!(text_eq("caf\u{e9} \u{1f600}", "caf\u{e9} \u{1f600}"));
}

#[test]
fn texts_of_different_length_differ() {
    assert!(!text_eq("", " "));
    assert!(!text_eq("update_contract", "update_contracts"));
    assert!(!text_eq("update_contracts", "update_contract"));
}

#[test]
fn texts_that_differ_in_one_place_differ() {
    assert!(!text_eq("update_contract", "update_contracT"));
    assert!(!text_eq("Update_contract", "update_contract"));
    assert!(!text_eq("caf\u{e9}", "caf\u{e8}"));
    // The same number of bytes, another number of characters.
    assert!(!text_eq("\u{e9}", "ab"));
}

#[test]
fn identities_are_compared_byte_by_byte() {
    let one = Identity { bytes: [5u8; 32] };
    let mut other = Identity { bytes: [5u8; 32] };
    assert!(one.same_as(&other));
    assert!(one.same_as(&one));
    other.bytes[0] = 6;
    assert!(!one.same_as(&other));
    assert!(!other.same_as(&one));
    other.bytes[0] = 5;
    other.bytes[31] = 0;
    assert!(!one.same_as(&other));
    other.bytes[31] = 5;
    other.bytes[17] = 4;
    assert!(!one.same_as(&other));
}
