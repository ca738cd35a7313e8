use sharers::database::ids::{FileId, TokenId};

#[test]
fn storage_key_is_hyphenated_lower_case() {
    let id = FileId(0x67e5504410b1426f9247bb680e5fe0c8);
    assert_eq!(id.storage_key(), "67e55044-10b1-426f-9247-bb680e5fe0c8");
    assert_eq!(FileId(0).storage_key(), "00000000-0000-0000-0000-000000000000");
}

#[test]
fn token_text_reads_back() {
    let v: u128 = 0x550e8400e29b41d4a716446655440000;
    assert_eq!(TokenId::parse("550e8400-e29b-41d4-a716-446655440000"), Some(TokenId(v)));
    let key = FileId(v).storage_key();
    assert_eq!(TokenId::parse(&key), Some(TokenId(v)));
    assert_eq!(TokenId::parse("550E8400E29B41D4A716446655440000"), Some(TokenId(v)));
}

#[test]
fn token_text_that_is_no_uuid_is_refused() {
    assert_eq!(TokenId::parse(""), None);
    assert_eq!(TokenId::parse("not-a-uuid"), None);
    assert_eq!(TokenId::parse("550e8400-e29b-41d4-a716-44665544000"), None);
}
