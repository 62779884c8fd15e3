use vault_import::bundle::CipherEntry;
use vault_import::encode::encode_payload;

fn base_entry() -> CipherEntry {
    CipherEntry {
        owner_claim: "u".to_string(),
        cipher_type: 1,
        name: "plain".to_string(),
        notes: None,
        login: None,
        card: None,
        identity: None,
        secure_note: None,
        fields: None,
        password_history: None,
        reprompt: 0,
        favorite: false,
        organization_id: None,
        folder_id: None,
    }
}

#[test]
fn payload_of_a_minimal_entry() {
    let e = base_entry();
    assert_eq!(
        encode_payload(&e),
        "{\"name\":\"plain\",\"notes\":null,\"login\":null,\"card\":null,\"identity\":null,\
         \"secure_note\":null,\"fields\":null,\"password_history\":null,\"reprompt\":0}"
    );
}

#[test]
fn payload_keeps_every_client_field_and_adds_none() {
    let mut e = base_entry();
    e.name = "2.abc|def=".to_string();
    e.notes = Some("2.note==".to_string());
    e.login = Some("{\"username\":\"2.u==\"}".to_string());
    e.fields = Some("[{\"name\":\"2.f==\"}]".to_string());
    e.reprompt = 1;
    assert_eq!(
        encode_payload(&e),
        "{\"name\":\"2.abc|def=\",\"notes\":\"2.note==\",\"login\":{\"username\":\"2.u==\"},\
         \"card\":null,\"identity\":null,\"secure_note\":null,\"fields\":[{\"name\":\"2.f==\"}],\
         \"password_history\":null,\"reprompt\":1}"
    );
}

#[test]
fn payload_escapes_quotes_backslashes_and_controls() {
    let mut e = base_entry();
    e.name = "a\"b\\c\nd\u{1f}e".to_string();
    assert_eq!(
        encode_payload(&e),
        "{\"name\":\"a\\\"b\\\\c\\u000ad\\u001fe\",\"notes\":null,\"login\":null,\"card\":null,\
         \"identity\":null,\"secure_note\":null,\"fields\":null,\"password_history\":null,\
         \"reprompt\":0}"
    );
}

#[test]
fn payload_writes_reprompt_in_decimal() {
    let mut e = base_entry();
    e.reprompt = 1204507;
    let text = encode_payload(&e);
    assert!(text.ends_with("\"reprompt\":1204507}"));
}

#[test]
fn payload_keeps_multibyte_characters_verbatim() {
    let mut e = base_entry();
    e.name = "ハスキー=husky".to_string();
    let text = encode_payload(&e);
    assert!(text.starts_with("{\"name\":\"ハスキー=husky\","));
}
