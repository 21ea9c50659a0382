use base64::Engine;
use zoh_monitor::export::export_bytes;

#[test]
fn base64_is_decoded() {
    assert_eq!(export_bytes(""), Ok(vec![]));
    assert_eq!(export_bytes("aGk="), Ok(b"hi".to_vec()));
    assert_eq!(export_bytes("aA=="), Ok(b"h".to_vec()));
    assert_eq!(export_bytes("+/8A"), Ok(vec![0xfb, 0xff, 0x00]));
}

#[test]
fn other_texts_are_refused() {
    for text in ["aGk", "aGk==", "aGl=", "a", "=", "====", "aGk=\n", "aG k=", "ä", "aGk=aGk="] {
        let message = export_bytes(text).unwrap_err();
        assert!(message.starts_with("Decode error: "), "{}", message);
    }
    assert_eq!(
        export_bytes("aG*="),
        Err("Decode error: Invalid symbol 42, offset 2.".to_string())
    );
    assert_eq!(export_bytes("aGk"), Err("Decode error: Invalid padding".to_string()));
}

#[test]
fn exports_keep_their_bytes() {
    let mut bytes: Vec<u8> = Vec::new();
    for n in 0..300u32 {
        let text = base64::engine::general_purpose::STANDARD.encode(&bytes);
        assert_eq!(export_bytes(&text), Ok(bytes.clone()));
        bytes.push((n * 37 % 256) as u8);
    }
}
