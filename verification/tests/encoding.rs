use whatsandra::JID;
use whatsandra::crypto::Crypto;
use whatsandra::error::WhatsAppError;
use whatsandra::message::{MediaInfo, Message, MessageParser, MessageType};
use whatsandra::strutil::{hex_encode, u64_to_dec};

#[test]
fn jid_renders_with_and_without_device() {
    let plain = JID::new("12025550100", "s.whatsapp.net", None);
    assert_eq!(plain.to_string(), "12025550100@s.whatsapp.net");
    assert!(plain.is_user());
    assert!(!plain.is_group());

    let device = JID::new("12025550100", "s.whatsapp.net", Some(7));
    assert_eq!(device.to_string(), "12025550100@s.whatsapp.net.7");

    let group = JID::new("mygroup", "g.us", None);
    assert!(group.is_group());
    assert!(!group.is_user());
    assert_eq!(group.to_string(), "mygroup@g.us");
}

#[test]
fn decimal_rendering_is_exact() {
    assert_eq!(u64_to_dec(0), "0");
    assert_eq!(u64_to_dec(7), "7");
    assert_eq!(u64_to_dec(12345), "12345");
    assert_eq!(u64_to_dec(u64::MAX), "18446744073709551615");
}

#[test]
fn hex_encoding_is_lowercase_two_digits_per_byte() {
    assert_eq!(hex_encode(&[]), "");
    assert_eq!(hex_encode(&[0xde, 0xad, 0xbe, 0xef]), "deadbeef");
    assert_eq!(hex_encode(&[0x00, 0x0f, 0xa0]), "000fa0");
}

#[test]
fn sha256_matches_known_vector() {
    // SHA-256("abc"), a standard test vector.
    let digest = Crypto::sha256(b"abc");
    assert_eq!(
        hex_encode(&digest),
        "ba7816bf8f01cfea414140de5dae2223b00361a396177a9cb410ff61f20015ad"
    );
    assert_eq!(digest.len(), 32);
}

#[test]
fn hmac_sha256_matches_known_vector() {
    // RFC 4231 test case 2: key "Jefe", data "what do ya want for nothing?".
    let mac = Crypto::hmac_sha256(b"Jefe", b"what do ya want for nothing?").unwrap();
    assert_eq!(
        hex_encode(&mac),
        "5bdcc146bf60754e6a042426089575c75a003f089d2739839dec58b964ec3843"
    );
}

#[test]
fn hkdf_expands_by_hmac_blocks() {
    let master = b"master secret";
    let info = b"application info";
    let out = Crypto::hkdf(master, info, 42).unwrap();
    assert_eq!(out.len(), 42);
    // Cross-check the first block against the extract/expand schedule.
    let prk = Crypto::hmac_sha256(&[0u8; 32], master).unwrap();
    let mut input = Vec::new();
    input.extend_from_slice(info);
    input.push(1u8);
    let t1 = Crypto::hmac_sha256(&prk, &input).unwrap();
    assert_eq!(&out[..32], &t1[..]);
    // A zero-length request yields nothing.
    assert_eq!(Crypto::hkdf(master, info, 0).unwrap().len(), 0);
}

#[test]
fn xor_cipher_round_trips() {
    let key = [7u8, 11, 13];
    let iv = [1u8, 2];
    let data = b"attack at dawn";
    let encrypted = Crypto::aes_encrypt(&key, &iv, data).unwrap();
    assert_eq!(encrypted.len(), data.len());
    // First byte: 'a' ^ key[0] ^ iv[0].
    assert_eq!(encrypted[0], b'a' ^ 7 ^ 1);
    let decrypted = Crypto::aes_decrypt(&key, &iv, &encrypted).unwrap();
    assert_eq!(decrypted, data);
}

#[test]
fn base64_round_trips() {
    assert_eq!(Crypto::base64_encode(&[]), "");
    let encoded = Crypto::base64_encode(b"hello");
    assert_eq!(encoded, "aGVsbG8=");
    assert_eq!(Crypto::base64_decode(&encoded).unwrap(), b"hello");
    match Crypto::base64_decode("not/valid!") {
        Err(WhatsAppError::CryptoError(_)) => {},
        other => panic!("expected a crypto error, got {:?}", other),
    }
}

#[test]
fn key_pair_has_32_byte_halves() {
    let kp = Crypto::generate_key_pair().unwrap();
    assert_eq!(kp.private.len(), 32);
    assert_eq!(kp.public.len(), 32);
}

#[test]
fn random_bytes_has_requested_length() {
    assert_eq!(Crypto::random_bytes(0).len(), 0);
    assert_eq!(Crypto::random_bytes(17).len(), 17);
}

#[test]
fn new_text_fills_the_expected_fields() {
    let jid = JID::new("alice", "s.whatsapp.net", None);
    let m = Message::new_text(jid, "hi there");
    assert!(m.id.len() >= 18);
    assert!(m.from_me);
    assert_eq!(m.message_type, MessageType::Text);
    assert_eq!(m.chat_jid.user, "alice");
    assert_eq!(m.text.as_deref(), Some("hi there"));
    assert!(m.media.is_none());
    assert!(m.quoted.is_none());
    assert!(m.mentioned_jids.is_empty());
    assert!(!m.is_ephemeral);
}

#[test]
fn new_image_records_digest_and_length() {
    let jid = JID::new("alice", "s.whatsapp.net", None);
    let data = [1u8, 2, 3, 4, 5];
    let m = Message::new_image(jid, "image/png", &data, Some("look"));
    assert_eq!(m.message_type, MessageType::Image);
    let media = m.media.expect("image messages carry media");
    assert_eq!(media.mime_type, "image/png");
    assert_eq!(media.sha256, Crypto::sha256(&data));
    assert_eq!(media.file_length, 5);
    assert_eq!(media.caption.as_deref(), Some("look"));
    assert!(media.url.is_none());
    assert!(m.text.is_none());
}

#[test]
fn builders_quote_mention_and_expire() {
    let jid = JID::new("alice", "s.whatsapp.net", None);
    let original = Message::new_text(JID::new("bob", "s.whatsapp.net", None), "quoted text");
    let m = Message::new_text(jid, "reply")
        .quote(&original)
        .make_ephemeral(600)
        .mention(vec![JID::new("carol", "s.whatsapp.net", None)]);
    let quoted = m.quoted.as_ref().expect("the quote is kept");
    assert_eq!(quoted.text.as_deref(), Some("quoted text"));
    assert!(m.is_ephemeral);
    assert_eq!(m.ephemeral_expiration, Some(600));
    assert_eq!(m.mentioned_jids.len(), 1);
    assert_eq!(m.mentioned_jids[0].user, "carol");
}

fn fixed_message() -> Message {
    Message {
        id: "msg-1".to_string(),
        from_me: true,
        timestamp: 1700000000,
        message_type: MessageType::Text,
        chat_jid: JID::new("alice", "s.whatsapp.net", None),
        sender_jid: None,
        text: Some("say \"hi\"\n".to_string()),
        media: None,
        quoted: None,
        mentioned_jids: Vec::new(),
        is_ephemeral: false,
        ephemeral_expiration: None,
        context_info: Vec::new(),
    }
}

#[test]
fn to_json_renders_the_exact_wire_form() {
    let json = fixed_message().to_json().unwrap();
    let expected = "{\"id\":\"msg-1\",\"from_me\":true,\"timestamp\":1700000000,\"message_type\":\"Text\",\"chat_jid\":{\"user\":\"alice\",\"server\":\"s.whatsapp.net\",\"device\":null},\"sender_jid\":null,\"text\":\"say \\\"hi\\\"\\u000a\",\"media\":null,\"quoted\":null,\"mentioned_jids\":[],\"is_ephemeral\":false,\"ephemeral_expiration\":null,\"context_info\":{}}";
    assert_eq!(json, expected);
}

#[test]
fn to_json_nests_quoted_messages_and_media() {
    let mut m = fixed_message();
    m.text = Some("outer".to_string());
    m.quoted = Some(Box::new(fixed_message()));
    m.media = Some(MediaInfo {
        mime_type: "image/png".to_string(),
        sha256: vec![0, 255],
        file_length: 2,
        file_name: None,
        caption: Some("cap".to_string()),
        url: None,
    });
    m.mentioned_jids = vec![JID::new("carol", "s.whatsapp.net", Some(2))];
    m.context_info = vec![("k".to_string(), "v".to_string())];
    let json = m.to_json().unwrap();
    assert!(json.contains("\"media\":{\"mime_type\":\"image/png\",\"sha256\":[0,255],\"file_length\":2,\"file_name\":null,\"caption\":\"cap\",\"url\":null}"));
    assert!(json.contains("\"quoted\":{\"id\":\"msg-1\""));
    assert!(json.contains("\"mentioned_jids\":[{\"user\":\"carol\",\"server\":\"s.whatsapp.net\",\"device\":2}]"));
    assert!(json.contains("\"context_info\":{\"k\":\"v\"}"));
}

#[test]
fn parse_binary_reports_a_parsing_error() {
    match MessageParser::parse_binary(&[1, 2, 3]) {
        Err(WhatsAppError::ParsingError(_)) => {},
        other => panic!("expected a parsing error, got {:?}", other.map(|_| ())),
    }
}

#[test]
fn deep_clone_preserves_a_message() {
    let m = fixed_message().quote(&fixed_message());
    let c = m.deep_clone();
    assert_eq!(c.id, m.id);
    assert_eq!(c.text, m.text);
    assert_eq!(c.to_json().unwrap(), m.to_json().unwrap());
}

#[test]
fn empty_jid_still_renders() {
    let j = JID::new("", "", None);
    assert_eq!(j.to_string(), "@");
    assert!(!j.is_user());
    assert!(!j.is_group());
}

#[test]
fn hkdf_serves_its_largest_request() {
    let out = Crypto::hkdf(b"m", b"i", 8128).unwrap();
    assert_eq!(out.len(), 8128);
}

#[test]
fn base64_length_follows_the_padding_formula() {
    for n in 0..10usize {
        let data = vec![7u8; n];
        let encoded = Crypto::base64_encode(&data);
        assert_eq!(encoded.len(), 4 * ((n + 2) / 3));
    }
}
