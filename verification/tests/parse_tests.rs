use ntbindings::address::parse_address;
use ntbindings::comment::{encode_comment, CommentPayload, MAX_COMMENT_BYTES};
use ntbindings::errors::ExitCode;
use ntbindings::keys::read_public_key;
use ntbindings::request::{prepare_send, MESSAGE_EXPIRATION_SECS};
use ntbindings::signer::{
    CreateKeyData, DerivedKeySignParams, EncryptedKeyPassword, SignData, SignerBackend,
};
use ntbindings::keys::PublicKey;

fn account_part(digit: char) -> String {
    let mut s = String::new();
    for _ in 0..64 {
        s.push(digit);
    }
    s
}

#[test]
fn parse_address_accepts_the_grammar() {
    let a = parse_address(&format!("0:{}", account_part('a'))).expect("a plain base workchain");
    assert_eq!(a.workchain, 0);
    assert_eq!(a.account, vec![0xaa; 32]);

    let a = parse_address(&format!("-1:{}", account_part('0'))).expect("the masterchain");
    assert_eq!(a.workchain, -1);
    assert_eq!(a.account, vec![0; 32]);

    // mixed-case hex and extreme workchains are fine
    let mut acct = String::new();
    for i in 0..64 {
        acct.push(if i % 2 == 0 { 'A' } else { 'b' });
    }
    let a = parse_address(&format!("2147483647:{}", acct)).expect("the largest workchain");
    assert_eq!(a.workchain, i32::MAX);
    assert_eq!(a.account[0], 0xab);

    let a = parse_address(&format!("-2147483648:{}", account_part('f')))
        .expect("the smallest workchain");
    assert_eq!(a.workchain, i32::MIN);
    assert_eq!(a.account, vec![0xff; 32]);

    // leading zeros are plain decimal notation
    let a = parse_address(&format!("007:{}", account_part('1'))).expect("leading zeros");
    assert_eq!(a.workchain, 7);
}

#[test]
fn parse_address_rejects_malformed_text() {
    assert!(parse_address("").is_none());
    assert!(parse_address("0").is_none());
    assert!(parse_address(&account_part('a')).is_none(), "no colon");
    assert!(parse_address(&format!("0:{}", &account_part('a')[..63])).is_none(), "63 digits");
    assert!(parse_address(&format!("0:{}x", &account_part('a')[..63])).is_none(), "bad digit");
    assert!(parse_address(&format!(":{}", account_part('a'))).is_none(), "empty workchain");
    assert!(parse_address(&format!("-:{}", account_part('a'))).is_none(), "lone minus");
    assert!(parse_address(&format!("+1:{}", account_part('a'))).is_none(), "no plus sign");
    assert!(
        parse_address(&format!("2147483648:{}", account_part('a'))).is_none(),
        "workchain past the maximum"
    );
    assert!(
        parse_address(&format!("-2147483649:{}", account_part('a'))).is_none(),
        "workchain past the minimum"
    );
    assert!(
        parse_address(&format!("1a:{}", account_part('a'))).is_none(),
        "hex workchain"
    );
}

#[test]
fn read_public_key_decodes_hex() {
    // the ed25519 base point, compressed: a certainly decodable key
    let mut text = String::from("58");
    for _ in 0..31 {
        text.push_str("66");
    }
    let k = read_public_key(&text).expect("the base point decodes");
    assert_eq!(k.bytes.len(), 32);
    assert_eq!(k.bytes[0], 0x58);
    assert_eq!(k.bytes[31], 0x66);

    // upper case decodes to the same key
    let k2 = read_public_key(&text.to_uppercase()).expect("case does not matter");
    assert_eq!(k, k2);
}

#[test]
fn read_public_key_rejects_a_non_point() {
    // 32 bytes whose compressed Edwards y (here y = 2) has no matching x:
    // well-formed hex, but not a public key
    let mut text = String::from("02");
    for _ in 0..31 {
        text.push_str("00");
    }
    assert_eq!(read_public_key(&text), Err(ExitCode::InvalidPublicKey));
}

#[test]
fn read_public_key_rejects_bad_text() {
    assert_eq!(read_public_key(""), Err(ExitCode::InvalidPublicKey));
    assert_eq!(read_public_key("aa"), Err(ExitCode::InvalidPublicKey));
    assert_eq!(read_public_key("zz"), Err(ExitCode::InvalidPublicKey));
    // odd length
    let mut odd = String::new();
    for _ in 0..63 {
        odd.push('a');
    }
    assert_eq!(read_public_key(&odd), Err(ExitCode::InvalidPublicKey));
    // 33 bytes of hex
    let mut long = String::new();
    for _ in 0..66 {
        long.push('a');
    }
    assert_eq!(read_public_key(&long), Err(ExitCode::InvalidPublicKey));
}

#[test]
fn empty_comment_is_a_payload_of_its_own() {
    let none = encode_comment(None).expect("no comment is fine");
    assert!(none.is_none());

    let empty = encode_comment(Some(String::new())).expect("an empty comment is fine");
    assert_eq!(empty, Some(CommentPayload { text: String::new() }));

    // the two code paths stay distinguishable
    assert_ne!(none, empty);

    let hi = encode_comment(Some("hi".to_string())).expect("a short comment is fine");
    assert_eq!(hi, Some(CommentPayload { text: "hi".to_string() }));
}

#[test]
fn oversize_comment_is_a_bad_comment() {
    let mut big = String::new();
    for _ in 0..(MAX_COMMENT_BYTES + 1) {
        big.push('x');
    }
    assert_eq!(encode_comment(Some(big)), Err(ExitCode::BadComment));
}

#[test]
fn prepare_send_validates_in_order() {
    let to = format!("0:{}", {
        let mut s = String::new();
        for _ in 0..64 {
            s.push('9');
        }
        s
    });
    let req = prepare_send(&to, 1_000_000, Some("hi".to_string())).expect("a valid request");
    assert_eq!(req.to.workchain, 0);
    assert_eq!(req.to.account, vec![0x99; 32]);
    assert_eq!(req.amount, 1_000_000);
    assert!(!req.bounce);
    assert_eq!(req.payload, Some(CommentPayload { text: "hi".to_string() }));
    assert_eq!(req.expiration_secs, MESSAGE_EXPIRATION_SECS);

    let req = prepare_send(&to, 5, None).expect("no comment is fine");
    assert!(req.payload.is_none());

    match prepare_send("junk", 5, None) {
        Err(code) => assert_eq!(code, ExitCode::BadAddress),
        Ok(_) => panic!("a malformed address must be rejected"),
    }

    let mut big = String::new();
    for _ in 0..(MAX_COMMENT_BYTES + 1) {
        big.push('x');
    }
    match prepare_send(&to, 5, Some(big)) {
        Err(code) => assert_eq!(code, ExitCode::BadComment),
        Ok(_) => panic!("an oversize comment must be rejected"),
    }
}

#[test]
fn exit_codes_are_stable() {
    assert_eq!(ExitCode::Success.code(), 0);
    assert_eq!(ExitCode::FailedToCreateRuntime.code(), 1);
    assert_eq!(ExitCode::InvalidUrl.code(), 7);
    assert_eq!(ExitCode::InvalidPublicKey.code(), 8);
    assert_eq!(ExitCode::BadComment.code(), 13);
    assert_eq!(ExitCode::BadAddress.code(), 14);
}

#[test]
fn signer_backends_dispatch_by_variant() {
    let key = PublicKey { bytes: vec![0x11; 32] };
    let derived = SignData::Derived(DerivedKeySignParams {
        master_key: key.clone(),
        account_id: 3,
        password: "pw".to_string(),
    });
    assert_eq!(derived.backend(), SignerBackend::Derived);
    assert_eq!(derived.backend().registry_name(), "derived");
    assert_eq!(derived.public_key(), &key);

    let encrypted = SignData::Encrypted(EncryptedKeyPassword {
        public_key: key.clone(),
        password: "pw".to_string(),
    });
    assert_eq!(encrypted.backend(), SignerBackend::Encrypted);
    assert_eq!(encrypted.backend().registry_name(), "encrypted");
    assert_eq!(encrypted.public_key(), &key);

    let create = CreateKeyData::Encrypted {
        phrase: "seed words".to_string(),
        password: "pw".to_string(),
    };
    assert_eq!(create.backend(), SignerBackend::Encrypted);
}
