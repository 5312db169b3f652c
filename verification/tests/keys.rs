use axolotl::error::{DeepslateError, ErrorKind};
use axolotl::keys::{Keys, Opening};

fn sample() -> Keys {
    Keys {
        encrypted: false,
        modrinth: Some("mrp_token".to_string()),
        github: None,
    }
}

#[test]
fn default_store_is_plaintext_without_tokens() {
    let keys = Keys::default();
    assert_eq!(
        keys,
        Keys {
            encrypted: false,
            modrinth: None,
            github: None
        }
    );
}

#[test]
fn fresh_environment_is_set_up_with_the_default_store() {
    let plan = Keys::initialize(false, false);
    assert!(plan.create_directory);
    assert_eq!(plan.write, Some(Keys::default()));
}

#[test]
fn initialize_leaves_an_existing_store_alone() {
    let plan = Keys::initialize(true, true);
    assert!(!plan.create_directory);
    assert_eq!(plan.write, None);
    let plan = Keys::initialize(true, false);
    assert!(!plan.create_directory);
    assert_eq!(plan.write, Some(Keys::default()));
}

#[test]
fn armor_is_standard_base64_with_padding() {
    assert_eq!(Keys::armor(b"hello"), "aGVsbG8=");
    assert_eq!(Keys::armor(b""), "");
    assert_eq!(Keys::armor(&[0xfb, 0xff]), "+/8=");
}

#[test]
fn dearmor_reverses_armor() {
    assert_eq!(Keys::dearmor("aGVsbG8=").unwrap(), b"hello".to_vec());
    assert_eq!(Keys::dearmor("").unwrap(), Vec::<u8>::new());
    let bytes: Vec<u8> = (0u8..=255).collect();
    assert_eq!(Keys::dearmor(&Keys::armor(&bytes)).unwrap(), bytes);
}

#[test]
fn dearmor_rejects_text_that_is_not_base64() {
    let error = Keys::dearmor("not base64!").unwrap_err();
    assert!(matches!(error, DeepslateError::Base64DecodeError(_)));
    assert_eq!(error.kind(), ErrorKind::TextEncodingError);
    assert!(Keys::dearmor("aGVsbG8").is_err());
}

#[test]
fn plaintext_reads_utf8() {
    assert_eq!(Keys::plaintext(b"token".to_vec()).unwrap(), "token");
    assert_eq!(Keys::plaintext(vec![0xc3, 0xa9]).unwrap(), "\u{e9}");
    assert_eq!(Keys::plaintext(Vec::new()).unwrap(), "");
}

#[test]
fn plaintext_rejects_bytes_that_are_not_utf8() {
    let error = Keys::plaintext(vec![0xff, 0xfe]).unwrap_err();
    assert!(matches!(error, DeepslateError::Utf8Error(_)));
    assert_eq!(error.kind(), ErrorKind::TextEncodingError);
}

#[test]
fn round_trip_returns_the_token() {
    let text = Keys::encrypt("ghp_secret".to_string(), "pw".to_string()).unwrap();
    assert_ne!(text, "ghp_secret");
    assert!(Keys::dearmor(&text).is_ok());
    assert_eq!(
        Keys::decrypt(text, "pw".to_string()).unwrap(),
        "ghp_secret"
    );
}

#[test]
fn round_trip_keeps_characters_outside_ascii() {
    let token = "sch\u{fc}ssel-\u{1f511}".to_string();
    let text = Keys::encrypt(token.clone(), "p\u{e4}ss phrase".to_string()).unwrap();
    assert_eq!(
        Keys::decrypt(text, "p\u{e4}ss phrase".to_string()).unwrap(),
        token
    );
}

#[test]
fn wrong_passphrase_is_rejected() {
    let text = Keys::encrypt("ghp_secret".to_string(), "pw".to_string()).unwrap();
    let error = Keys::decrypt(text, "pw2".to_string()).unwrap_err();
    assert!(matches!(error, DeepslateError::DecryptionError(_)));
    assert_eq!(error.kind(), ErrorKind::WrongPassphraseOrCorrupt);
}

#[test]
fn encryption_is_randomised() {
    let first = Keys::encrypt("token".to_string(), "pw".to_string()).unwrap();
    let second = Keys::encrypt("token".to_string(), "pw".to_string()).unwrap();
    assert_ne!(first, second);
}

#[test]
fn tampered_ciphertext_is_rejected() {
    let text = Keys::encrypt("ghp_secret".to_string(), "pw".to_string()).unwrap();
    let mut sealed = Keys::dearmor(&text).unwrap();
    let last = sealed.len() - 1;
    sealed[last] ^= 1;
    let error = Keys::decrypt(Keys::armor(&sealed), "pw".to_string()).unwrap_err();
    assert!(matches!(error, DeepslateError::DecryptionError(_)));
    assert_eq!(error.kind(), ErrorKind::WrongPassphraseOrCorrupt);
}

#[test]
fn truncated_ciphertext_is_rejected() {
    let text = Keys::encrypt("ghp_secret".to_string(), "pw".to_string()).unwrap();
    let mut sealed = Keys::dearmor(&text).unwrap();
    sealed.truncate(sealed.len() - 4);
    let error = Keys::decrypt(Keys::armor(&sealed), "pw".to_string()).unwrap_err();
    assert_eq!(error.kind(), ErrorKind::WrongPassphraseOrCorrupt);
}

#[test]
fn text_that_is_no_age_file_is_rejected() {
    let error = Keys::decrypt(Keys::armor(b"hello"), "pw".to_string()).unwrap_err();
    assert!(matches!(error, DeepslateError::DecryptionError(_)));
}

#[test]
fn decrypt_rejects_text_that_is_not_base64() {
    let error = Keys::decrypt("plain token!".to_string(), "pw".to_string()).unwrap_err();
    assert!(matches!(error, DeepslateError::Base64DecodeError(_)));
}

#[test]
fn absent_token_stays_absent() {
    let locked = sample().encrypted("pw".to_string()).unwrap();
    assert!(locked.encrypted);
    assert_eq!(locked.github, None);
    let text = locked.modrinth.clone().unwrap();
    assert_ne!(text, "mrp_token");
    let opened = locked.decrypted("pw".to_string()).unwrap();
    assert_eq!(opened, sample());
}

#[test]
fn store_without_tokens_encrypts_and_decrypts() {
    let locked = Keys::default().encrypted("pw".to_string()).unwrap();
    assert_eq!(
        locked,
        Keys {
            encrypted: true,
            modrinth: None,
            github: None
        }
    );
    assert_eq!(locked.decrypted("other".to_string()).unwrap(), Keys::default());
}

#[test]
fn decrypted_fails_as_a_whole() {
    let locked = Keys {
        encrypted: true,
        modrinth: Some(Keys::encrypt("mrp_token".to_string(), "pw".to_string()).unwrap()),
        github: Some("@@@".to_string()),
    };
    let error = locked.decrypted("pw".to_string()).unwrap_err();
    assert!(matches!(error, DeepslateError::Base64DecodeError(_)));
}

#[test]
fn decrypted_rejects_the_wrong_passphrase() {
    let locked = sample().encrypted("pw".to_string()).unwrap();
    let error = locked.decrypted("wp".to_string()).unwrap_err();
    assert_eq!(error.kind(), ErrorKind::WrongPassphraseOrCorrupt);
}

#[test]
fn file_encrypted_to_recipients_is_rejected() {
    let identity = age::x25519::Identity::generate();
    let recipient: Box<dyn age::Recipient + Send> = Box::new(identity.to_public());
    let encryptor = age::Encryptor::with_recipients(vec![recipient]).unwrap();
    let mut writer = encryptor.wrap_output(Vec::new()).unwrap();
    std::io::Write::write_all(&mut writer, b"token").unwrap();
    let sealed = writer.finish().unwrap();
    let error = Keys::decrypt(Keys::armor(&sealed), "pw".to_string()).unwrap_err();
    assert!(matches!(error, DeepslateError::NotPassphraseEncrypted));
    assert_eq!(error.kind(), ErrorKind::WrongPassphraseOrCorrupt);
}

#[test]
fn opened_hands_on_the_refusal_of_age() {
    let error = Keys::opened(Opening::Refused(age::DecryptError::DecryptionFailed)).unwrap_err();
    assert!(matches!(
        error,
        DeepslateError::DecryptionError(age::DecryptError::DecryptionFailed)
    ));
    let error = Keys::opened(Opening::Recipients).unwrap_err();
    assert!(matches!(error, DeepslateError::NotPassphraseEncrypted));
}

#[test]
fn opened_reads_the_bytes_as_utf8() {
    assert_eq!(Keys::opened(Opening::Opened(b"token".to_vec())).unwrap(), "token");
    let error = Keys::opened(Opening::Opened(vec![0x80])).unwrap_err();
    assert!(matches!(error, DeepslateError::Utf8Error(_)));
}

#[test]
fn sealed_stores_the_age_file_as_base64() {
    assert_eq!(Keys::sealed(Ok(b"hello".to_vec())).unwrap(), "aGVsbG8=");
    let refusal = age::EncryptError::Io(std::io::Error::new(std::io::ErrorKind::Other, "full"));
    let error = Keys::sealed(Err(refusal)).unwrap_err();
    assert!(matches!(
        error,
        DeepslateError::EncryptionError(age::EncryptError::Io(_))
    ));
    assert_eq!(error.kind(), ErrorKind::EncryptionError);
}

#[test]
fn decrypted_bytes_that_are_not_utf8_are_rejected() {
    let secret = age::secrecy::Secret::new("pw".to_string());
    let encryptor = age::Encryptor::with_user_passphrase(secret);
    let mut writer = encryptor.wrap_output(Vec::new()).unwrap();
    std::io::Write::write_all(&mut writer, &[0xff, 0x00, 0xfe]).unwrap();
    let sealed = writer.finish().unwrap();
    let error = Keys::decrypt(Keys::armor(&sealed), "pw".to_string()).unwrap_err();
    assert!(matches!(error, DeepslateError::Utf8Error(_)));
    assert_eq!(error.kind(), ErrorKind::TextEncodingError);
}

#[test]
fn decrypt_opens_what_age_itself_encrypted() {
    let secret = age::secrecy::Secret::new("correct horse".to_string());
    let encryptor = age::Encryptor::with_user_passphrase(secret);
    let mut writer = encryptor.wrap_output(Vec::new()).unwrap();
    std::io::Write::write_all(&mut writer, "mrp_t\u{f8}ken".as_bytes()).unwrap();
    let sealed = writer.finish().unwrap();
    assert_eq!(
        Keys::decrypt(Keys::armor(&sealed), "correct horse".to_string()).unwrap(),
        "mrp_t\u{f8}ken"
    );
}

#[test]
fn encrypt_writes_what_age_itself_opens() {
    let text = Keys::encrypt("ghp_secret".to_string(), "pw".to_string()).unwrap();
    let sealed = Keys::dearmor(&text).unwrap();
    let decryptor = match age::Decryptor::new(&sealed[..]).unwrap() {
        age::Decryptor::Passphrase(decryptor) => decryptor,
        _ => panic!("not encrypted with a passphrase"),
    };
    let secret = age::secrecy::Secret::new("pw".to_string());
    let mut reader = decryptor.decrypt(&secret, None).unwrap();
    let mut opened = Vec::new();
    std::io::Read::read_to_end(&mut reader, &mut opened).unwrap();
    assert_eq!(opened, b"ghp_secret".to_vec());
}

#[test]
fn empty_token_round_trips() {
    let text = Keys::encrypt(String::new(), "pw".to_string()).unwrap();
    assert_eq!(Keys::decrypt(text, "pw".to_string()).unwrap(), "");
}

#[test]
fn error_kinds_follow_the_variants() {
    assert_eq!(
        DeepslateError::InputError("x".to_string()).kind(),
        ErrorKind::InputError
    );
    assert_eq!(
        DeepslateError::Error("x".to_string()).kind(),
        ErrorKind::NotFound
    );
    assert_eq!(
        DeepslateError::DecryptionError(age::DecryptError::InvalidMac).kind(),
        ErrorKind::WrongPassphraseOrCorrupt
    );
    assert_eq!(
        DeepslateError::EncryptionError(age::EncryptError::Io(std::io::Error::new(
            std::io::ErrorKind::Other,
            "x"
        )))
        .kind(),
        ErrorKind::EncryptionError
    );
}
