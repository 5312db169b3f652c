//! The credential store and the encryption of its tokens.
//!
//! A token is encrypted with age under a passphrase and stored as the base64
//! text of the age file. The age file of a token holds random bytes, and
//! whether age goes to the work of opening a file depends on how fast the
//! machine is. What an age file holds under a passphrase depends on neither,
//! and that is what the contracts here speak of: a token that comes back
//! from decryption is the token that was encrypted.

use crate::error::{DeepslateError, ErrorKind};
use vstd::prelude::*;
use vstd::utf8::*;

verus! {

/// The standard base64 text, with padding, of a sequence of bytes.
pub uninterp spec fn base64_encoded(bytes: Seq<u8>) -> Seq<char>;

/// The bytes that a text stands for in standard base64 with padding, if it
/// is such a text.
pub uninterp spec fn base64_decoded(text: Seq<char>) -> Option<Seq<u8>>;

/// The bytes that an age file holds under a passphrase: what age hands out
/// when it opens the file with that passphrase. It is `None` where the bytes
/// are no age file that the passphrase opens. It belongs to the file and the
/// passphrase alone: on a slow machine age may refuse the work of opening a
/// file, which changes nothing in what the file holds.
pub uninterp spec fn age_plaintext(sealed: Seq<u8>, key: Seq<char>) -> Option<Seq<u8>>;

/// `Engine::encode` of base64's `BASE64_STANDARD`: the result is the
/// standard base64 text of `bytes`, which decodes to `bytes`. The one panic
/// of `encode`, a text longer than `usize::MAX`, needs more bytes than a
/// slice can hold.
#[verifier::external_body]
fn base64_encode(bytes: &[u8]) -> (text: String)
    ensures
        text@ == base64_encoded(bytes@),
        base64_decoded(text@) == Some(bytes@),
{
    base64::Engine::encode(&base64::prelude::BASE64_STANDARD, bytes)
}

/// `Engine::decode` of base64's `BASE64_STANDARD`: succeeds exactly on the
/// texts that are standard base64, with the bytes they stand for.
#[verifier::external_body]
fn base64_decode(text: &str) -> (r: Result<Vec<u8>, base64::DecodeError>)
    ensures
        match r {
            Ok(bytes) => base64_decoded(text@) == Some(bytes@),
            Err(_) => base64_decoded(text@) is None,
        },
{
    base64::Engine::decode(&base64::prelude::BASE64_STANDARD, text)
}

/// `String::from_utf8`: succeeds exactly on well-formed UTF-8, with the
/// characters that the bytes encode.
#[verifier::external_body]
fn string_from_utf8(bytes: Vec<u8>) -> (r: Result<String, std::string::FromUtf8Error>)
    ensures
        r is Ok <==> valid_utf8(bytes@),
        r matches Ok(s) ==> s@ == decode_utf8(bytes@),
{
    String::from_utf8(bytes)
}

/// Encryption with a passphrase as age's documentation gives it:
/// `Encryptor::with_user_passphrase`, `wrap_output` into a vector,
/// `write_all` of the plaintext, and `finish`. The age file holds a random
/// salt and nonce, so nothing is claimed of its bytes but that it holds the
/// plaintext under the passphrase. A failure to write is handed on as age's
/// `EncryptError`, through its `From`.
#[verifier::external_body]
fn age_encrypt(plaintext: &[u8], key: &str) -> (r: Result<Vec<u8>, age::EncryptError>)
    ensures
        r matches Ok(sealed) ==> age_plaintext(sealed@, key@) == Some(plaintext@),
{
    let secret = age::secrecy::Secret::new(key.to_owned());
    let mut writer = age::Encryptor::with_user_passphrase(secret).wrap_output(Vec::new())?;
    std::io::Write::write_all(&mut writer, plaintext)?;
    Ok(writer.finish()?)
}

/// What age answers when it is asked to open an age file with a passphrase.
#[derive(Debug)]
pub enum Opening {
    /// The bytes that the file holds.
    Opened(Vec<u8>),
    /// age's reason for handing out no bytes.
    Refused(age::DecryptError),
    /// The file was encrypted to recipients: no passphrase opens it.
    Recipients,
}

/// Decryption with a passphrase as age's documentation gives it:
/// `Decryptor::new` on the bytes, `decrypt` of the passphrase decryptor with
/// the default limit on the work factor, and `read_to_end`. Bytes that are
/// handed out are those that the file holds under the passphrase. age
/// measures the machine to set the limit, so a refusal shows nothing. A
/// chunk that fails authentication is an `std::io::Error`, handed on as age's
/// `DecryptError` through its `From`; what was read before it is dropped.
#[verifier::external_body]
fn age_decrypt(sealed: &[u8], key: &str) -> (answer: Opening)
    ensures
        answer matches Opening::Opened(bytes) ==> age_plaintext(sealed@, key@) == Some(bytes@),
{
    let decryptor = match age::Decryptor::new(sealed) {
        Ok(age::Decryptor::Passphrase(decryptor)) => decryptor,
        Ok(age::Decryptor::Recipients(_)) => return Opening::Recipients,
        Err(e) => return Opening::Refused(e),
    };
    let mut reader = match decryptor.decrypt(&age::secrecy::Secret::new(key.to_owned()), None) {
        Ok(reader) => reader,
        Err(e) => return Opening::Refused(e),
    };
    let mut opened = Vec::new();
    match std::io::Read::read_to_end(&mut reader, &mut opened) {
        Ok(_) => Opening::Opened(opened),
        Err(e) => Opening::Refused(age::DecryptError::from(e)),
    }
}

/// The token that a stored text holds under a passphrase: the text is
/// base64 of an age file, the file holds bytes under the passphrase, and the
/// bytes are the UTF-8 of the token. `None` where one of the three fails.
pub open spec fn decrypts_to(text: Seq<char>, key: Seq<char>) -> Option<Seq<char>> {
    match base64_decoded(text) {
        Some(sealed) => match age_plaintext(sealed, key) {
            Some(bytes) => if valid_utf8(bytes) {
                Some(decode_utf8(bytes))
            } else {
                None
            },
            None => None,
        },
        None => None,
    }
}

/// Whether a stored field holds `token` under a passphrase: an absent field
/// holds the absent token, and a present field the token it decrypts to.
pub open spec fn field_opens(stored: Option<Seq<char>>, key: Seq<char>, token: Option<Seq<char>>) -> bool {
    match stored {
        Some(text) => token is Some && decrypts_to(text, key) == token,
        None => token is None,
    }
}

/// The credential store as it is persisted: the two tokens are plaintext
/// where `encrypted` is false, and ciphertext where it is true.
#[derive(Debug, Clone, PartialEq, Eq)]
pub struct Keys {
    pub encrypted: bool,
    pub modrinth: Option<String>,
    pub github: Option<String>,
}

/// The store as plain values.
pub struct KeysView {
    pub encrypted: bool,
    pub modrinth: Option<Seq<char>>,
    pub github: Option<Seq<char>>,
}

/// The characters of a token that may be absent.
pub open spec fn token_view(token: Option<String>) -> Option<Seq<char>> {
    match token {
        Some(t) => Some(t@),
        None => None,
    }
}

impl View for Keys {
    type V = KeysView;

    open spec fn view(&self) -> KeysView {
        KeysView {
            encrypted: self.encrypted,
            modrinth: token_view(self.modrinth),
            github: token_view(self.github),
        }
    }
}

impl KeysView {
    /// The store with the same tokens, marked plaintext.
    pub open spec fn plain(self) -> KeysView {
        KeysView { encrypted: false, ..self }
    }

    /// The plaintext store that this store holds under a passphrase, where
    /// it holds one: each field that is present gives the token that it
    /// decrypts to.
    pub open spec fn held(self, key: Seq<char>) -> KeysView {
        KeysView {
            encrypted: false,
            modrinth: match self.modrinth {
                Some(text) => decrypts_to(text, key),
                None => None,
            },
            github: match self.github {
                Some(text) => decrypts_to(text, key),
                None => None,
            },
        }
    }

    /// Whether this store holds the plaintext store `plain` under a
    /// passphrase: `plain` is marked plaintext, and each field of this store
    /// holds the token of `plain` under the passphrase. In particular a
    /// token is absent in both or in neither.
    pub open spec fn opens_to(self, key: Seq<char>, plain: KeysView) -> bool {
        &&& !plain.encrypted
        &&& field_opens(self.modrinth, key, plain.modrinth)
        &&& field_opens(self.github, key, plain.github)
    }
}

/// What a start of the program has to set up before the store can be read.
#[derive(Debug, Clone, PartialEq, Eq)]
pub struct Bootstrap {
    /// Whether the directory of the store has to be created.
    pub create_directory: bool,
    /// The store to write, where none is there yet.
    pub write: Option<Keys>,
}

/// A token comes back from decryption as it was encrypted: where a text
/// holds one token under a passphrase, it holds no other. So whenever
/// `Keys::encrypt` returns a text and `Keys::decrypt` returns a token for
/// that text and the same passphrase, the token is the one that was
/// encrypted.
pub proof fn lemma_round_trip(
    token: Seq<char>,
    key: Seq<char>,
    text: Seq<char>,
    back: Seq<char>,
)
    requires
        decrypts_to(text, key) == Some(token),
        decrypts_to(text, key) == Some(back),
    ensures
        back == token,
{
}

/// What a store holds under a passphrase is one plaintext store: it is
/// marked plaintext, and has a token exactly where the store has a field.
/// So the store that `disable` returns is the one that `enable` was given,
/// whenever both succeed with the same passphrase.
pub proof fn lemma_opens_to_one_store(locked: KeysView, key: Seq<char>, plain: KeysView)
    requires
        locked.opens_to(key, plain),
    ensures
        plain == locked.held(key),
        !plain.encrypted,
        plain.modrinth is None <==> locked.modrinth is None,
        plain.github is None <==> locked.github is None,
{
}

impl Default for Keys {
    /// The store of a first run: plaintext, with no token.
    fn default() -> (keys: Keys)
        ensures
            keys@ == (KeysView { encrypted: false, modrinth: None, github: None }),
    {
        Keys { encrypted: false, modrinth: None, github: None }
    }
}

impl Keys {
    /// What is to be set up at a start of the program. A missing directory
    /// is created, and a missing file is written as the store of a first
    /// run: plaintext, with no token. What is there already is left alone,
    /// so that every start can ask.
    pub fn initialize(directory_found: bool, file_found: bool) -> (plan: Bootstrap)
        ensures
            plan.create_directory == !directory_found,
            file_found ==> plan.write is None,
            !file_found ==> (plan.write matches Some(keys) && keys@ == (KeysView {
                encrypted: false,
                modrinth: None,
                github: None,
            })),
    {
        Bootstrap {
            create_directory: !directory_found,
            write: if file_found {
                None
            } else {
                Some(Keys { encrypted: false, modrinth: None, github: None })
            },
        }
    }

    /// The text under which an age file is stored.
    pub fn armor(sealed: &[u8]) -> (text: String)
        ensures
            text@ == base64_encoded(sealed@),
            base64_decoded(text@) == Some(sealed@),
    {
        base64_encode(sealed)
    }

    /// The age file that a stored text holds. Fails with `Base64DecodeError`
    /// exactly when the text is not base64.
    pub fn dearmor(text: &str) -> (r: Result<Vec<u8>, DeepslateError>)
        ensures
            match r {
                Ok(sealed) => base64_decoded(text@) == Some(sealed@),
                Err(e) => base64_decoded(text@) is None && e is Base64DecodeError,
            },
    {
        match base64_decode(text) {
            Ok(sealed) => Ok(sealed),
            Err(e) => Err(DeepslateError::Base64DecodeError(e)),
        }
    }

    /// The token that decrypted bytes spell. Fails with `Utf8Error` exactly
    /// when the bytes are not UTF-8.
    pub fn plaintext(opened: Vec<u8>) -> (r: Result<String, DeepslateError>)
        ensures
            match r {
                Ok(token) => valid_utf8(opened@) && token@ == decode_utf8(opened@),
                Err(e) => !valid_utf8(opened@) && e is Utf8Error,
            },
    {
        match string_from_utf8(opened) {
            Ok(token) => Ok(token),
            Err(e) => Err(DeepslateError::Utf8Error(e)),
        }
    }

    /// What encryption returns for an answer of age: the base64 text of the
    /// age file, or age's error as `EncryptionError`.
    pub fn sealed(answer: Result<Vec<u8>, age::EncryptError>) -> (r: Result<String, DeepslateError>)
        ensures
            match answer {
                Ok(sealed) => r matches Ok(text) && text@ == base64_encoded(sealed@)
                    && base64_decoded(text@) == Some(sealed@),
                Err(refusal) => r == Err::<String, DeepslateError>(
                    DeepslateError::EncryptionError(refusal),
                ),
            },
    {
        match answer {
            Ok(sealed) => Ok(Self::armor(sealed.as_slice())),
            Err(refusal) => Err(DeepslateError::EncryptionError(refusal)),
        }
    }

    /// What decryption returns for an answer of age: the token that the
    /// bytes spell where age handed out bytes and they are UTF-8,
    /// `Utf8Error` where they are not, age's own error as `DecryptionError`
    /// where it handed out none, and `NotPassphraseEncrypted` for a file
    /// that was encrypted to recipients.
    pub fn opened(answer: Opening) -> (r: Result<String, DeepslateError>)
        ensures
            match answer {
                Opening::Opened(bytes) => match r {
                    Ok(token) => valid_utf8(bytes@) && token@ == decode_utf8(bytes@),
                    Err(e) => !valid_utf8(bytes@) && e is Utf8Error,
                },
                Opening::Refused(refusal) => r == Err::<String, DeepslateError>(
                    DeepslateError::DecryptionError(refusal),
                ),
                Opening::Recipients => r == Err::<String, DeepslateError>(
                    DeepslateError::NotPassphraseEncrypted,
                ),
            },
    {
        match answer {
            Opening::Opened(bytes) => Self::plaintext(bytes),
            Opening::Refused(refusal) => Err(DeepslateError::DecryptionError(refusal)),
            Opening::Recipients => Err(DeepslateError::NotPassphraseEncrypted),
        }
    }

    /// Encrypts `plaintext` under the passphrase `key` and returns the
    /// ciphertext as base64 text. The ciphertext holds random bytes: two
    /// calls on the same arguments need not agree. A text that is returned
    /// holds `plaintext` under `key`; the one failure is age's own, an
    /// `EncryptionError`.
    pub fn encrypt(plaintext: String, key: String) -> (r: Result<String, DeepslateError>)
        ensures
            match r {
                Ok(text) => decrypts_to(text@, key@) == Some(plaintext@),
                Err(e) => e is EncryptionError,
            },
    {
        proof {
            encode_utf8_valid_utf8(plaintext@);
            encode_utf8_decode_utf8(plaintext@);
        }
        Self::sealed(age_encrypt(plaintext.as_str().as_bytes(), key.as_str()))
    }

    /// Decrypts the base64 text `encrypted` with the passphrase `key`.
    ///
    /// A token that is returned is the one that the text holds under the
    /// passphrase: no text is returned that age did not authenticate. The
    /// call fails with `Base64DecodeError` exactly when the text is not
    /// base64, and with `Utf8Error` only where the text holds bytes under the
    /// passphrase that are not UTF-8. Otherwise age decides: bytes that are
    /// no age file, a wrong passphrase, and a header or a payload that does
    /// not authenticate fail with `DecryptionError`, and an age file that
    /// was encrypted to recipients with `NotPassphraseEncrypted`. How an
    /// answer of age is turned into the result is [`Keys::opened`].
    pub fn decrypt(encrypted: String, key: String) -> (r: Result<String, DeepslateError>)
        ensures
            r matches Ok(token) ==> decrypts_to(encrypted@, key@) == Some(token@),
            base64_decoded(encrypted@) is None <==> r matches Err(
                DeepslateError::Base64DecodeError(_),
            ),
            r matches Err(DeepslateError::Utf8Error(_)) ==> (base64_decoded(encrypted@) matches Some(
                sealed,
            ) && age_plaintext(sealed, key@) matches Some(bytes) && !valid_utf8(bytes)),
            r matches Err(e) ==> e.spec_kind() == ErrorKind::TextEncodingError || e.spec_kind()
                == ErrorKind::WrongPassphraseOrCorrupt,
    {
        let sealed = Self::dearmor(encrypted.as_str())?;
        Self::opened(age_decrypt(sealed.as_slice(), key.as_str()))
    }

    /// The store with every present token encrypted under `key`, and marked
    /// encrypted: it holds this store's tokens under `key`. An absent token
    /// stays absent. With no token present this cannot fail.
    pub fn encrypted(&self, key: String) -> (r: Result<Keys, DeepslateError>)
        ensures
            match r {
                Ok(keys) => {
                    &&& keys.encrypted
                    &&& keys@.opens_to(key@, self@.plain())
                    &&& keys.modrinth is Some <==> self.modrinth is Some
                    &&& keys.github is Some <==> self.github is Some
                },
                Err(e) => {
                    &&& e is EncryptionError
                    &&& self.modrinth is Some || self.github is Some
                },
            },
    {
        let modrinth = match &self.modrinth {
            Some(token) => Some(Self::encrypt(token.clone(), key.clone())?),
            None => None,
        };
        let github = match &self.github {
            Some(token) => Some(Self::encrypt(token.clone(), key)?),
            None => None,
        };
        Ok(Keys { encrypted: true, modrinth, github })
    }

    /// The store with every present token decrypted with `key`, and marked
    /// plaintext: the store that this one holds under `key`. An absent token
    /// stays absent. Either every present token decrypts or the whole
    /// operation fails: no store comes back in which only some tokens were
    /// decrypted. With no token present this cannot fail; a present token
    /// that is not base64 fails it with `Base64DecodeError` where no token
    /// before it failed otherwise.
    pub fn decrypted(&self, key: String) -> (r: Result<Keys, DeepslateError>)
        ensures
            match r {
                Ok(keys) => {
                    &&& !keys.encrypted
                    &&& self@.opens_to(key@, keys@)
                    &&& keys.modrinth is Some <==> self.modrinth is Some
                    &&& keys.github is Some <==> self.github is Some
                },
                Err(e) => {
                    &&& e.spec_kind() == ErrorKind::TextEncodingError || e.spec_kind()
                        == ErrorKind::WrongPassphraseOrCorrupt
                    &&& self.modrinth is Some || self.github is Some
                },
            },
            self.modrinth matches Some(text) && base64_decoded(text@) is None ==> r matches Err(
                DeepslateError::Base64DecodeError(_),
            ),
            self.modrinth is None && (self.github matches Some(text) && base64_decoded(text@)
                is None) ==> r matches Err(DeepslateError::Base64DecodeError(_)),
    {
        let modrinth = match &self.modrinth {
            Some(token) => Some(Self::decrypt(token.clone(), key.clone())?),
            None => None,
        };
        let github = match &self.github {
            Some(token) => Some(Self::decrypt(token.clone(), key)?),
            None => None,
        };
        Ok(Keys { encrypted: false, modrinth, github })
    }
}

} // verus!
