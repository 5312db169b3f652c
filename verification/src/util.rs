//! The kinds of version, the question that asks for a passphrase, and the
//! store as it is handed to the commands.

use crate::error::{DeepslateError, ErrorKind};
use crate::keys::Keys;
use vstd::prelude::*;
use vstd::string::*;

verus! {

/// How finished a version is.
#[derive(Debug, Clone, Copy, PartialEq, Eq, Structural)]
pub enum VersionType {
    Release,
    Beta,
    Alpha,
}

impl VersionType {
    /// The name under which a kind is offered and shown.
    pub open spec fn spec_name(self) -> Seq<char> {
        match self {
            VersionType::Release => "Release"@,
            VersionType::Beta => "Beta"@,
            VersionType::Alpha => "Alpha"@,
        }
    }

    /// The name under which a kind is offered and shown.
    pub fn name(&self) -> (name: String)
        ensures
            name@ == self.spec_name(),
    {
        match self {
            VersionType::Release => String::from_str("Release"),
            VersionType::Beta => String::from_str("Beta"),
            VersionType::Alpha => String::from_str("Alpha"),
        }
    }

    /// Whether a version of this kind is published as a prerelease: every
    /// kind but `Release` is.
    pub fn prerelease(&self) -> (pre: bool)
        ensures
            pre == (*self != VersionType::Release),
    {
        match self {
            VersionType::Release => false,
            VersionType::Beta => true,
            VersionType::Alpha => true,
        }
    }

    /// The kinds, in the order in which they are offered.
    pub fn all() -> (kinds: Vec<VersionType>)
        ensures
            kinds@ == seq![VersionType::Release, VersionType::Beta, VersionType::Alpha],
    {
        vec![VersionType::Release, VersionType::Beta, VersionType::Alpha]
    }
}

/// A question for a passphrase, for the front end to put.
#[derive(Debug, Clone, PartialEq, Eq)]
pub struct Prompt {
    /// What the user is asked.
    pub message: String,
    /// Whether what is typed is shown masked.
    pub masked: bool,
    /// Whether the passphrase is to be typed twice, and accepted only if
    /// both entries agree.
    pub confirm: bool,
}

impl Prompt {
    /// Whether this is the question for a passphrase: it asks for the
    /// passphrase, masks what is typed, and has it typed twice exactly where
    /// `confirm` is set.
    pub open spec fn asks_passphrase(self, confirm: bool) -> bool {
        &&& self.message@ == "Enter your passphrase"@
        &&& self.masked
        &&& self.confirm == confirm
    }
}

/// The question for the passphrase of a store that is already encrypted:
/// it is typed once.
pub fn read_key() -> (prompt: Prompt)
    ensures
        prompt.asks_passphrase(false),
{
    read_key_confirmation(false)
}

/// The question for a passphrase, typed masked, and typed twice exactly
/// where `confirm` is set.
pub fn read_key_confirmation(confirm: bool) -> (prompt: Prompt)
    ensures
        prompt.asks_passphrase(confirm),
{
    Prompt { message: String::from_str("Enter your passphrase"), masked: true, confirm }
}

/// What is reported where an encrypted store is to be opened and no
/// passphrase was given.
pub open spec fn passphrase_missing() -> Seq<char> {
    "A passphrase is required to read the encrypted keys"@
}

/// The store in plaintext, ready for use, and the passphrase that opened it.
///
/// A plaintext store is returned as it is, with no passphrase, and `key` is
/// not looked at. An encrypted store is decrypted with `key`: on success the
/// plaintext store that it holds under `key` comes back with the passphrase
/// that was used, so that a change to it can be encrypted again without
/// asking twice. Without a passphrase an encrypted store fails with
/// `InputError`; with one, it fails as its decryption fails.
pub fn get_keys(raw: Keys, key: Option<String>) -> (r: Result<
    (Keys, Option<String>),
    DeepslateError,
>)
    ensures
        match r {
            Ok((keys, used)) => {
                if raw.encrypted {
                    &&& key matches Some(k) && used matches Some(u) && u@ == k@ && raw@.opens_to(
                        k@,
                        keys@,
                    )
                    &&& !keys.encrypted
                    &&& keys.modrinth is Some <==> raw.modrinth is Some
                    &&& keys.github is Some <==> raw.github is Some
                } else {
                    keys@ == raw@ && used is None
                }
            },
            Err(e) => {
                &&& raw.encrypted
                &&& match key {
                    None => e matches DeepslateError::InputError(message) && message@
                        == passphrase_missing(),
                    Some(_) => {
                        &&& e.spec_kind() == ErrorKind::TextEncodingError || e.spec_kind()
                            == ErrorKind::WrongPassphraseOrCorrupt
                        &&& raw.modrinth is Some || raw.github is Some
                    },
                }
            },
        },
        raw.encrypted && key is None ==> r is Err,
{
    if raw.encrypted {
        match key {
            Some(key) => {
                let keys = raw.decrypted(key.clone())?;
                Ok((keys, Some(key)))
            },
            None => Err(
                DeepslateError::InputError(
                    String::from_str("A passphrase is required to read the encrypted keys"),
                ),
            ),
        }
    } else {
        Ok((raw, None))
    }
}

} // verus!
