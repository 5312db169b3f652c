//! The commands that change the credential store.
//!
//! A store is either plaintext or encrypted. Encryption is switched on and
//! off on request only; setting or removing a token never changes which of
//! the two a store is.

use crate::error::{DeepslateError, ErrorKind};
use crate::keys::{lemma_opens_to_one_store, token_view, Keys, KeysView};
use crate::util::{get_keys, read_key, read_key_confirmation, Prompt};
use vstd::prelude::*;

verus! {

/// The services that a release can be sent to.
#[derive(Debug, Clone, Copy, PartialEq, Eq, Structural)]
pub enum Distributor {
    Modrinth,
    GitHub,
}

impl KeysView {
    /// The token held for a distributor.
    pub open spec fn token(self, distributor: Distributor) -> Option<Seq<char>> {
        match distributor {
            Distributor::Modrinth => self.modrinth,
            Distributor::GitHub => self.github,
        }
    }

    /// The store with the token of one distributor replaced.
    pub open spec fn with_token(self, distributor: Distributor, token: Option<Seq<char>>) -> KeysView {
        match distributor {
            Distributor::Modrinth => KeysView { modrinth: token, ..self },
            Distributor::GitHub => KeysView { github: token, ..self },
        }
    }
}

impl Keys {
    /// The token held for a distributor, as it is stored.
    pub fn token(&self, distributor: Distributor) -> (token: Option<String>)
        ensures
            token_view(token) == self@.token(distributor),
    {
        let held = match distributor {
            Distributor::Modrinth => &self.modrinth,
            Distributor::GitHub => &self.github,
        };
        match held {
            Some(token) => Some(token.clone()),
            None => None,
        }
    }

    /// The store with the token of one distributor replaced, and nothing
    /// else changed.
    pub fn with_token(self, distributor: Distributor, token: Option<String>) -> (keys: Keys)
        ensures
            keys@ == self@.with_token(distributor, token_view(token)),
    {
        match distributor {
            Distributor::Modrinth => Keys {
                encrypted: self.encrypted,
                modrinth: token,
                github: self.github,
            },
            Distributor::GitHub => Keys {
                encrypted: self.encrypted,
                modrinth: self.modrinth,
                github: token,
            },
        }
    }
}

/// The question to put before encryption is switched on: none where the
/// store is encrypted already, since there is then nothing to do, and else
/// one for a passphrase that is typed twice.
pub fn enable_prompt(raw: &Keys) -> (prompt: Option<Prompt>)
    ensures
        prompt is None <==> raw.encrypted,
        prompt matches Some(p) ==> p.asks_passphrase(true),
{
    if raw.encrypted {
        None
    } else {
        Some(read_key_confirmation(true))
    }
}

/// The question to put before encryption is switched off: none where the
/// store is plaintext already, and else one for the current passphrase.
pub fn disable_prompt(raw: &Keys) -> (prompt: Option<Prompt>)
    ensures
        prompt is None <==> !raw.encrypted,
        prompt matches Some(p) ==> p.asks_passphrase(false),
{
    if raw.encrypted {
        Some(read_key())
    } else {
        None
    }
}

/// The question to put before the tokens are read or changed: one for the
/// passphrase where the store is encrypted, and none where it is not.
pub fn access_prompt(raw: &Keys) -> (prompt: Option<Prompt>)
    ensures
        prompt is Some <==> raw.encrypted,
        prompt matches Some(p) ==> p.asks_passphrase(false),
{
    if raw.encrypted {
        Some(read_key())
    } else {
        None
    }
}

/// Switches encryption on. A store that is encrypted already comes back
/// unchanged, whatever the passphrase: to change the passphrase, encryption
/// is switched off and on again. A plaintext store comes back encrypted:
/// the result holds the store under `key`, with absent tokens absent.
pub fn enable(raw: Keys, key: String) -> (r: Result<Keys, DeepslateError>)
    ensures
        raw.encrypted ==> (r matches Ok(keys) && keys@ == raw@),
        match r {
            Ok(keys) => {
                &&& keys.encrypted
                &&& !raw.encrypted ==> keys@.opens_to(key@, raw@)
                &&& keys.modrinth is Some <==> raw.modrinth is Some
                &&& keys.github is Some <==> raw.github is Some
            },
            Err(e) => {
                &&& !raw.encrypted
                &&& e is EncryptionError
                &&& raw.modrinth is Some || raw.github is Some
            },
        },
{
    if raw.encrypted {
        Ok(raw)
    } else {
        assert(raw@.plain() == raw@);
        raw.encrypted(key)
    }
}

/// Switches encryption off. A store that is plaintext already comes back
/// unchanged. An encrypted store comes back as the plaintext store that it
/// holds under `key`, or the whole operation fails as the decryption of a
/// token fails.
pub fn disable(raw: Keys, key: String) -> (r: Result<Keys, DeepslateError>)
    ensures
        !raw.encrypted ==> (r matches Ok(keys) && keys@ == raw@),
        match r {
            Ok(keys) => {
                &&& !keys.encrypted
                &&& raw.encrypted ==> raw@.opens_to(key@, keys@)
                &&& keys.modrinth is Some <==> raw.modrinth is Some
                &&& keys.github is Some <==> raw.github is Some
            },
            Err(e) => {
                &&& raw.encrypted
                &&& e.spec_kind() == ErrorKind::TextEncodingError || e.spec_kind()
                    == ErrorKind::WrongPassphraseOrCorrupt
                &&& raw.modrinth is Some || raw.github is Some
            },
        },
{
    if raw.encrypted {
        raw.decrypted(key)
    } else {
        Ok(raw)
    }
}

/// What `update` owes for a store, a change and a passphrase when it returns
/// `updated`. The store stays plaintext or encrypted as it was. A plaintext
/// store has the token replaced and nothing else changed. An encrypted store
/// was opened with the passphrase, and `updated` holds, under the same
/// passphrase, what the store held with the token replaced.
pub open spec fn updates(
    raw: KeysView,
    distributor: Distributor,
    token: Option<Seq<char>>,
    key: Option<Seq<char>>,
    updated: KeysView,
) -> bool {
    if raw.encrypted {
        &&& updated.encrypted
        &&& key matches Some(k) && raw.opens_to(k, raw.held(k)) && updated.opens_to(
            k,
            raw.held(k).with_token(distributor, token),
        )
    } else {
        updated == raw.with_token(distributor, token)
    }
}

/// The store as it is persisted after the token of one distributor was set
/// (`token` is the new token) or removed (`token` is `None`).
///
/// A plaintext store has the token replaced and nothing else changed. An
/// encrypted store is decrypted with `key`, has the token replaced, and is
/// encrypted again under the same passphrase. Either way the store stays
/// what it was, plaintext or encrypted, and the other token stays as it was.
/// A plaintext store cannot fail; an encrypted one fails with `InputError`
/// without a passphrase, and else as its decryption or encryption fails.
pub fn update(raw: Keys, distributor: Distributor, token: Option<String>, key: Option<String>) -> (r:
    Result<Keys, DeepslateError>)
    ensures
        match r {
            Ok(keys) => {
                &&& updates(raw@, distributor, token_view(token), token_view(key), keys@)
                &&& keys.encrypted == raw.encrypted
                &&& keys@.token(distributor) is Some <==> token is Some
            },
            Err(e) => {
                &&& raw.encrypted
                &&& key is None <==> e is InputError
                &&& !(e is Error)
            },
        },
{
    let ghost before = raw@;
    let (keys, used) = get_keys(raw, key)?;
    let ghost opened = keys@;
    let keys = keys.with_token(distributor, token);
    match used {
        Some(key) => {
            proof {
                lemma_opens_to_one_store(before, key@, opened);
                assert(keys@.plain() == keys@);
            }
            keys.encrypted(key)
        },
        None => Ok(keys),
    }
}

/// Sets the token of one distributor: see [`update`].
pub fn set_token(raw: Keys, distributor: Distributor, token: String, key: Option<String>) -> (r:
    Result<Keys, DeepslateError>)
    ensures
        match r {
            Ok(keys) => {
                &&& updates(raw@, distributor, Some(token@), token_view(key), keys@)
                &&& keys.encrypted == raw.encrypted
                &&& keys@.token(distributor) is Some
            },
            Err(e) => {
                &&& raw.encrypted
                &&& key is None <==> e is InputError
                &&& !(e is Error)
            },
        },
{
    update(raw, distributor, Some(token), key)
}

/// Removes the token of one distributor: see [`update`].
pub fn remove_token(raw: Keys, distributor: Distributor, key: Option<String>) -> (r: Result<
    Keys,
    DeepslateError,
>)
    ensures
        match r {
            Ok(keys) => {
                &&& updates(raw@, distributor, None, token_view(key), keys@)
                &&& keys.encrypted == raw.encrypted
                &&& keys@.token(distributor) is None
            },
            Err(e) => {
                &&& raw.encrypted
                &&& key is None <==> e is InputError
                &&& !(e is Error)
            },
        },
{
    update(raw, distributor, None, key)
}

} // verus!
