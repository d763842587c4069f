//! `SettingsService`: the rules for saving, checking and clearing the
//! OpenAI API key, and for testing it against the provider.

use crate::credentials::CredentialStore;
use crate::errors::{is_validation, AppError};
use crate::text::{apply_text_rule, follows_rule, text_rule};
use vstd::prelude::*;

verus! {

/// Longest API key, in Unicode scalar values.
pub const MAX_KEY_LENGTH: usize = 2000;

/// The rules of an API key: required, at most 2000 characters, trimmed.
pub open spec fn api_key_rule(raw: Seq<char>) -> Result<Seq<char>, Seq<char>> {
    text_rule(
        raw,
        true,
        2000,
        "API key is required."@,
        "API key must be 2000 characters or fewer."@,
    )
}

/// The message of a connection test with no saved key.
pub open spec fn no_key_message() -> Seq<char> {
    "Save an API key first."@
}

pub struct SettingsService<C: CredentialStore> {
    credentials: C,
}

impl<C: CredentialStore> SettingsService<C> {
    /// The saved key, if any.
    pub closed spec fn saved_key(&self) -> Option<Seq<char>> {
        self.credentials.saved_key()
    }

    /// Whether every operation on the credential store succeeds.
    pub closed spec fn reliable(&self) -> bool {
        self.credentials.reliable()
    }

    pub fn new(credentials: C) -> (s: Self)
        ensures
            s.saved_key() == credentials.saved_key(),
            s.reliable() == credentials.reliable(),
    {
        SettingsService { credentials }
    }

    /// The credential store the service was made of.
    pub fn into_store(self) -> (r: C)
        ensures
            r.saved_key() == self.saved_key(),
            r.reliable() == self.reliable(),
    {
        self.credentials
    }

    /// Trims and validates `raw_key`, then saves it in place of any saved key.
    pub fn save_api_key(&mut self, raw_key: &str) -> (r: Result<(), AppError>)
        ensures
            final(self).reliable() == old(self).reliable(),
            match api_key_rule(raw_key@) {
                Err(m) => r matches Err(e) && is_validation(e, m) && final(self).saved_key() == old(self).saved_key(),
                Ok(k) => match r {
                    Ok(_) => final(self).saved_key() == Some(k),
                    Err(e) => e is Credential && final(self).saved_key() == old(self).saved_key(),
                },
            },
            old(self).reliable() ==> (r is Ok <==> api_key_rule(raw_key@) is Ok),
    {
        let key = apply_text_rule(
            raw_key,
            true,
            MAX_KEY_LENGTH,
            "API key is required.",
            "API key must be 2000 characters or fewer.",
        )?;
        self.credentials.save_api_key(key.as_str())
    }

    /// Whether a key is saved.
    pub fn has_api_key(&self) -> (r: Result<bool, AppError>)
        ensures
            match r {
                Ok(b) => b == self.saved_key() is Some,
                Err(e) => e is Credential,
            },
            self.reliable() ==> r is Ok,
    {
        Ok(self.credentials.get_api_key()?.is_some())
    }

    /// Forgets the saved key.
    pub fn clear_api_key(&mut self) -> (r: Result<(), AppError>)
        ensures
            final(self).reliable() == old(self).reliable(),
            match r {
                Ok(_) => final(self).saved_key() is None,
                Err(e) => e is Credential && final(self).saved_key() == old(self).saved_key(),
            },
            old(self).reliable() ==> r is Ok,
    {
        self.credentials.clear_api_key()
    }

    /// Hands the saved key to `test_connection` and gives its answer;
    /// without a saved key, fails before calling it.
    pub fn test_connection<T: FnOnce(&str) -> Result<(), AppError>>(&self, test_connection: T) -> (r:
        Result<(), AppError>)
        requires
            forall|k: &str| test_connection.requires((k,)),
        ensures
            match self.saved_key() {
                None => r matches Err(e) && (is_validation(e, no_key_message()) || e is Credential),
                Some(k) => (r matches Err(e) && e is Credential) || exists|key: &str|
                    key@ == k && test_connection.ensures((key,), r),
            },
            self.reliable() && self.saved_key() is None ==> (r matches Err(e) && is_validation(
                e,
                no_key_message(),
            )),
            self.reliable() && self.saved_key() is Some ==> exists|key: &str|
                key@ == self.saved_key()->0 && test_connection.ensures((key,), r),
    {
        let key = match self.credentials.get_api_key()? {
            Some(k) => k,
            None => return Err(AppError::validation("Save an API key first.")),
        };
        let key_str = key.as_str();
        let r = test_connection(key_str);
        assert(test_connection.ensures((key_str,), r));
        r
    }
}

} // verus!
