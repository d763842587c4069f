//! Where the OpenAI API key is kept: the OS credential store in the
//! desktop app, memory elsewhere.

use crate::errors::AppError;
use vstd::prelude::*;

verus! {

/// The credential service name the key is saved under.
pub const SERVICE: &'static str = "GoLive";

/// The credential account the key is saved under.
pub const ACCOUNT: &'static str = "openai_api_key";

/// A store holding at most one API key.
pub trait CredentialStore {
    /// The saved key, if any.
    spec fn saved_key(&self) -> Option<Seq<char>>;

    /// Whether every operation on the store succeeds.
    spec fn reliable(&self) -> bool;

    /// Saves `key`, replacing any saved key.
    fn save_api_key(&mut self, key: &str) -> (r: Result<(), AppError>)
        ensures
            match r {
                Ok(_) => final(self).saved_key() == Some(key@),
                Err(e) => e is Credential && final(self).saved_key() == old(self).saved_key(),
            },
            final(self).reliable() == old(self).reliable(),
            old(self).reliable() ==> r is Ok,
    ;

    /// The saved key; `None` when none is saved.
    fn get_api_key(&self) -> (r: Result<Option<String>, AppError>)
        ensures
            match r {
                Ok(Some(k)) => self.saved_key() == Some(k@),
                Ok(None) => self.saved_key() is None,
                Err(e) => e is Credential,
            },
            self.reliable() ==> r is Ok,
    ;

    /// Forgets the saved key; clearing an empty store is no error.
    fn clear_api_key(&mut self) -> (r: Result<(), AppError>)
        ensures
            match r {
                Ok(_) => final(self).saved_key() is None,
                Err(e) => e is Credential && final(self).saved_key() == old(self).saved_key(),
            },
            final(self).reliable() == old(self).reliable(),
            old(self).reliable() ==> r is Ok,
    ;
}

/// An API key held in memory.
pub struct MemoryCredentialStore {
    key: Option<String>,
}

impl MemoryCredentialStore {
    pub fn new() -> (r: Self)
        ensures
            r.saved_key() is None,
            r.reliable(),
    {
        MemoryCredentialStore { key: None }
    }
}

impl CredentialStore for MemoryCredentialStore {
    closed spec fn saved_key(&self) -> Option<Seq<char>> {
        match self.key {
            Some(k) => Some(k@),
            None => None,
        }
    }

    closed spec fn reliable(&self) -> bool {
        true
    }

    fn save_api_key(&mut self, key: &str) -> (r: Result<(), AppError>) {
        self.key = Some(String::from_str(key));
        Ok(())
    }

    fn get_api_key(&self) -> (r: Result<Option<String>, AppError>) {
        match &self.key {
            Some(k) => Ok(Some(k.clone())),
            None => Ok(None),
        }
    }

    fn clear_api_key(&mut self) -> (r: Result<(), AppError>) {
        self.key = None;
        Ok(())
    }
}

} // verus!
