//! The credential store: an ordered, read-only list of account credentials,
//! loaded once at startup and addressed by the rotation index.

use vstd::prelude::*;

verus! {

/// A failure to assemble the credential store.
#[derive(PartialEq, Eq, Structural, Clone, Copy, Debug)]
pub enum ConfigError {
    /// The configuration held no credential at all.
    NoCredentials,
}

/// The ordered credential list. Immutable once loaded; accounts are
/// addressed by index, cyclically.
pub struct CredentialStore {
    tokens: Vec<String>,
}

impl View for CredentialStore {
    type V = Seq<Seq<char>>;

    closed spec fn view(&self) -> Seq<Seq<char>> {
        self.tokens@.map_values(|t: String| t@)
    }
}

impl CredentialStore {
    /// Builds the store from the credentials read out of configuration;
    /// a configuration without a single credential is rejected.
    pub fn load(tokens: Vec<String>) -> (r: Result<CredentialStore, ConfigError>)
        ensures
            tokens@.len() == 0 ==> (r matches Err(ConfigError::NoCredentials)),
            tokens@.len() > 0 ==> (r matches Ok(c) && c@ == tokens@.map_values(
                |t: String| t@,
            ) && c@.len() == tokens@.len()),
    {
        if tokens.len() == 0 {
            Err(ConfigError::NoCredentials)
        } else {
            Ok(CredentialStore { tokens })
        }
    }

    /// How many credentials the rotation cycles through.
    pub fn count(&self) -> (n: usize)
        ensures
            n == self@.len(),
    {
        self.tokens.len()
    }

    /// The credential at one rotation index.
    pub fn token(&self, i: usize) -> (t: &String)
        requires
            i < self@.len(),
        ensures
            t@ == self@[i as int],
    {
        &self.tokens[i]
    }
}

} // verus!
