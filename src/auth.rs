use vstd::prelude::*;
use vstd::string::StringExecFns;
use crate::automation::Credentials;
use crate::text::{is_blank, trimmed};

verus! {

impl Credentials {
    /// A copy of the credentials.
    pub fn duplicate(&self) -> (r: Credentials)
        ensures
            r == *self,
    {
        Credentials { username: self.username.clone(), password: self.password.clone() }
    }
}

/// The length of a text in UTF-8 bytes, as `str::len` reports it.
pub open spec fn byte_len(s: Seq<char>) -> nat {
    (vstd::utf8::encode_utf8(s).len() as usize) as nat
}

/// Why a user name and password pair is refused, if it is.
pub open spec fn credentials_error(username: Seq<char>, password: Seq<char>) -> Option<Seq<char>> {
    if trimmed(username).len() == 0 {
        Some("Username cannot be empty"@)
    } else if password.len() == 0 {
        Some("Password cannot be empty"@)
    } else if byte_len(username) < 3 {
        Some("Username must be at least 3 characters"@)
    } else if byte_len(password) < 3 {
        Some("Password must be at least 3 characters"@)
    } else {
        None
    }
}

/// Holds the user's credentials for the session.
#[derive(Debug, Clone)]
pub struct AuthService {
    credentials: Option<Credentials>,
}

impl AuthService {
    /// The credentials stored, if any.
    pub closed spec fn stored(&self) -> Option<Credentials> {
        self.credentials
    }

    pub fn new() -> (r: AuthService)
        ensures
            r.stored() is None,
    {
        AuthService { credentials: None }
    }

    /// Stores credentials for the session.
    pub fn store_credentials(&mut self, username: String, password: String) -> (r: Result<(), String>)
        ensures
            r is Ok,
            final(self).stored() == Some(Credentials { username, password }),
    {
        self.credentials = Some(Credentials { username, password });
        Ok(())
    }

    /// A copy of the stored credentials.
    pub fn get_credentials(&self) -> (r: Option<Credentials>)
        ensures
            r == self.stored(),
    {
        match &self.credentials {
            Some(c) => Some(c.duplicate()),
            None => None,
        }
    }

    pub fn has_credentials(&self) -> (r: bool)
        ensures
            r == self.stored() is Some,
    {
        self.credentials.is_some()
    }

    /// Forgets the stored credentials.
    pub fn clear_credentials(&mut self) -> (r: Result<(), String>)
        ensures
            r is Ok,
            final(self).stored() is None,
    {
        self.credentials = None;
        Ok(())
    }

    /// The stored user name, if any.
    pub fn get_username(&self) -> (r: Option<String>)
        ensures
            match self.stored() {
                Some(c) => r == Some(c.username),
                None => r is None,
            },
    {
        match &self.credentials {
            Some(c) => Some(c.username.clone()),
            None => None,
        }
    }

    /// Checks the form of a user name and password: both present and at
    /// least three bytes long.
    pub fn validate_credentials(username: &str, password: &str) -> (r: Result<(), String>)
        ensures
            match credentials_error(username@, password@) {
                Some(m) => r matches Err(e) && e@ == m,
                None => r is Ok,
            },
    {
        if is_blank(username) {
            return Err(String::from_str("Username cannot be empty"));
        }
        if password.unicode_len() == 0 {
            return Err(String::from_str("Password cannot be empty"));
        }
        if username.len() < 3 {
            return Err(String::from_str("Username must be at least 3 characters"));
        }
        if password.len() < 3 {
            return Err(String::from_str("Password must be at least 3 characters"));
        }
        Ok(())
    }
}

} // verus!
