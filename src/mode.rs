//! Operating mode (customer or admin) and the admin password, kept only as
//! an Argon2 hash.

use argon2::{PasswordHasher, PasswordVerifier};
use vstd::prelude::*;

verus! {

#[derive(Clone, Copy, Debug, PartialEq, Eq, Structural)]
pub enum BoothyMode {
    Customer,
    Admin,
}

impl Default for BoothyMode {
    fn default() -> (r: BoothyMode)
        ensures
            r == BoothyMode::Customer,
    {
        BoothyMode::Customer
    }
}

/// Mode shown to the UI.
#[derive(Clone, Copy, Debug, PartialEq, Eq, Structural)]
pub struct ModeState {
    pub mode: BoothyMode,
    pub has_admin_password: bool,
}

/// Whether `password` matches the PHC hash string `hash`; none when the
/// hash cannot be parsed.
pub uninterp spec fn argon2_verdict(password: Seq<char>, hash: Seq<char>) -> Option<bool>;

/// Relies on `argon2::PasswordHash::new` and `Argon2::verify_password`: the
/// verdict depends on the password and the stored hash alone.
#[verifier::external_body]
fn verify_password_hash(password: &str, hash: &str) -> (r: Result<bool, String>)
    ensures
        r is Ok <==> argon2_verdict(password@, hash@) is Some,
        r is Ok ==> r->Ok_0 == argon2_verdict(password@, hash@)->0,
{
    match argon2::PasswordHash::new(hash) {
        Ok(parsed) => Ok(argon2::Argon2::default().verify_password(password.as_bytes(), &parsed).is_ok()),
        Err(e) => Err(format!("Failed to parse stored hash: {}", e)),
    }
}

/// Relies on `argon2::Argon2::hash_password` with a salt drawn from the
/// operating system's generator: a PHC string, or the hasher's error text.
#[verifier::external_body]
fn hash_new_password(password: &str) -> (r: Result<String, String>)
{
    let salt = argon2::password_hash::SaltString::generate(&mut argon2::password_hash::rand_core::OsRng);
    match argon2::Argon2::default().hash_password(password.as_bytes(), &salt) {
        Ok(h) => Ok(h.to_string()),
        Err(e) => Err(format!("Failed to hash password: {}", e)),
    }
}

/// Current mode and admin password hash.
#[derive(Debug)]
pub struct ModeManager {
    pub current_mode: BoothyMode,
    pub admin_password_hash: Option<String>,
}

impl ModeManager {
    /// Starts in customer mode without a password.
    pub fn new() -> (r: ModeManager)
        ensures
            r.current_mode == BoothyMode::Customer,
            r.admin_password_hash is None,
    {
        ModeManager { current_mode: BoothyMode::Customer, admin_password_hash: None }
    }

    pub fn get_mode(&self) -> (r: BoothyMode)
        ensures
            r == self.current_mode,
    {
        self.current_mode
    }

    pub fn is_admin(&self) -> (r: bool)
        ensures
            r == (self.current_mode == BoothyMode::Admin),
    {
        self.current_mode == BoothyMode::Admin
    }

    /// Stores a fresh salted hash of `password`; on a hashing error nothing changes.
    pub fn set_admin_password(&mut self, password: &str) -> (r: Result<(), String>)
        ensures
            final(self).current_mode == old(self).current_mode,
            r is Ok ==> final(self).admin_password_hash is Some,
            r is Err ==> final(self).admin_password_hash == old(self).admin_password_hash,
    {
        match hash_new_password(password) {
            Ok(h) => {
                self.admin_password_hash = Some(h);
                Ok(())
            },
            Err(e) => Err(e),
        }
    }

    /// Switches to admin mode when the verdict on the password is positive.
    pub fn conclude_authentication(&mut self, valid: bool) -> (r: bool)
        ensures
            r == valid,
            final(self).current_mode == (if valid { BoothyMode::Admin } else { old(self).current_mode }),
            final(self).admin_password_hash == old(self).admin_password_hash,
    {
        if valid {
            self.current_mode = BoothyMode::Admin;
        }
        valid
    }

    /// Checks `password` against the stored hash and enters admin mode when
    /// it matches. Without a stored hash the answer is no; an unreadable
    /// hash is an error.
    pub fn authenticate(&mut self, password: &str) -> (r: Result<bool, String>)
        ensures
            final(self).admin_password_hash == old(self).admin_password_hash,
            old(self).admin_password_hash is None ==> r == Ok::<bool, String>(false)
                && final(self).current_mode == old(self).current_mode,
            old(self).admin_password_hash is Some ==> {
                let v = argon2_verdict(password@, old(self).admin_password_hash->0@);
                &&& (r is Ok <==> v is Some)
                &&& (r is Ok ==> r->Ok_0 == v->0)
                &&& final(self).current_mode == (if v == Some(true) { BoothyMode::Admin } else {
                    old(self).current_mode
                })
            },
    {
        let verdict = match &self.admin_password_hash {
            None => return Ok(false),
            Some(h) => verify_password_hash(password, h.as_str()),
        };
        match verdict {
            Ok(valid) => Ok(self.conclude_authentication(valid)),
            Err(e) => Err(e),
        }
    }

    pub fn switch_to_customer_mode(&mut self)
        ensures
            final(self).current_mode == BoothyMode::Customer,
            final(self).admin_password_hash == old(self).admin_password_hash,
    {
        self.current_mode = BoothyMode::Customer;
    }

    pub fn has_admin_password(&self) -> (r: bool)
        ensures
            r == self.admin_password_hash is Some,
    {
        self.admin_password_hash.is_some()
    }

    pub fn get_password_hash(&self) -> (r: Option<String>)
        ensures
            r == self.admin_password_hash,
    {
        match &self.admin_password_hash {
            Some(h) => Some(h.clone()),
            None => None,
        }
    }

    /// Restores a hash saved in settings.
    pub fn load_password_hash(&mut self, hash: String)
        ensures
            final(self).admin_password_hash == Some(hash),
            final(self).current_mode == old(self).current_mode,
    {
        self.admin_password_hash = Some(hash);
    }

    pub fn mode_state(&self) -> (r: ModeState)
        ensures
            r.mode == self.current_mode,
            r.has_admin_password == self.admin_password_hash is Some,
    {
        ModeState { mode: self.current_mode, has_admin_password: self.admin_password_hash.is_some() }
    }
}

} // verus!
