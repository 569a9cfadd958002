//! Login: the single account of the configuration, checked by the md5
//! password exchange.
use vstd::prelude::*;

use crate::config::FatherDuckConfig;
use crate::error::AuthError;
use crate::text::str_eq;
use vstd::string::StringExecFns;

verus! {

/// What the md5 password exchange expects from a client: "md5" followed by
/// the hex digest of the hex digest of password and user name, salted.
pub uninterp spec fn md5_password_of(username: Seq<char>, password: Seq<char>, salt: Seq<u8>) -> Seq<char>;

/// Relies on pgwire's `hash_md5_password`, a digest of its three arguments alone.
#[verifier::external_body]
fn md5_password(username: &str, password: &str, salt: &[u8]) -> (r: String)
    ensures
        r@ == md5_password_of(username@, password@, salt@),
{
    pgwire::api::auth::md5pass::hash_md5_password(username, password, salt)
}

/// The salt of every login.
pub open spec fn login_salt() -> Seq<u8> {
    seq![0u8, 0u8, 0u8, 0u8]
}

/// What the server holds a login against: the salt it sends, and the salted
/// hash it expects back.
#[derive(Debug)]
pub struct Password {
    pub salt: Vec<u8>,
    pub hash: String,
}

/// Answers logins for the one configured account.
#[derive(Debug)]
pub struct FatherDuckAuthSource {
    pub username: String,
    pub password: String,
}

impl FatherDuckAuthSource {
    pub fn new(config: &FatherDuckConfig) -> (r: FatherDuckAuthSource)
        ensures
            r.username@ == config.username@,
            r.password@ == config.password@,
    {
        FatherDuckAuthSource { username: config.username.clone(), password: config.password.clone() }
    }

    /// The password a client naming `user` must prove: refused when no user
    /// is named or another than the configured one.
    pub fn get_password(&self, user: Option<&str>) -> (r: Result<Password, AuthError>)
        ensures
            user is None ==> r matches Err(AuthError::UserNameRequired),
            user is Some && user->0@ != self.username@ ==> (r matches Err(
                AuthError::InvalidUsername(n),
            ) && n@ == user->0@),
            user is Some && user->0@ == self.username@ ==> (r matches Ok(p) && p.salt@
                == login_salt() && p.hash@ == md5_password_of(
                user->0@,
                self.password@,
                login_salt(),
            )),
    {
        match user {
            None => Err(AuthError::UserNameRequired),
            Some(u) => {
                if !str_eq(u, self.username.as_str()) {
                    return Err(AuthError::InvalidUsername(String::from_str(u)));
                }
                let salt: Vec<u8> = vec![0u8, 0u8, 0u8, 0u8];
                assert(salt@ =~= login_salt());
                let hash = md5_password(u, self.password.as_str(), salt.as_slice());
                Ok(Password { salt, hash })
            },
        }
    }
}

} // verus!
