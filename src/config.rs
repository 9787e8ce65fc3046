//! Defaults of the configuration file and the node credentials policy.
use vstd::prelude::*;
use vstd::string::*;

verus! {

pub fn default_listen_address() -> (r: String)
    ensures
        r@ == "0.0.0.0:18777"@,
{
    String::from_str("0.0.0.0:18777")
}

pub fn default_database_path() -> (r: String)
    ensures
        r@ == "/root/bitcoin-faucet/db.sqlite"@,
{
    String::from_str("/root/bitcoin-faucet/db.sqlite")
}

/// The value of an environment variable, or the empty text when it is unset
/// or unreadable.
pub fn from_env_or_default(value: Option<String>) -> (r: String)
    ensures
        r@ == (match value {
            Some(v) => v@,
            None => Seq::<char>::empty(),
        }),
{
    match value {
        Some(v) => v,
        None => String::new(),
    }
}

/// Node user name when the file gives none: the environment's value, if any.
pub fn default_bitcoin_username(env_value: Option<String>) -> (r: String)
    ensures
        r@ == (match env_value {
            Some(v) => v@,
            None => Seq::<char>::empty(),
        }),
{
    from_env_or_default(env_value)
}

/// Node password when the file gives none: the environment's value, if any.
pub fn default_bitcoin_password(env_value: Option<String>) -> (r: String)
    ensures
        r@ == (match env_value {
            Some(v) => v@,
            None => Seq::<char>::empty(),
        }),
{
    from_env_or_default(env_value)
}

/// Credentials for the node: none when the user name or the password is empty.
pub fn bitcoin_auth(username: String, password: String) -> (r: Option<(String, String)>)
    ensures
        (username@.len() == 0 || password@.len() == 0) ==> r.is_none(),
        (username@.len() > 0 && password@.len() > 0) ==> (r matches Some(p) && p.0@ == username@
            && p.1@ == password@),
{
    if username.as_str().unicode_len() == 0 || password.as_str().unicode_len() == 0 {
        None
    } else {
        Some((username, password))
    }
}

} // verus!
