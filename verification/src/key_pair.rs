//! The key of the node as it is kept on disk.

use vstd::prelude::*;

verus! {

/// The name of the key file in the data directory.
pub const KEY_FILENAME: &'static str = "key";

/// Times that the passphrase is asked for before the node gives up.
pub const PASSWORD_ATTEMPTS: u32 = 3;

/// A failure to get the key, with its text.
#[derive(Debug, Default)]
pub struct KeyPairError {
    pub message: String,
}

pub type Result<T> = std::result::Result<T, KeyPairError>;

/// The key file: the initialisation vector and the encrypted key.
#[derive(Debug)]
pub struct LocalKey {
    pub iv: Vec<u8>,
    pub local_key: Vec<u8>,
}

/// What to do after an attempt to decrypt the key.
#[derive(Debug, Clone, Copy, PartialEq, Eq, Structural)]
pub enum Attempt {
    /// The key is there.
    Unlocked,
    /// Ask for the passphrase again; so many attempts are left.
    Retry(u32),
    /// Give up.
    GiveUp,
}

/// What to do after attempt number `made` (the first is 1) to decrypt the
/// key: done where it succeeded, else again until
/// [`PASSWORD_ATTEMPTS`] were made.
pub fn after_attempt(made: u32, decrypted: bool) -> (next: Attempt)
    ensures
        next == if decrypted {
            Attempt::Unlocked
        } else if 1 <= made < PASSWORD_ATTEMPTS {
            Attempt::Retry((PASSWORD_ATTEMPTS - made) as u32)
        } else {
            Attempt::GiveUp
        },
{
    if decrypted {
        Attempt::Unlocked
    } else if 1 <= made && made < PASSWORD_ATTEMPTS {
        Attempt::Retry(PASSWORD_ATTEMPTS - made)
    } else {
        Attempt::GiveUp
    }
}

/// Checks that a new passphrase was entered the same twice.
pub fn confirm_password(first: &String, second: &String) -> (res: Result<()>)
    ensures
        first@ == second@ ==> res is Ok,
        first@ != second@ ==> res is Err && res.unwrap_err().message@
            == "Entered passwords differ"@,
{
    if *first == *second {
        Ok(())
    } else {
        Err(KeyPairError { message: "Entered passwords differ".to_owned() })
    }
}

} // verus!
