//! Where the credential lives, and what a read of it amounts to.
use vstd::prelude::*;
use crate::codec::{parse, token_fits, Config, RecordView};
use crate::error::ClientError;

verus! {

/// The per-user directory of the client, under the home directory.
pub const DIR_NAME: &'static str = ".blc";

/// The credential file, inside that directory.
pub const FILE_NAME: &'static str = "blc.b";

/// The home directory: `HOME` where it is set, else `USERPROFILE`.
pub fn home_dir(home: Option<String>, profile: Option<String>) -> (r: Option<String>)
    ensures
        r == (if home is Some {
            home
        } else {
            profile
        }),
{
    match home {
        Some(h) => Some(h),
        None => profile,
    }
}

impl Config {
    /// The credential of this user, from the contents of the credential
    /// file, or `None` where there is no such file: that is the sign that
    /// nobody logged in.
    pub fn init(stored: Option<Vec<u8>>) -> (r: Result<Config, ClientError>)
        ensures
            match stored {
                None => r matches Err(ClientError::UnAuth),
                Some(b) => match parse(b@) {
                    Ok(v) => r matches Ok(c) && c@ == v && token_fits(c@),
                    Err(e) => r matches Err(ClientError::Credential(d)) && d == e,
                },
            },
    {
        match stored {
            None => Err(ClientError::UnAuth),
            Some(b) => match Config::decode(b.as_slice()) {
                Ok(c) => Ok(c),
                Err(e) => Err(ClientError::Credential(e)),
            },
        }
    }
}

} // verus!
