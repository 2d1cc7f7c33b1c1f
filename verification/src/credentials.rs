//! Which credential to offer when the remote asks for one.

use vstd::prelude::*;
use vstd::string::StringExecFns;

verus! {

/// The bit by which a remote says that it accepts a bare user name.
pub const USERNAME: u32 = 32;

/// A credential to offer to the remote.
#[derive(Debug, PartialEq, Eq)]
pub enum Credential {
    /// Only a user name.
    Username { user: String },
    /// A private key on disk, for the given user.
    SshKey { user: String, private_key: String },
    /// Nothing can be offered: a key is needed and none is configured.
    Unavailable,
}

/// The user name used when the remote's URL names none.
pub open spec fn fallback_user() -> Seq<char> {
    "git"@
}

/// The user to authenticate as: the one the URL names, else the fallback.
pub open spec fn effective_user(user_from_url: Option<Seq<char>>) -> Seq<char> {
    match user_from_url {
        Some(user) => user,
        None => fallback_user(),
    }
}

/// Whether the credential types that the remote allows include a bare user name.
pub open spec fn accepts_username(allowed: u32) -> bool {
    allowed & USERNAME != 0
}

/// The credential that `choose_credential` picks is the right one for the
/// request: a user name where one is accepted, otherwise the configured key,
/// otherwise nothing.
pub open spec fn answers(
    credential: Credential,
    user_from_url: Option<Seq<char>>,
    allowed: u32,
    private_key: Option<Seq<char>>,
) -> bool {
    match credential {
        Credential::Username { user } => {
            &&& accepts_username(allowed)
            &&& user@ == effective_user(user_from_url)
        },
        Credential::SshKey { user, private_key: key } => {
            &&& !accepts_username(allowed)
            &&& private_key == Some(key@)
            &&& user@ == effective_user(user_from_url)
        },
        Credential::Unavailable => {
            &&& !accepts_username(allowed)
            &&& private_key is None
        },
    }
}

/// Whether the engine can take `text`: its strings end at the first NUL
/// character, so it refuses a text that holds one.
pub open spec fn representable(text: Seq<char>) -> bool {
    !text.contains('\0')
}

/// Whether a credential can be offered for the request: the one that
/// `choose_credential` picks exists and is made of texts that the engine can
/// take.
pub open spec fn can_offer(
    user_from_url: Option<Seq<char>>,
    allowed: u32,
    private_key: Option<Seq<char>>,
) -> bool {
    let user = effective_user(user_from_url);
    if accepts_username(allowed) {
        representable(user)
    } else {
        match private_key {
            Some(key) => representable(user) && representable(key),
            None => false,
        }
    }
}

/// The views of an optional string slice.
pub open spec fn text_of(text: Option<&str>) -> Option<Seq<char>> {
    match text {
        Some(t) => Some(t@),
        None => None,
    }
}

/// Picks the credential to offer: the user comes from the remote's URL, or is
/// `git`; where a bare user name is accepted, that is the answer; otherwise
/// the private key at the configured path, if one is configured.
pub fn choose_credential(user_from_url: Option<&str>, allowed: u32, private_key: Option<&str>) -> (credential: Credential)
    ensures
        answers(credential, text_of(user_from_url), allowed, text_of(private_key)),
{
    let user = match user_from_url {
        Some(u) => String::from_str(u),
        None => String::from_str("git"),
    };
    if allowed & USERNAME != 0 {
        Credential::Username { user }
    } else {
        match private_key {
            Some(key) => Credential::SshKey { user, private_key: String::from_str(key) },
            None => Credential::Unavailable,
        }
    }
}

} // verus!
