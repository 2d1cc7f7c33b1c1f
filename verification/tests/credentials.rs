use gpm::credentials::choose_credential;
use gpm::credentials::Credential;
use gpm::credentials::USERNAME;
use gpm::error::missing_key_text;
use gpm::gateway::git_credentials_callback;

#[test]
fn username_is_offered_where_the_remote_accepts_one() {
    let chosen = choose_credential(Some("alice"), USERNAME, Some("/keys/id"));
    assert_eq!(chosen, Credential::Username { user: String::from("alice") });
}

#[test]
fn user_defaults_to_git() {
    let chosen = choose_credential(None, USERNAME, None);
    assert_eq!(chosen, Credential::Username { user: String::from("git") });
}

#[test]
fn username_bit_is_found_among_others() {
    let chosen = choose_credential(Some("bob"), USERNAME | 2 | 64, None);
    assert_eq!(chosen, Credential::Username { user: String::from("bob") });
}

#[test]
fn key_is_offered_where_a_username_is_not_enough() {
    let chosen = choose_credential(Some("alice"), 2, Some("/keys/id"));
    assert_eq!(
        chosen,
        Credential::SshKey { user: String::from("alice"), private_key: String::from("/keys/id") }
    );
    let fallback = choose_credential(None, 0, Some("/keys/id"));
    assert_eq!(
        fallback,
        Credential::SshKey { user: String::from("git"), private_key: String::from("/keys/id") }
    );
}

#[test]
fn nothing_is_offered_without_a_key() {
    assert_eq!(choose_credential(Some("alice"), 2, None), Credential::Unavailable);
    assert_eq!(choose_credential(None, !USERNAME, None), Credential::Unavailable);
}

#[test]
fn callback_fails_with_the_missing_key_message() {
    let answer = git_credentials_callback(Some("alice"), 2, None);
    match answer {
        Ok(_) => panic!("a credential was offered without a key"),
        Err(error) => {
            assert_eq!(error.message(), "unable to get private key from GPM_SSH_KEY");
            assert_eq!(error.message(), missing_key_text());
        }
    }
}

#[test]
fn callback_builds_a_username_credential() {
    let answer = git_credentials_callback(None, USERNAME, None);
    match answer {
        Ok(credential) => assert_eq!(credential.credtype(), USERNAME),
        Err(error) => panic!("no credential: {}", error.message()),
    }
}

#[test]
fn callback_builds_a_key_credential() {
    let answer = git_credentials_callback(Some("alice"), 2, Some("/keys/id"));
    match answer {
        Ok(credential) => {
            assert!(credential.has_username());
            assert_ne!(credential.credtype(), USERNAME);
        }
        Err(error) => panic!("no credential: {}", error.message()),
    }
}

#[test]
fn username_bit_is_the_one_of_the_engine() {
    assert_eq!(USERNAME, git2::CredentialType::USERNAME.bits());
}

#[test]
fn callback_fails_whenever_nothing_can_be_offered() {
    for allowed in [0u32, 1, 2, 4, 8, 16, 64, !USERNAME] {
        for user in [None, Some("alice")] {
            assert!(git_credentials_callback(user, allowed, None).is_err());
        }
    }
}

#[test]
fn callback_refuses_a_text_that_holds_a_nul() {
    assert!(git_credentials_callback(Some("al\0ice"), USERNAME, None).is_err());
    assert!(git_credentials_callback(Some("al\0ice"), 2, Some("/keys/id")).is_err());
    assert!(git_credentials_callback(Some("alice"), 2, Some("/keys/\0id")).is_err());
    assert!(git_credentials_callback(Some("alice"), USERNAME, Some("/keys/\0id")).is_ok());
    assert!(git_credentials_callback(None, 2, Some("/keys/id")).is_ok());
    assert!(git_credentials_callback(Some(""), USERNAME, None).is_ok());
}
