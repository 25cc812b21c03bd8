use cache_gate::fetcher::{holder_url, token_url, FetchError};

const MARK: &str = "invalid type: null, expected a sequence";

#[test]
fn cause_with_the_mark_is_an_invalid_key() {
    let cause = "error decoding response body: invalid type: null, expected a sequence at line 1 column 43";
    assert_eq!(FetchError::from_cause(cause.to_string()), FetchError::InvalidKey(cause.to_string()));
}

#[test]
fn cause_that_is_the_mark_alone_is_an_invalid_key() {
    assert_eq!(FetchError::from_cause(MARK.to_string()), FetchError::InvalidKey(MARK.to_string()));
}

#[test]
fn mark_at_either_end_is_found() {
    let front = format!("{} and more", MARK);
    let back = format!("more and {}", MARK);
    assert_eq!(FetchError::from_cause(front.clone()), FetchError::InvalidKey(front));
    assert_eq!(FetchError::from_cause(back.clone()), FetchError::InvalidKey(back));
}

#[test]
fn cause_without_the_mark_is_a_transport_failure() {
    for cause in [
        "",
        "error sending request for url (https://api/token/X): connection refused",
        "invalid type: null, expected a sequenc",
        "nvalid type: null, expected a sequence",
        "invalid type: null,  expected a sequence",
        "Invalid type: null, expected a sequence",
        "invalid type: nullinvalid type: null, expected a sequenc",
    ] {
        assert_eq!(
            FetchError::from_cause(cause.to_string()),
            FetchError::Transport(cause.to_string())
        );
    }
}

#[test]
fn mark_after_a_false_start_is_found() {
    let cause = "invalid type: invalid type: null, expected a sequence";
    assert_eq!(FetchError::from_cause(cause.to_string()), FetchError::InvalidKey(cause.to_string()));
}

#[test]
fn mark_among_characters_of_several_bytes_is_found() {
    let cause = "réponse ✗ — invalid type: null, expected a sequence — fin";
    assert_eq!(FetchError::from_cause(cause.to_string()), FetchError::InvalidKey(cause.to_string()));
    let none = "réponse ✗ — fin";
    assert_eq!(FetchError::from_cause(none.to_string()), FetchError::Transport(none.to_string()));
}

#[test]
fn token_url_joins_base_and_token() {
    assert_eq!(
        token_url("https://tn11api.kasplex.org/v1/krc20", "NACHO"),
        "https://tn11api.kasplex.org/v1/krc20/token/NACHO?stat=true&holder=true"
    );
    assert_eq!(token_url("", ""), "/token/?stat=true&holder=true");
}

#[test]
fn holder_url_joins_base_and_address() {
    assert_eq!(
        holder_url("https://tn11api.kasplex.org/v1/krc20", "kaspa:qrt3"),
        "https://tn11api.kasplex.org/v1/krc20/address/kaspa:qrt3/tokenlist"
    );
    assert_eq!(holder_url("", ""), "/address//tokenlist");
}
