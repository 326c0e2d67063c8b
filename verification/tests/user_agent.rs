//! User agents.

use bitcoin_peers::user_agent::{
    bitcoin_core_format, validate_bitcoin_core_format, UserAgent, UserAgentError,
};

#[test]
fn test_validate_valid_user_agents() {
    assert!(validate_bitcoin_core_format("/bitcoin-peers:0.1.0/").is_ok());
    assert!(validate_bitcoin_core_format("/Bitcoin Core:26.0.0/").is_ok());
    assert!(validate_bitcoin_core_format("/Satoshi:0.21.0/").is_ok());
    assert!(validate_bitcoin_core_format("/my-app:1.2.3-beta/").is_ok());
}

#[test]
fn test_validate_invalid_format() {
    // Missing leading slash
    assert_eq!(
        validate_bitcoin_core_format("bitcoin-peers:0.1.0/"),
        Err(UserAgentError::InvalidFormat)
    );

    // Missing trailing slash
    assert_eq!(
        validate_bitcoin_core_format("/bitcoin-peers:0.1.0"),
        Err(UserAgentError::InvalidFormat)
    );

    // Missing both slashes
    assert_eq!(
        validate_bitcoin_core_format("bitcoin-peers:0.1.0"),
        Err(UserAgentError::InvalidFormat)
    );

    // Missing colon
    assert_eq!(
        validate_bitcoin_core_format("/bitcoin-peers/"),
        Err(UserAgentError::InvalidFormat)
    );

    // Multiple colons
    assert_eq!(
        validate_bitcoin_core_format("/bitcoin:peers:0.1.0/"),
        Err(UserAgentError::InvalidFormat)
    );
}

#[test]
fn test_validate_missing_name() {
    assert_eq!(
        validate_bitcoin_core_format("/:0.1.0/"),
        Err(UserAgentError::MissingName)
    );
}

#[test]
fn test_validate_missing_version() {
    assert_eq!(
        validate_bitcoin_core_format("/bitcoin-peers:/"),
        Err(UserAgentError::MissingVersion)
    );
}

#[test]
fn test_bitcoin_core_format() {
    assert_eq!(
        bitcoin_core_format("bitcoin-peers", "0.1.0"),
        "/bitcoin-peers:0.1.0/"
    );
    assert_eq!(
        bitcoin_core_format("Bitcoin Core", "26.0.0"),
        "/Bitcoin Core:26.0.0/"
    );
    assert_eq!(bitcoin_core_format("test", "1.0"), "/test:1.0/");
}

#[test]
fn test_error_display() {
    assert_eq!(
        UserAgentError::InvalidFormat.to_string(),
        "User agent must follow format '/name:version/'"
    );
    assert_eq!(
        UserAgentError::MissingName.to_string(),
        "User agent name component cannot be empty"
    );
    assert_eq!(
        UserAgentError::MissingVersion.to_string(),
        "User agent version component cannot be empty"
    );
}

#[test]
fn test_roundtrip() {
    let name = "bitcoin-peers";
    let version = "0.1.0";
    let user_agent = bitcoin_core_format(name, version);
    assert!(validate_bitcoin_core_format(&user_agent).is_ok());
}

#[test]
fn edge_cases_of_the_format() {
    for text in ["", "/", "//", ":", "/:", ":/", "x:/", "/:x"] {
        assert_eq!(
            validate_bitcoin_core_format(text),
            Err(UserAgentError::InvalidFormat),
            "{text}"
        );
    }
    assert_eq!(
        validate_bitcoin_core_format("/:/"),
        Err(UserAgentError::MissingName)
    );
    assert_eq!(
        validate_bitcoin_core_format("/a::b/"),
        Err(UserAgentError::InvalidFormat)
    );
    assert!(validate_bitcoin_core_format("/a/b:c/d/").is_ok());
    assert!(validate_bitcoin_core_format("/\u{fc}:\u{1f600}/").is_ok());
}

#[test]
fn user_agent_keeps_its_text() {
    let user_agent = UserAgent::new("/Satoshi:0.21.0/".to_string()).unwrap();
    assert_eq!(user_agent.as_str(), "/Satoshi:0.21.0/");
    assert_eq!(user_agent.clone().to_string(), "/Satoshi:0.21.0/");
    assert_eq!(
        UserAgent::from_name_version("MyNode", "0.1.0").as_str(),
        "/MyNode:0.1.0/"
    );
    assert!(matches!(
        UserAgent::new("Satoshi".to_string()),
        Err(UserAgentError::InvalidFormat)
    ));
}
