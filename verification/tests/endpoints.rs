use cloudagent::agent::HttpAgent;
use cloudagent::error::AgentError;
use cloudagent::request::HttpMethod;
use cloudagent::typing::MessageConfig;

fn agent(base: &str) -> HttpAgent {
    HttpAgent::new(base, None).expect("base should be a valid absolute URL")
}

#[test]
fn connections_endpoint_on_plain_host() {
    let a = agent("https://agent.example.org");
    let r = a.get_connections(None);
    assert_eq!(r.method, HttpMethod::Get);
    assert_eq!(r.url, "https://agent.example.org/connections");
    assert!(r.query.is_empty());
    assert!(r.body.is_none());
}

#[test]
fn connections_endpoint_keeps_host_port() {
    let a = agent("http://localhost:8002");
    let r = a.get_connections(None);
    assert_eq!(r.url, "http://localhost:8002/connections");
}

#[test]
fn connections_endpoint_keeps_directory_path() {
    // the last path segment is not a directory: joining replaces it
    let a = agent("https://host/multi/tenant/admin");
    let r = a.get_connections(None);
    assert_eq!(r.url, "https://host/multi/tenant/connections");
}

#[test]
fn connections_endpoint_with_trailing_slash_loses_nothing() {
    let a = agent("https://host/admin/");
    let r = a.get_connections(None);
    assert_eq!(r.url, "https://host/admin/connections");
}

#[test]
fn connections_endpoint_no_double_slash() {
    let a = agent("https://agent.example.org/");
    let r = a.get_connections(None);
    assert_eq!(r.url, "https://agent.example.org/connections");
    assert!(!r.url["https://".len()..].contains("//"));
}

#[test]
fn connection_by_id_endpoint() {
    let a = agent("https://agent.example.org");
    let r = a.get_connection_by_id("1234-5678");
    assert_eq!(r.method, HttpMethod::Get);
    assert_eq!(r.url, "https://agent.example.org/connections/1234-5678");
    assert!(r.query.is_empty());
    assert!(r.body.is_none());
}

#[test]
fn message_endpoint_joins_id_before_action() {
    // the id must stand between connections/ and /send-message
    let a = agent("https://agent.example.org");
    let config = MessageConfig {
        connection_id: String::from("abc-def"),
        message: String::from("hi"),
    };
    let r = a.send_message(&config);
    assert_eq!(r.url, "https://agent.example.org/connections/abc-def/send-message");
}

#[test]
fn invitation_endpoint() {
    let a = agent("https://agent.example.org");
    let c = cloudagent::typing::InvitationConfig {
        toolbox: false,
        multi_use: false,
        auto_accept: false,
        alias: None,
    };
    let r = a.create_invitation(&c);
    assert_eq!(r.url, "https://agent.example.org/connections/create-invitation");
}

#[test]
fn features_endpoint() {
    let a = agent("https://agent.example.org");
    let r = a.discover_features();
    assert_eq!(r.method, HttpMethod::Get);
    assert_eq!(r.url, "https://agent.example.org/features");
}

#[test]
fn offer_endpoint_keeps_issue_credential_segment() {
    let a = agent("https://agent.example.org");
    let options = cloudagent::typing::CredentialOfferOptions {
        connection_id: String::from("c"),
        cred_def_id: String::from("d"),
        keys: vec![],
        values: vec![],
    };
    let r = a.send_offer(&options).unwrap();
    assert_eq!(r.url, "https://agent.example.org/issue-credential/send-offer");
}

#[test]
fn schema_and_credential_definition_endpoints() {
    let a = agent("https://agent.example.org");
    let s = a.schema(&cloudagent::typing::SchemaConfig {
        name: String::from("n"),
        version: String::from("1.0"),
        attributes: vec![],
    });
    assert_eq!(s.url, "https://agent.example.org/schemas");
    let d = a.credential_definition(&cloudagent::typing::CredentialDefinitionConfig {
        schema_id: String::from("sid"),
        tag: String::from("t"),
    });
    assert_eq!(d.url, "https://agent.example.org/credential-definitions");
}

#[test]
fn base_query_is_dropped_from_endpoints() {
    let a = agent("https://host/admin?tenant=7");
    let r = a.get_connections(None);
    assert_eq!(r.url, "https://host/connections");
}

#[test]
fn malformed_base_is_a_configuration_error() {
    let err = HttpAgent::new("not an absolute url", None).err().unwrap();
    match err {
        AgentError::Configuration { url } => assert_eq!(url, "not an absolute url"),
        other => panic!("expected a configuration error, got {:?}", other),
    }
}

#[test]
fn base_without_path_segments_is_a_configuration_error() {
    let err = HttpAgent::new("mailto:admin@example.org", None).err().unwrap();
    assert!(matches!(err, AgentError::Configuration { .. }));
}

#[test]
fn api_key_is_kept() {
    let a = HttpAgent::new("https://agent.example.org", Some(String::from("admin-key"))).unwrap();
    assert_eq!(a.api_key.as_deref(), Some("admin-key"));
}
