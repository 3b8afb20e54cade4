use cloudagent::error::AgentError;
use cloudagent::response::{handle_response, status_is_success};
use cloudagent::typing::Connection;

#[test]
fn non_success_status_is_a_transport_error_with_the_code() {
    let r = handle_response::<i32>(404, String::from("not found"), None);
    match r {
        Err(AgentError::Transport { status, body }) => {
            assert_eq!(status, 404);
            assert_eq!(body, "not found");
        }
        other => panic!("expected a transport error, got {:?}", other),
    }
}

#[test]
fn non_success_status_wins_even_with_a_decodable_body() {
    let r = handle_response::<i32>(500, String::from("oops"), Some(7));
    assert!(matches!(r, Err(AgentError::Transport { status: 500, .. })));
}

#[test]
fn unparseable_success_body_is_a_decode_error() {
    let r = handle_response::<i32>(200, String::from("not json"), None);
    match r {
        Err(AgentError::Decode { body }) => assert_eq!(body, "not json"),
        other => panic!("expected a decode error, got {:?}", other),
    }
}

#[test]
fn decoded_success_body_is_returned() {
    let c = Connection {
        connection_id: String::from("c1"),
        state: String::from("active"),
        alias: None,
    };
    let r = handle_response(201, String::from("{}"), Some(c));
    let got = r.unwrap();
    assert_eq!(got.connection_id, "c1");
    assert_eq!(got.state, "active");
}

#[test]
fn success_range_is_exactly_2xx() {
    assert!(!status_is_success(199));
    assert!(status_is_success(200));
    assert!(status_is_success(204));
    assert!(status_is_success(299));
    assert!(!status_is_success(300));
    assert!(!status_is_success(302));
    assert!(!status_is_success(401));
}
