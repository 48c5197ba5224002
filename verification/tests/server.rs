use adm_sdk::error::Error;
use adm_sdk::network::Network;
use adm_sdk::server::{
    get_network, handle_rejection, log_request_body, log_request_details, BadRequest,
    ErrorMessage, Level, Rejection, State,
};

#[test]
fn state_is_empty() {
    let _state: State = State::new();
}

#[test]
fn rejections() {
    let reply = |code: u16, message: &str| ErrorMessage { code, message: message.to_string() };
    assert_eq!(handle_rejection(Rejection::NotFound), reply(404, "Not Found"));
    assert_eq!(
        handle_rejection(Rejection::BadRequest(BadRequest {
            message: "register error: x".to_string()
        })),
        reply(400, "register error: x")
    );
    assert_eq!(
        handle_rejection(Rejection::InvalidBody("missing field".to_string())),
        reply(400, "Invalid Request Body: missing field")
    );
    assert_eq!(handle_rejection(Rejection::InvalidHeader), reply(400, "Invalid Header Value"));
    assert_eq!(handle_rejection(Rejection::MethodNotAllowed), reply(405, "Method Not Allowed"));
    assert_eq!(handle_rejection(Rejection::Other), reply(500, "Internal Server Error"));
}

#[test]
fn only_the_testnet_is_served() {
    assert_eq!(get_network(Network::Testnet), Ok(Network::Testnet));
    assert_eq!(get_network(Network::Mainnet), Err(Error::UnknownNetwork));
    assert_eq!(get_network(Network::Localnet), Err(Error::UnknownNetwork));
    assert_eq!(get_network(Network::Devnet), Err(Error::UnknownNetwork));
}

#[test]
fn request_log() {
    assert_eq!(
        log_request_details("POST", "/register", 200, "200 OK", "127.0.0.1:5000", 12),
        (Level::Info, "POST /register 200 OK - 127.0.0.1:5000 - 12ms".to_string())
    );
    assert_eq!(log_request_details("GET", "/", 499, "499", "a", 0).0, Level::Info);
    assert_eq!(log_request_details("GET", "/", 500, "500", "a", 0).0, Level::Error);
    assert_eq!(
        log_request_details("GET", "/x", 503, "503 Service Unavailable", "0.0.0.0:0", 1500),
        (Level::Error, "GET /x 503 Service Unavailable - 0.0.0.0:0 - 1500ms".to_string())
    );
    assert_eq!(log_request_body("register", "{}"), "incoming /register request: {}");
}
