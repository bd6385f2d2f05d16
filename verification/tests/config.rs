use async_socket::accept::Server;
use async_socket::connect::Client;
use async_socket::utils::client_helper::ClientConfig;
use async_socket::utils::server_helper::ServerConfig;
use std::path::PathBuf;

#[test]
fn server_config_keeps_every_setting() {
    let c = ServerConfig::from_args(
        "0.0.0.0".to_string(),
        5000,
        true,
        PathBuf::from("keys/cert.pem"),
        PathBuf::from("keys/key.pem"),
    );
    assert_eq!(c.host(), "0.0.0.0");
    assert_eq!(c.port(), 5000);
    assert!(c.is_tls_enabled());
    assert_eq!(c.cert_file(), &PathBuf::from("keys/cert.pem"));
    assert_eq!(c.key_file(), &PathBuf::from("keys/key.pem"));
}

#[test]
fn server_from_args_never_fails() {
    let s = Server::from_args(
        "localhost".to_string(),
        0,
        false,
        PathBuf::from("a"),
        PathBuf::from("b"),
    )
    .unwrap();
    assert_eq!(s.config().host(), "localhost");
    assert_eq!(s.config().port(), 0);
    assert!(!s.config().is_tls_enabled());
}

#[test]
fn client_config_keeps_every_setting() {
    let c = ClientConfig::from_args("127.0.0.1".to_string(), 5000, None);
    assert_eq!(c.host_address(), "127.0.0.1");
    assert_eq!(c.host_port(), 5000);
    assert_eq!(c.cert_file(), &None);
    let k = Client::from_args("example.org".to_string(), 65535, Some(PathBuf::from("keys/rootCA.crt")));
    assert_eq!(k.config().host_address(), "example.org");
    assert_eq!(k.config().host_port(), 65535);
    assert_eq!(k.config().cert_file(), &Some(PathBuf::from("keys/rootCA.crt")));
}
