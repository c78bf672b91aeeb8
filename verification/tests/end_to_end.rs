use std::io::{Read, Write};
use std::sync::Arc;

use rustls::pki_types::{PrivateKeyDer, ServerName};
use rustls::{ClientConfig, ClientConnection, Connection, RootCertStore, ServerConfig, ServerConnection};
use tls_responder::head::HeadError;
use tls_responder::pump::{Phase, ReadStep, RecordPump, WriteStep};
use tls_responder::response::{error, index, json};

/// A fresh in-memory client/server pair with a self-signed identity the
/// client trusts, mirroring the server's configuration knobs.
fn tls_pair() -> (ClientConnection, Connection) {
    let signed = rcgen::generate_simple_self_signed(vec!["localhost".to_string()]).unwrap();
    let cert = signed.cert.der().clone();
    let key = PrivateKeyDer::try_from(signed.signing_key.serialize_der()).unwrap();

    let mut server_config = ServerConfig::builder()
        .with_no_client_auth()
        .with_single_cert(vec![cert.clone()], key)
        .unwrap();
    server_config.max_early_data_size = 1024;
    let server = ServerConnection::new(Arc::new(server_config)).unwrap();

    let mut roots = RootCertStore::empty();
    roots.add(cert).unwrap();
    let client_config = ClientConfig::builder()
        .with_root_certificates(roots)
        .with_no_client_auth();
    let name = ServerName::try_from("localhost").unwrap();
    let client = ClientConnection::new(Arc::new(client_config), name).unwrap();

    (client, Connection::Server(server))
}

/// Moves pending TLS records both ways, the in-memory stand-in for the
/// socket synchronization the connection unit performs between steps.
fn shuttle(client: &mut ClientConnection, server: &mut Connection) {
    for _ in 0..64 {
        let mut moved = false;
        while client.wants_write() {
            let mut wire = Vec::new();
            client.write_tls(&mut wire).unwrap();
            if !wire.is_empty() {
                server.read_tls(&mut &wire[..]).unwrap();
                server.process_new_packets().unwrap();
                moved = true;
            }
        }
        while server.wants_write() {
            let mut wire = Vec::new();
            server.write_tls(&mut wire).unwrap();
            if !wire.is_empty() {
                client.read_tls(&mut &wire[..]).unwrap();
                client.process_new_packets().unwrap();
                moved = true;
            }
        }
        if !moved {
            return;
        }
    }
    panic!("record exchange did not settle");
}

fn handshake(client: &mut ClientConnection, server: &mut Connection) {
    let mut rounds = 0;
    while client.is_handshaking() || server.is_handshaking() {
        shuttle(client, server);
        rounds += 1;
        assert!(rounds < 64, "handshake did not finish");
    }
}

/// Runs one whole connection: handshake, request, response, close.
/// Returns the served route result and the plaintext the client read.
fn serve(request: &[u8]) -> (RecordPump, Result<tls_responder::head::Route, HeadError>, Vec<u8>) {
    let (mut client, mut server) = tls_pair();
    let mut pump = RecordPump::new();

    handshake(&mut client, &mut server);
    pump.handshake_complete();

    client.writer().write_all(request).unwrap();

    let mut rounds = 0;
    loop {
        shuttle(&mut client, &mut server);
        match pump.read_step(&mut server) {
            ReadStep::Complete => break,
            ReadStep::Progress => {
                rounds += 1;
                assert!(rounds < 64, "request never completed");
            }
            ReadStep::Failed => panic!("request read failed"),
        }
    }

    let routed = pump.prepare_response();
    if routed.is_err() {
        return (pump, routed, Vec::new());
    }

    while !pump.response_done() {
        match pump.write_step(&mut server) {
            WriteStep::Wrote(_) => shuttle(&mut client, &mut server),
            WriteStep::Failed => panic!("response write failed"),
        }
    }
    pump.begin_close(&mut server);
    shuttle(&mut client, &mut server);
    pump.mark_closed();

    let mut plain = Vec::new();
    client.reader().read_to_end(&mut plain).unwrap();
    (pump, routed, plain)
}

#[test]
fn serves_the_index_page() {
    let (pump, routed, plain) = serve(b"GET / HTTP/1.1\r\n\r\n");
    assert_eq!(pump.phase, Phase::Closed);
    assert_eq!(routed, Ok(tls_responder::head::Route::Index));
    assert_eq!(plain, index().into_bytes());

    let text = String::from_utf8(plain).unwrap();
    assert!(text.starts_with("HTTP/1.1 200 OK\ncontent-type: text/html\ncontent-length: 961\n\n"));
    let (_, rest) = text.split_once("\n\n").unwrap();
    let page = &rest[..rest.len() - 3];
    assert_eq!(page.len() + 2, 961);
    assert!(page.starts_with("<!DOCTYPE html>"));
    assert!(page.ends_with("</html>\n"));
}

#[test]
fn serves_the_json_document() {
    let (pump, routed, plain) = serve(b"GET /json HTTP/1.1\r\n\r\n");
    assert_eq!(pump.phase, Phase::Closed);
    assert_eq!(routed, Ok(tls_responder::head::Route::Json));
    assert_eq!(plain, json().into_bytes());

    let text = String::from_utf8(plain).unwrap();
    assert!(text.starts_with("HTTP/1.1 200 OK\ncontent-type: application/json\n\n"));
    assert!(text.contains("{\n    \"json\": \"object\"\n}"));
}

#[test]
fn unknown_target_gets_the_error_page() {
    let (pump, routed, plain) = serve(b"GET /missing HTTP/1.1\r\n\r\n");
    assert_eq!(pump.phase, Phase::Closed);
    assert_eq!(routed, Ok(tls_responder::head::Route::Other));
    assert_eq!(plain, error().into_bytes());

    let text = String::from_utf8(plain).unwrap();
    assert!(text.starts_with("HTTP/1.1 500 INTERNAL SERVER ERROR\n"));
    assert!(text.contains("Something went wrong"));
}

#[test]
fn non_get_request_tears_the_connection_down_unserved() {
    let (pump, routed, plain) = serve(b"POST / HTTP/1.1\r\n\r\n");
    assert_eq!(routed, Err(HeadError::NotGet));
    assert_eq!(pump.phase, Phase::Failed);
    assert!(plain.is_empty());
    assert_eq!(pump.response.len(), 0);
}

#[test]
fn garbage_instead_of_a_client_hello_fails_the_handshake() {
    let (_, mut server) = tls_pair();
    let mut pump = RecordPump::new();

    let garbage = b"this is not a tls client hello at all\r\n\r\n";
    let _ = server.read_tls(&mut &garbage[..]);
    assert!(server.process_new_packets().is_err());

    // The connection unit logs the failure and stops without a response.
    pump.mark_failed();
    assert_eq!(pump.phase, Phase::Failed);
    assert_eq!(pump.sent, 0);
    assert_eq!(pump.response.len(), 0);
}
