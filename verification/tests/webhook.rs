use twilight_interaction::webhook::{
    decode_hex_signature, process, HttpRequest, STATUS_BAD_REQUEST, STATUS_METHOD_NOT_ALLOWED,
    STATUS_UNAUTHORIZED,
};

const SECRET: [u8; 32] = [7; 32];

fn public_key() -> [u8; 32] {
    let secret = ed25519_dalek::SecretKey::from_bytes(&SECRET).unwrap();
    ed25519_dalek::PublicKey::from(&secret).to_bytes()
}

fn sign(message: &[u8]) -> String {
    let secret = ed25519_dalek::SecretKey::from_bytes(&SECRET).unwrap();
    let public = ed25519_dalek::PublicKey::from(&secret);
    let expanded = ed25519_dalek::ExpandedSecretKey::from(&secret);
    hex::encode(expanded.sign(message, &public).to_bytes())
}

fn signed_request(timestamp: &str, body: &str) -> HttpRequest {
    let mut message = timestamp.as_bytes().to_vec();
    message.extend_from_slice(body.as_bytes());
    let signature = sign(&message);
    HttpRequest {
        method: "POST".to_string(),
        headers: vec![
            ("content-type".to_string(), b"application/json".to_vec()),
            ("x-signature-timestamp".to_string(), timestamp.as_bytes().to_vec()),
            ("x-signature-ed25519".to_string(), signature.into_bytes()),
        ],
        body: body.as_bytes().to_vec(),
    }
}

#[test]
fn valid_signature_releases_the_body() {
    let request = signed_request("1609459200", "{\"type\":1}");
    let got = process(&request, &public_key());
    assert_eq!(got, Ok(b"{\"type\":1}".to_vec()));
}

#[test]
fn other_methods_are_turned_away() {
    let mut request = signed_request("1609459200", "{}");
    request.method = "GET".to_string();
    assert_eq!(process(&request, &public_key()), Err(STATUS_METHOD_NOT_ALLOWED));
}

#[test]
fn missing_timestamp_is_a_bad_request() {
    let mut request = signed_request("1609459200", "{}");
    request.headers.remove(1);
    assert_eq!(process(&request, &public_key()), Err(STATUS_BAD_REQUEST));
}

#[test]
fn missing_signature_is_a_bad_request() {
    let mut request = signed_request("1609459200", "{}");
    request.headers.remove(2);
    assert_eq!(process(&request, &public_key()), Err(STATUS_BAD_REQUEST));
}

#[test]
fn malformed_signature_hex_is_a_bad_request() {
    let mut request = signed_request("1609459200", "{}");
    request.headers[2].1 = b"zz".to_vec();
    assert_eq!(process(&request, &public_key()), Err(STATUS_BAD_REQUEST));
}

#[test]
fn tampered_body_is_unauthorized() {
    let mut request = signed_request("1609459200", "{\"type\":1}");
    request.body = b"{\"type\":2}".to_vec();
    assert_eq!(process(&request, &public_key()), Err(STATUS_UNAUTHORIZED));
}

#[test]
fn tampered_signature_is_unauthorized() {
    let mut request = signed_request("1609459200", "{}");
    let mut signature = request.headers[2].1.clone();
    signature[0] = if signature[0] == b'0' { b'1' } else { b'0' };
    request.headers[2].1 = signature;
    assert_eq!(process(&request, &public_key()), Err(STATUS_UNAUTHORIZED));
}

#[test]
fn wrong_key_is_unauthorized() {
    let request = signed_request("1609459200", "{}");
    let other_secret = ed25519_dalek::SecretKey::from_bytes(&[9; 32]).unwrap();
    let other_key = ed25519_dalek::PublicKey::from(&other_secret).to_bytes();
    assert_eq!(process(&request, &other_key), Err(STATUS_UNAUTHORIZED));
}

#[test]
fn timestamp_is_part_of_the_signed_message() {
    let mut request = signed_request("1609459200", "{}");
    request.headers[1].1 = b"1609459201".to_vec();
    assert_eq!(process(&request, &public_key()), Err(STATUS_UNAUTHORIZED));
}

#[test]
fn hex_decoding_round_trips() {
    let bytes: Vec<u8> = (0..64).map(|i| (i * 4 + 1) as u8).collect();
    let spelled = hex::encode(&bytes);
    assert_eq!(decode_hex_signature(spelled.as_bytes()), Some(bytes.clone()));
    let upper = spelled.to_uppercase();
    assert_eq!(decode_hex_signature(upper.as_bytes()), Some(bytes));
}

#[test]
fn hex_decoding_rejects_bad_input() {
    assert_eq!(decode_hex_signature(b"abcd"), None);
    let mut spelled = hex::encode([0u8; 64]);
    spelled.replace_range(10..11, "g");
    assert_eq!(decode_hex_signature(spelled.as_bytes()), None);
}

#[test]
fn first_header_with_a_name_wins() {
    let mut request = signed_request("1609459200", "{}");
    request
        .headers
        .push(("x-signature-timestamp".to_string(), b"999".to_vec()));
    assert_eq!(process(&request, &public_key()), Ok(b"{}".to_vec()));
}
