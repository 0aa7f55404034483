use terraform_provider_ubicloud::handshake::{
    handshake_line, handshake_line_for, HANDSHAKE_PREFIX, LISTEN_ADDRESS, PORT,
};

#[test]
fn the_plugin_listens_on_one_port() {
    assert_eq!(PORT, 1100);
    assert_eq!(LISTEN_ADDRESS, format!("127.0.0.1:{}", PORT));
    assert_eq!(HANDSHAKE_PREFIX, format!("1|6|tcp|localhost:{}|grpc|", PORT));
}

#[test]
fn the_handshake_ends_with_the_certificate() {
    assert_eq!(handshake_line_for("QUJD"), "1|6|tcp|localhost:1100|grpc|QUJD");
    assert_eq!(handshake_line_for(""), "1|6|tcp|localhost:1100|grpc|");
}

#[test]
fn the_certificate_goes_out_in_base64_without_padding() {
    assert_eq!(handshake_line(b"hello"), "1|6|tcp|localhost:1100|grpc|aGVsbG8");
    assert_eq!(handshake_line(b"hi"), "1|6|tcp|localhost:1100|grpc|aGk");
    assert_eq!(handshake_line(b"ABC"), "1|6|tcp|localhost:1100|grpc|QUJD");
    assert_eq!(handshake_line(&[0xfb, 0xff, 0xbf]), "1|6|tcp|localhost:1100|grpc|+/+/");
    assert_eq!(handshake_line(&[]), "1|6|tcp|localhost:1100|grpc|");
}

#[test]
fn the_handshake_has_six_fields() {
    let line = handshake_line(&[0x30, 0x82, 0x01, 0x0a]);
    let fields: Vec<&str> = line.split('|').collect();
    assert_eq!(fields, ["1", "6", "tcp", "localhost:1100", "grpc", "MIIBCg"]);
}
