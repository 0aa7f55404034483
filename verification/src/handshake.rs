//! The line by which the plugin tells its host where it listens and which
//! certificate it serves with.

use base64::Engine;
use vstd::prelude::*;
use vstd::string::*;

verus! {

/// The port that the plugin listens on.
pub const PORT: u16 = 1100;

/// The address that the plugin binds.
pub const LISTEN_ADDRESS: &'static str = "127.0.0.1:1100";

/// What comes before the certificate in the handshake line: the version of
/// the core protocol, the version of the plugin protocol, the network, the
/// address and the protocol, each followed by a bar.
pub const HANDSHAKE_PREFIX: &'static str = "1|6|tcp|localhost:1100|grpc|";

/// The base64 text of `bytes` in the standard alphabet, without padding.
pub uninterp spec fn base64_no_pad(bytes: Seq<u8>) -> Seq<char>;

/// Whether the base64 text of that many bytes has a length that fits.
pub open spec fn base64_fits(len: nat) -> bool {
    len / 3 * 4 + 3 <= usize::MAX
}

/// Whether the base64 text of the certificate has a length that fits.
pub fn certificate_fits(certificate: &[u8]) -> (fits: bool)
    ensures
        fits == base64_fits(certificate@.len()),
{
    certificate.len() / 3 <= (usize::MAX - 3) / 4
}

/// The base64 text of `bytes` in the standard alphabet, without padding.
///
/// Calls `base64::Engine::encode` on the engine `STANDARD_NO_PAD`. The text
/// depends on the bytes alone. The call panics where the length of the text
/// overflows, so such inputs are left out.
#[verifier::external_body]
fn encode_base64(bytes: &[u8]) -> (text: String)
    requires
        base64_fits(bytes@.len()),
    ensures
        text@ == base64_no_pad(bytes@),
{
    base64::engine::general_purpose::STANDARD_NO_PAD.encode(bytes)
}

/// The handshake line for a certificate in base64.
pub open spec fn handshake_spec(certificate: Seq<char>) -> Seq<char> {
    HANDSHAKE_PREFIX@ + certificate
}

/// The handshake line for a certificate that is given in base64.
pub fn handshake_line_for(certificate: &str) -> (line: String)
    ensures
        line@ == handshake_spec(certificate@),
{
    let mut line: String = HANDSHAKE_PREFIX.to_owned();
    line.append(certificate);
    line
}

/// The handshake line for a certificate: the prefix, then the certificate
/// in base64 without padding.
pub fn handshake_line(certificate: &[u8]) -> (line: String)
    requires
        base64_fits(certificate@.len()),
    ensures
        line@ == handshake_spec(base64_no_pad(certificate@)),
{
    let encoded = encode_base64(certificate);
    handshake_line_for(encoded.as_str())
}

} // verus!
