use vstd::prelude::*;

verus! {

/// A DER-encoded X.509 certificate.
pub struct Certificate(pub Vec<u8>);

/// A DER-encoded (PKCS#8) private key.
pub struct PrivateKey(pub Vec<u8>);

/// The subject alternative name that the dummy certificate is issued for.
pub open spec fn dummy_certificate_name() -> Seq<char> {
    "lumina.a4ivi4.dev"@
}

/// A character that can occur in the text of an IPv4 or IPv6 address.
pub open spec fn is_ip_text_char(c: char) -> bool {
    ('0' <= c && c <= '9') || ('a' <= c && c <= 'f') || ('A' <= c && c <= 'F') || c == ':' || c == '.'
}

/// A name that cannot be read as an IP address, and so is taken as a DNS name.
pub open spec fn is_dns_name_text(name: Seq<char>) -> bool {
    exists|i: int| 0 <= i < name.len() && !is_ip_text_char(#[trigger] name[i])
}

/// Every character of `s` is ASCII.
pub open spec fn is_ascii_text(s: Seq<char>) -> bool {
    forall|i: int| 0 <= i < s.len() ==> (#[trigger] s[i] as u32) < 128
}

/// The bytes of an ASCII text, one per character.
pub open spec fn ascii_bytes(s: Seq<char>) -> Seq<u8> {
    Seq::new(s.len(), |i: int| s[i] as u8)
}

/// `needle` occurs in `hay` as a run of consecutive bytes.
pub open spec fn contains_bytes(hay: Seq<u8>, needle: Seq<u8>) -> bool {
    exists|i: int| 0 <= i && i + needle.len() <= hay.len() && #[trigger] hay.subrange(i, i + needle.len()) == needle
}

/// `rcgen::generate_simple_self_signed(vec![dns_name])` with a fresh key pair,
/// serialized with `serialize_der` and `serialize_private_key_der`. `None` when
/// rcgen reports an error (key generation or signing). rcgen writes each
/// subject alternative name as an ASN.1 IA5String, which asserts that the name
/// is ASCII, hence the `requires`. Claimed: both encodings are non-empty, and a
/// name that does not parse as an IP address is written as a DNS name whose
/// bytes appear verbatim in the certificate. The key pair and the signature
/// are random: nothing else is claimed of the bytes.
#[verifier::external_body]
fn self_signed_der(dns_name: String) -> (r: Option<(Vec<u8>, Vec<u8>)>)
    requires
        is_ascii_text(dns_name@),
    ensures
        r matches Some((cert, key)) ==> {
            &&& cert@.len() > 0
            &&& key@.len() > 0
            &&& is_dns_name_text(dns_name@) ==> contains_bytes(cert@, ascii_bytes(dns_name@))
        },
{
    let cert = rcgen::generate_simple_self_signed(vec![dns_name]).ok()?;
    let key = cert.serialize_private_key_der();
    let der = cert.serialize_der().ok()?;
    Some((der, key))
}

/// Wraps a generated certificate and key, DER-encoded, as a one-certificate
/// chain and its private key. `None` stays `None`.
pub fn certificate_from_der(generated: Option<(Vec<u8>, Vec<u8>)>) -> (r: Option<(Vec<Certificate>, PrivateKey)>)
    ensures
        match generated {
            None => r is None,
            Some((cert, key)) => r matches Some((certs, k)) && certs@.len() == 1 && certs@[0].0@ == cert@ && k.0@
                == key@,
        },
{
    match generated {
        Some((der, key)) => {
            let mut certs: Vec<Certificate> = Vec::new();
            certs.push(Certificate(der));
            Some((certs, PrivateKey(key)))
        },
        None => None,
    }
}

/// Generates a dummy self-signed certificate for QUIC encryption, for the name
/// `lumina.a4ivi4.dev`. Authentication is performed inside the tunnel using the
/// shared secret derived from the 12-character seed. `None` when the
/// certificate could not be generated.
pub fn generate_dummy_certificate() -> (r: Option<(Vec<Certificate>, PrivateKey)>)
    ensures
        r matches Some((certs, key)) ==> {
            &&& certs@.len() == 1
            &&& certs@[0].0@.len() > 0
            &&& key.0@.len() > 0
            &&& contains_bytes(certs@[0].0@, ascii_bytes(dummy_certificate_name()))
        },
{
    let name = "lumina.a4ivi4.dev";
    proof {
        reveal_strlit("lumina.a4ivi4.dev");
        assert(!is_ip_text_char(name@[0]));
    }
    let dns_name: String = name.to_owned();
    certificate_from_der(self_signed_der(dns_name))
}

} // verus!
