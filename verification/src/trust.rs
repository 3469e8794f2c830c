//! Trust material and its textual codec.
//!
//! A `KeyMaterial` is an asymmetric signing key pair; a `Certificate` is a
//! self-signed root certificate bound to such a key. Both are persisted as
//! single PEM-encoded text files. Encoding is a pure read of the stored
//! text; decoding validates the text through rcgen and, for certificates,
//! additionally checks that the encoding declares a certificate authority,
//! so that a corrupted or foreign file is rejected rather than silently
//! trusted.

use vstd::prelude::*;
use vstd::string::StringExecFns;

verus! {

/// Whether rcgen's `KeyPair::from_pem` accepts `s` as a PEM-encoded key
/// pair. The outcome depends on the characters of `s` alone.
pub uninterp spec fn key_parses(s: Seq<char>) -> bool;

/// Whether rcgen's `CertificateParams::from_ca_cert_pem` accepts `s` as a
/// PEM-encoded X.509 certificate. The outcome depends on the characters of
/// `s` alone.
pub uninterp spec fn ca_cert_parses(s: Seq<char>) -> bool;

/// Whether the certificate encoded in `s` declares itself a certificate
/// authority (its basic-constraints extension carries the CA flag). Only
/// meaningful when `ca_cert_parses(s)` holds.
pub uninterp spec fn cert_declares_ca(s: Seq<char>) -> bool;

/// The texts of the subject alternative names declared in the certificate
/// encoded in `s`, in order, as rcgen's `from_ca_cert_pem` recovers them.
/// Only meaningful when `ca_cert_parses(s)` holds.
pub uninterp spec fn cert_subject_names(s: Seq<char>) -> Seq<Seq<char>>;

/// The number of whole days spanned by the validity window declared in
/// the certificate encoded in `s` (from its notBefore to its notAfter
/// instant, both stored at second precision), as rcgen's
/// `from_ca_cert_pem` recovers them. Only meaningful when
/// `ca_cert_parses(s)` holds.
pub uninterp spec fn cert_validity_span_days(s: Seq<char>) -> int;

/// Whether the certificate encoded in `s` certifies the public half of
/// `key` and carries a signature made with its private half — that is,
/// whether it is self-signed by exactly that key pair. A pure relation of
/// the text and the key value.
pub uninterp spec fn signed_by(s: Seq<char>, key: rcgen::KeyPair) -> bool;

/// A character that can never occur in the text of an IP address (the
/// digits, the hexadecimal letters, `:` and `.` are the only characters
/// the address parser accepts).
pub open spec fn ip_text_char(c: char) -> bool {
    ('0' <= c && c <= '9') || ('a' <= c && c <= 'f') || ('A' <= c && c <= 'F') || c == ':' || c
        == '.'
}

/// A text holding any character no IP address can hold. rcgen records such
/// a subject as a DNS name, verbatim; a text that parses as an IP address
/// would instead be stored in the address's canonical spelling, which need
/// not equal the given text.
pub open spec fn plainly_a_host_name(s: Seq<char>) -> bool {
    exists|i: int| 0 <= i < s.len() && !ip_text_char(s[i])
}

#[verifier::external_type_specification]
#[verifier::external_body]
pub struct ExKeyPair(rcgen::KeyPair);

#[verifier::external_type_specification]
#[verifier::external_body]
pub struct ExCertificateParams(rcgen::CertificateParams);

/// Relies on rcgen's `KeyPair::from_pem`: whether it accepts a text is a
/// pure function of that text, here named `key_parses`. A failure is
/// reported as the display text of rcgen's error.
#[verifier::external_body]
fn rcgen_key_from_pem(pem: &str) -> (r: Result<rcgen::KeyPair, String>)
    ensures
        r is Ok <==> key_parses(pem@),
{
    rcgen::KeyPair::from_pem(pem).map_err(|e| format!("{e}"))
}

/// Relies on rcgen's `KeyPair::generate` and `KeyPair::serialize_pem`: the
/// PEM serialization of a freshly generated key pair is accepted back by
/// `KeyPair::from_pem` (the documented persistence round trip).
#[verifier::external_body]
fn rcgen_generate_key() -> (r: Result<(rcgen::KeyPair, String), String>)
    ensures
        r matches Ok(p) ==> key_parses(p.1@),
{
    let pair = rcgen::KeyPair::generate().map_err(|e| format!("{e}"))?;
    let pem = pair.serialize_pem();
    Ok((pair, pem))
}

/// Relies on rcgen's `CertificateParams::from_ca_cert_pem`, whose outcome
/// is a pure function of the text (`ca_cert_parses`), and on reading the
/// `is_ca` field of the parsed parameters, which reports the certificate's
/// basic-constraints CA flag (`cert_declares_ca`).
#[verifier::external_body]
fn rcgen_load_ca_params(pem: &str) -> (r: Result<(rcgen::CertificateParams, bool), String>)
    ensures
        r is Ok <==> ca_cert_parses(pem@),
        r matches Ok(p) ==> p.1 == cert_declares_ca(pem@),
{
    let params = rcgen::CertificateParams::from_ca_cert_pem(pem).map_err(|e| format!("{e}"))?;
    let declares_ca = match params.is_ca {
        rcgen::IsCa::Ca(_) => true,
        _ => false,
    };
    Ok((params, declares_ca))
}

/// Relies on rcgen's `CertificateParams::new` and `self_signed`,
/// `Certificate::pem` and `Certificate::params`, and the time crate's
/// `OffsetDateTime::now_utc` plus duration arithmetic. A certificate
/// generated with the CA flag set and serialized to PEM is accepted back
/// by `from_ca_cert_pem` with that flag intact (rcgen's documented round
/// trip), and what that loader recovers is exactly what was generated:
/// the one subject name given (recorded verbatim as a DNS name, which the
/// `requires` on the subject's characters guarantees), a validity window
/// of exactly `validity_days` whole days (both endpoints are written at
/// second precision, so the span survives encoding), and a signature made
/// with, over the public half of, the given key pair (`self_signed`). The
/// validity bound in `requires` keeps the expiry date within the
/// representable calendar.
#[verifier::external_body]
fn rcgen_generate_ca_certificate(
    key_pair: &rcgen::KeyPair,
    subject: &str,
    country: &str,
    validity_days: u64,
) -> (r: Result<(rcgen::CertificateParams, String), String>)
    requires
        validity_days <= 36500,
        plainly_a_host_name(subject@),
    ensures
        r matches Ok(p) ==> ca_cert_parses(p.1@) && cert_declares_ca(p.1@),
        r matches Ok(p) ==> cert_subject_names(p.1@) == seq![subject@],
        r matches Ok(p) ==> cert_validity_span_days(p.1@) == validity_days as int,
        r matches Ok(p) ==> signed_by(p.1@, *key_pair),
{
    let mut params = rcgen::CertificateParams::new(vec![subject.to_string()])
        .map_err(|e| format!("{e}"))?;
    params.distinguished_name.push(rcgen::DnType::CommonName, subject);
    params.distinguished_name.push(rcgen::DnType::CountryName, country);
    params.is_ca = rcgen::IsCa::Ca(rcgen::BasicConstraints::Unconstrained);
    let now = time::OffsetDateTime::now_utc();
    params.not_before = now;
    params.not_after = now + time::Duration::days(validity_days as i64);
    let cert = params.self_signed(key_pair).map_err(|e| format!("{e}"))?;
    let pem = cert.pem();
    Ok((cert.params().clone(), pem))
}

/// Builds the `Certificate` error that every key or certificate failure of
/// this crate surfaces, from the detail text of the underlying failure.
fn certificate_error(detail: &str) -> (r: crate::error::Error)
    ensures
        r is Certificate,
{
    let mut message = String::from_str("Error with CA or chain: ");
    message.append(detail);
    crate::error::Error::Certificate(message)
}

/// An asymmetric signing key pair, together with the PEM text it was
/// loaded from or serialized to. The text is the value's identity: it is
/// exactly what gets persisted, and it always parses back.
#[derive(Debug)]
pub struct KeyMaterial {
    pair: rcgen::KeyPair,
    pem: String,
}

impl View for KeyMaterial {
    type V = Seq<char>;

    closed spec fn view(&self) -> Seq<char> {
        self.pem@
    }
}

impl KeyMaterial {
    /// A key's stored text is always one that decodes back to a key.
    pub open spec fn wf(&self) -> bool {
        key_parses(self@)
    }

    /// The key pair value this material holds.
    pub closed spec fn spec_key_pair(&self) -> rcgen::KeyPair {
        self.pair
    }

    /// The signing key pair itself, for callers that sign with it.
    pub fn key_pair(&self) -> (r: &rcgen::KeyPair)
        ensures
            *r == self.spec_key_pair(),
    {
        &self.pair
    }

    /// Generates a fresh signing key pair from the process-wide secure
    /// random source.
    pub fn generate() -> (r: Result<KeyMaterial, crate::error::Error>)
        ensures
            r matches Ok(k) ==> k.wf(),
            r matches Err(e) ==> e is Certificate,
    {
        match rcgen_generate_key() {
            Ok((pair, pem)) => Ok(KeyMaterial { pair, pem }),
            Err(e) => Err(certificate_error(e.as_str())),
        }
    }
}

/// A self-signed root certificate, together with the PEM text it was
/// loaded from or serialized to, and the generation parameters rcgen
/// recovered or produced for it.
#[derive(Debug)]
pub struct Certificate {
    params: rcgen::CertificateParams,
    pem: String,
}

impl View for Certificate {
    type V = Seq<char>;

    closed spec fn view(&self) -> Seq<char> {
        self.pem@
    }
}

impl Certificate {
    /// A certificate's stored text always decodes back, and always
    /// declares a certificate authority.
    pub open spec fn wf(&self) -> bool {
        ca_cert_parses(self@) && cert_declares_ca(self@)
    }

    /// The recovered or generated certificate parameters.
    pub fn params(&self) -> &rcgen::CertificateParams {
        &self.params
    }

    /// Generates a fresh certificate, self-signed by `key`: its one
    /// subject name is `subject` exactly, its common name and country
    /// attributes are `subject` and `country`, its validity window spans
    /// exactly `validity_days` days from now, and it is marked as a
    /// certificate authority.
    pub fn generate(key: &KeyMaterial, subject: &str, country: &str, validity_days: u64) -> (r:
        Result<Certificate, crate::error::Error>)
        requires
            validity_days <= 36500,
            plainly_a_host_name(subject@),
        ensures
            r matches Ok(c) ==> c.wf() && cert_subject_names(c@) == seq![subject@]
                && cert_validity_span_days(c@) == validity_days as int && signed_by(
                c@,
                key.spec_key_pair(),
            ),
            r matches Err(e) ==> e is Certificate,
    {
        match rcgen_generate_ca_certificate(key.key_pair(), subject, country, validity_days) {
            Ok((params, pem)) => Ok(Certificate { params, pem }),
            Err(e) => Err(certificate_error(e.as_str())),
        }
    }
}

/// The textual encoding of a key: exactly the PEM text the key was loaded
/// from or generated with, suitable for file persistence. A pure
/// transform; no side effect.
pub fn encode_key(key: &KeyMaterial) -> (r: String)
    ensures
        r@ == key@,
{
    key.pem.clone()
}

/// Decodes a key pair from PEM text. Succeeds exactly on the texts rcgen
/// accepts as a key pair; the decoded key remembers the given text
/// verbatim, so encoding it again is the identity.
pub fn decode_key(pem: &str) -> (r: Result<KeyMaterial, crate::error::Error>)
    ensures
        r is Ok <==> key_parses(pem@),
        r matches Ok(k) ==> k@ == pem@ && k.wf(),
        r matches Err(e) ==> e is Certificate,
{
    match rcgen_key_from_pem(pem) {
        Ok(pair) => Ok(KeyMaterial { pair, pem: pem.to_owned() }),
        Err(e) => Err(certificate_error(e.as_str())),
    }
}

/// The textual encoding of a certificate: exactly the PEM text it was
/// loaded from or generated with. A pure transform; no side effect.
pub fn encode_certificate(cert: &Certificate) -> (r: String)
    ensures
        r@ == cert@,
{
    cert.pem.clone()
}

/// Decodes a certificate from PEM text. Succeeds exactly on the texts
/// rcgen accepts as a certificate that moreover declare a certificate
/// authority; a well-formed certificate that is not a CA root is rejected
/// like a malformed one. The decoded certificate remembers the given text
/// verbatim.
pub fn decode_certificate(pem: &str) -> (r: Result<Certificate, crate::error::Error>)
    ensures
        r is Ok <==> ca_cert_parses(pem@) && cert_declares_ca(pem@),
        r matches Ok(c) ==> c@ == pem@ && c.wf(),
        r matches Err(e) ==> e is Certificate,
{
    match rcgen_load_ca_params(pem) {
        Ok((params, declares_ca)) => {
            if declares_ca {
                Ok(Certificate { params, pem: pem.to_owned() })
            } else {
                Err(certificate_error("certificate does not declare a certificate authority"))
            }
        },
        Err(e) => Err(certificate_error(e.as_str())),
    }
}

} // verus!
