//! The CA manager: creation versus loading of the root key and
//! certificate, and the regeneration invariant.
//!
//! File reading and writing belong to the surrounding application; the
//! manager works on the observed contents of the two files — `None` for an
//! absent file, `Some` text for a present one — and reports which of them
//! must be (re)written. Only *absence* of the key file triggers
//! generation: a present but malformed file is surfaced as an error, never
//! silently replaced, so corrupted trust material cannot be papered over.
//! A regenerated key always brings a regenerated certificate with it, even
//! when a certificate file is still present, because that certificate was
//! signed by the superseded key.

use vstd::prelude::*;
use vstd::string::StringExecFns;

use crate::error::{Error, IoKind};
use crate::trust::{
    ca_cert_parses, cert_declares_ca, cert_subject_names, cert_validity_span_days,
    decode_certificate, decode_key, ip_text_char, key_parses, plainly_a_host_name, signed_by,
    Certificate, KeyMaterial,
};

verus! {

/// The fixed generation parameters of the authority: the application
/// identifier that names the subject (suffixed with `-root` on the
/// certificate), the country attribute, and the validity window in days.
pub struct CaOptions {
    pub common_name: String,
    pub country: String,
    pub validity_days: u64,
}

impl CaOptions {
    /// The validity window must stay within the representable calendar.
    pub open spec fn wf(&self) -> bool {
        self.validity_days <= 36500
    }

    /// The standard options: the application identifier, its fixed
    /// country attribute, and a five-year validity window.
    pub fn standard() -> (r: CaOptions)
        ensures
            r.common_name@ == "holepunch"@,
            r.country@ == "NET"@,
            r.validity_days == 1825,
            r.wf(),
    {
        CaOptions {
            common_name: String::from_str("holepunch"),
            country: String::from_str("NET"),
            validity_days: 1825,
        }
    }
}

/// The observed contents of the two trust-material files: `None` where
/// the file is absent, `Some` text where it is present.
#[derive(Debug, Clone)]
pub struct CaFiles {
    pub key: Option<String>,
    pub cert: Option<String>,
}

/// The mathematical shadow of `CaFiles`: the two optional texts.
pub struct CaFilesView {
    pub key: Option<Seq<char>>,
    pub cert: Option<Seq<char>>,
}

impl View for CaFiles {
    type V = CaFilesView;

    open spec fn view(&self) -> CaFilesView {
        CaFilesView {
            key: match self.key {
                Option::Some(k) => Option::Some(k@),
                Option::None => Option::None,
            },
            cert: match self.cert {
                Option::Some(c) => Option::Some(c@),
                Option::None => Option::None,
            },
        }
    }
}

/// What a manager operation produced: the live key and certificate, and
/// whether each of the two files must be written back with the returned
/// material's encoding.
#[derive(Debug)]
pub struct CaOutcome {
    pub key: KeyMaterial,
    pub cert: Certificate,
    pub wrote_key: bool,
    pub wrote_cert: bool,
}

/// The mathematical shadow of `CaOutcome`: the two encodings and the two
/// write flags.
pub struct CaOutcomeView {
    pub key_pem: Seq<char>,
    pub cert_pem: Seq<char>,
    pub wrote_key: bool,
    pub wrote_cert: bool,
}

impl View for CaOutcome {
    type V = CaOutcomeView;

    open spec fn view(&self) -> CaOutcomeView {
        CaOutcomeView {
            key_pem: self.key@,
            cert_pem: self.cert@,
            wrote_key: self.wrote_key,
            wrote_cert: self.wrote_cert,
        }
    }
}

/// The key file is present and its text decodes back to a key.
pub open spec fn key_file_ok(f: CaFilesView) -> bool {
    f.key matches Option::Some(k) && key_parses(k)
}

/// The certificate file is present and its text decodes back to a
/// certificate that declares a certificate authority.
pub open spec fn cert_file_ok(f: CaFilesView) -> bool {
    f.cert matches Option::Some(c) && ca_cert_parses(c) && cert_declares_ca(c)
}

/// Both returned artifacts decode back: the key text parses as a key, the
/// certificate text parses and declares a certificate authority.
pub open spec fn trusted_pair(o: CaOutcomeView) -> bool {
    key_parses(o.key_pem) && ca_cert_parses(o.cert_pem) && cert_declares_ca(o.cert_pem)
}

/// The subject name the manager gives every certificate it generates: the
/// application identifier suffixed `-root`.
pub open spec fn root_subject(opts: &CaOptions) -> Seq<char> {
    opts.common_name@ + "-root"@
}

/// What holds of every certificate the manager generates, beyond decoding
/// back as a CA: its one subject name is the application identifier
/// suffixed `-root`, its validity window spans exactly the configured
/// number of days, and it is self-signed by the returned key — never by
/// any other.
pub open spec fn generated_for(cert_pem: Seq<char>, key: &KeyMaterial, opts: &CaOptions) -> bool {
    &&& cert_subject_names(cert_pem) == seq![root_subject(opts)]
    &&& cert_validity_span_days(cert_pem) == opts.validity_days as int
    &&& signed_by(cert_pem, key.spec_key_pair())
}

/// Everything `ensure_ca` promises of a successful outcome, given the
/// observed files:
/// a present key file is loaded verbatim and not rewritten, an absent one
/// is regenerated and written; the certificate is loaded verbatim exactly
/// when both files were present, and regenerated and written otherwise —
/// in particular whenever the key was regenerated, even over a still
/// present certificate file.
pub open spec fn ensure_post(f: CaFilesView, o: CaOutcomeView) -> bool {
    &&& trusted_pair(o)
    &&& match f.key {
        Option::Some(k) => !o.wrote_key && o.key_pem == k,
        Option::None => o.wrote_key,
    }
    &&& if f.key is Some && f.cert is Some {
        !o.wrote_cert && o.cert_pem == f.cert.unwrap()
    } else {
        o.wrote_cert
    }
}

/// The file contents after the application performs the writes an outcome
/// asks for: each written file holds the returned encoding, each other
/// file is untouched.
pub open spec fn apply_outcome(f: CaFilesView, o: CaOutcomeView) -> CaFilesView {
    CaFilesView {
        key: if o.wrote_key {
            Option::Some(o.key_pem)
        } else {
            f.key
        },
        cert: if o.wrote_cert {
            Option::Some(o.cert_pem)
        } else {
            f.cert
        },
    }
}

/// Idempotence of `ensure_ca`: after the writes of one successful run are
/// applied, any further successful run writes nothing and returns byte-
/// identical key and certificate encodings, leaving the files exactly as
/// the first run left them.
pub proof fn lemma_ensure_idempotent(f: CaFilesView, first: CaOutcomeView, second: CaOutcomeView)
    requires
        ensure_post(f, first),
        ensure_post(apply_outcome(f, first), second),
    ensures
        !second.wrote_key,
        !second.wrote_cert,
        second.key_pem == first.key_pem,
        second.cert_pem == first.cert_pem,
        apply_outcome(apply_outcome(f, first), second) == apply_outcome(f, first),
{
}

/// The regeneration invariant: when the key file is absent — deleted, or
/// never written — every successful `ensure_ca` regenerates and writes
/// both the key and the certificate, even if a certificate file is still
/// present; the stale certificate is never returned.
pub proof fn lemma_key_regeneration(f: CaFilesView, o: CaOutcomeView)
    requires
        f.key is None,
        ensure_post(f, o),
    ensures
        o.wrote_key,
        o.wrote_cert,
{
}

/// Generates a certificate self-signed by `key` under the given options,
/// with the subject name suffixed `-root`.
fn generate_certificate(key: &KeyMaterial, opts: &CaOptions) -> (r: Result<Certificate, Error>)
    requires
        opts.wf(),
    ensures
        r matches Ok(c) ==> c.wf() && generated_for(c@, key, opts),
        r matches Err(e) ==> e is Certificate,
{
    let subject = opts.common_name.clone().concat("-root");
    proof {
        // The `-root` suffix holds an `r`, which no IP address text can:
        // the subject is recorded as a DNS name, verbatim.
        reveal_strlit("-root");
        let s = subject@;
        let at = opts.common_name@.len() + 1;
        assert(s[at as int] == 'r');
        assert(!ip_text_char('r'));
        assert(plainly_a_host_name(s));
    }
    Certificate::generate(key, subject.as_str(), opts.country.as_str(), opts.validity_days)
}

/// Unconditionally generates a fresh key and a fresh certificate
/// self-signed by it, asking for both files to be (over)written. The
/// caller is responsible for any confirmation before discarding existing
/// material.
pub fn create_ca(opts: &CaOptions) -> (r: Result<CaOutcome, Error>)
    requires
        opts.wf(),
    ensures
        r matches Ok(o) ==> o.wrote_key && o.wrote_cert && trusted_pair(o@) && o.key.wf()
            && o.cert.wf() && generated_for(o.cert@, &o.key, opts),
        r matches Err(e) ==> e is Certificate,
{
    let key = match KeyMaterial::generate() {
        Ok(k) => k,
        Err(e) => return Err(e),
    };
    let cert = match generate_certificate(&key, opts) {
        Ok(c) => c,
        Err(e) => return Err(e),
    };
    Ok(CaOutcome { key, cert, wrote_key: true, wrote_cert: true })
}

/// Strictly loads both artifacts from the observed file contents,
/// performing no generation and asking for no write at all: the outcome's
/// write flags are always clear, so a read-only file system suffices.
/// Succeeds exactly when both files are present and well formed; an
/// absent file is an I/O `NotFound` failure, a malformed one a
/// certificate failure.
pub fn load_ca(files: &CaFiles) -> (r: Result<CaOutcome, Error>)
    ensures
        r matches Ok(o) ==> !o.wrote_key && !o.wrote_cert,
        r matches Ok(o) ==> files@.key == Option::Some(o@.key_pem) && files@.cert == Option::Some(
            o@.cert_pem,
        ) && trusted_pair(o@) && o.key.wf() && o.cert.wf(),
        r is Ok <==> key_file_ok(files@) && cert_file_ok(files@),
        files@.key is None ==> (r matches Err(e) && e matches Error::IO(IoKind::NotFound)),
        (files@.key is Some && !key_file_ok(files@)) ==> (r matches Err(e) && e is Certificate),
        (key_file_ok(files@) && files@.cert is None) ==> (r matches Err(e) && e matches Error::IO(
            IoKind::NotFound,
        )),
        (key_file_ok(files@) && files@.cert is Some && !cert_file_ok(files@)) ==> (r matches Err(
            e,
        ) && e is Certificate),
{
    let key = match &files.key {
        Option::Some(pem) => match decode_key(pem.as_str()) {
            Ok(k) => k,
            Err(e) => return Err(e),
        },
        Option::None => return Err(Error::IO(IoKind::NotFound)),
    };
    let cert = match &files.cert {
        Option::Some(pem) => match decode_certificate(pem.as_str()) {
            Ok(c) => c,
            Err(e) => return Err(e),
        },
        Option::None => return Err(Error::IO(IoKind::NotFound)),
    };
    Ok(CaOutcome { key, cert, wrote_key: false, wrote_cert: false })
}

/// Obtains the authority's key and certificate, generating what is
/// missing. An absent key file triggers generation of both artifacts; a
/// present key is loaded, and then the certificate is loaded if its file
/// is present or generated if not. Present but malformed files fail, they
/// are never overwritten. A successful outcome satisfies `ensure_post`,
/// from which idempotence (`lemma_ensure_idempotent`) and the
/// regeneration invariant (`lemma_key_regeneration`) follow. When both
/// files are present and well formed, success is certain and nothing is
/// written.
pub fn ensure_ca(files: &CaFiles, opts: &CaOptions) -> (r: Result<CaOutcome, Error>)
    requires
        opts.wf(),
    ensures
        r matches Ok(o) ==> ensure_post(files@, o@) && o.key.wf() && o.cert.wf(),
        r matches Ok(o) ==> (o.wrote_cert ==> generated_for(o.cert@, &o.key, opts)),
        r matches Err(e) ==> e is Certificate,
        (files@.key is Some && !key_file_ok(files@)) ==> r is Err,
        (key_file_ok(files@) && files@.cert is Some && !cert_file_ok(files@)) ==> r is Err,
        (key_file_ok(files@) && cert_file_ok(files@)) ==> r is Ok,
{
    let (key, wrote_key) = match &files.key {
        Option::Some(pem) => match decode_key(pem.as_str()) {
            Ok(k) => (k, false),
            Err(e) => return Err(e),
        },
        Option::None => match KeyMaterial::generate() {
            Ok(k) => (k, true),
            Err(e) => return Err(e),
        },
    };
    let (cert, wrote_cert) = if !wrote_key {
        match &files.cert {
            Option::Some(pem) => match decode_certificate(pem.as_str()) {
                Ok(c) => (c, false),
                Err(e) => return Err(e),
            },
            Option::None => match generate_certificate(&key, opts) {
                Ok(c) => (c, true),
                Err(e) => return Err(e),
            },
        }
    } else {
        match generate_certificate(&key, opts) {
            Ok(c) => (c, true),
            Err(e) => return Err(e),
        }
    };
    Ok(CaOutcome { key, cert, wrote_key, wrote_cert })
}

} // verus!
