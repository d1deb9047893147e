//! Structured records of the certificates a TLS peer presents.
//!
//! Each certificate of the peer's trust chain, given as its raw DER bytes,
//! is decoded and reduced to a record of its Common-Name subject entries,
//! its DNS-typed Subject Alternative Names, and its validity window in the
//! certificate's own display format. Chain order is preserved exactly as
//! the peer presented it; nothing is validated, reordered or deduplicated.

use vstd::prelude::*;

use crate::error::ErrorKind;

verus! {

/// Whether the DER bytes parse as an X.509 certificate.
pub uninterp spec fn cert_parses(der: Seq<u8>) -> bool;

/// The Common-Name entries of the certificate's subject, in certificate
/// order, one entry per CN attribute (possibly none, possibly several).
pub uninterp spec fn cert_common_names(der: Seq<u8>) -> Seq<Seq<char>>;

/// The DNS-typed Subject Alternative Name entries, in certificate order;
/// empty when the extension is absent or holds no DNS entries.
pub uninterp spec fn cert_dns_sans(der: Seq<u8>) -> Seq<Seq<char>>;

/// The start of the validity window, in the certificate's display format.
pub uninterp spec fn cert_not_before(der: Seq<u8>) -> Seq<char>;

/// The end of the validity window, in the certificate's display format.
pub uninterp spec fn cert_not_after(der: Seq<u8>) -> Seq<char>;

/// Relies on openssl's `X509::from_der`, which parses the DER bytes or
/// rejects them; `X509NameRef::entries_by_nid` over the subject with the
/// Common-Name identifier, yielding the CN attributes in certificate order
/// (entries whose data is not valid UTF-8 are dropped);
/// `X509Ref::subject_alt_names`, which yields the Subject Alternative Name
/// entries in certificate order, or `None` when the extension is absent,
/// with `GeneralNameRef::dnsname` telling the DNS-typed entries apart from
/// every other kind; and the display form of `X509Ref::not_before` and
/// `X509Ref::not_after`. Each is a function of the DER bytes alone.
#[allow(deprecated)]
#[verifier::external_body]
fn decode_der(der: &Vec<u8>) -> (r: Option<(Vec<String>, Vec<String>, String, String)>)
    ensures
        r is Some <==> cert_parses(der@),
        r matches Some(t) ==> {
            &&& t.0@.map_values(|s: String| s@) == cert_common_names(der@)
            &&& t.1@.map_values(|s: String| s@) == cert_dns_sans(der@)
            &&& t.2@ == cert_not_before(der@)
            &&& t.3@ == cert_not_after(der@)
        },
{
    let x = match openssl::x509::X509::from_der(der) {
        Ok(x) => x,
        Err(_) => return None,
    };
    let cns = x.subject_name().entries_by_nid(openssl::nid::Nid::COMMONNAME)
        .filter_map(|e| e.data().as_utf8().ok().map(|s| s.to_string()))
        .collect();
    let sans = match x.subject_alt_names() {
        Some(ns) => ns.iter().filter_map(|n| n.dnsname().map(|d| d.to_string())).collect(),
        None => Vec::new(),
    };
    Some((cns, sans, x.not_before().to_string(), x.not_after().to_string()))
}

/// One peer certificate, reduced to its subject Common Names, its DNS
/// Subject Alternative Names, and its validity window in the
/// certificate's native display format. Immutable once built.
#[derive(Debug, PartialEq)]
pub struct SslCertificate {
    pub subject_names: Vec<String>,
    pub subject_alt_names: Vec<String>,
    pub not_before: String,
    pub not_after: String,
}

impl SslCertificate {
    /// Bundles already-extracted certificate fields into a record; every
    /// field is kept exactly as handed in.
    pub fn new(
        subject_names: Vec<String>,
        subject_alt_names: Vec<String>,
        not_before: String,
        not_after: String,
    ) -> (r: SslCertificate)
        ensures
            r.subject_names == subject_names,
            r.subject_alt_names == subject_alt_names,
            r.not_before == not_before,
            r.not_after == not_after,
    {
        SslCertificate { subject_names, subject_alt_names, not_before, not_after }
    }
}

/// The record holds exactly the fields of the certificate with these DER
/// bytes: its CN entries, its DNS Subject Alternative Names, and its two
/// validity timestamps, all verbatim and in certificate order.
pub open spec fn record_matches(c: SslCertificate, der: Seq<u8>) -> bool {
    &&& c.subject_names@.map_values(|s: String| s@) == cert_common_names(der)
    &&& c.subject_alt_names@.map_values(|s: String| s@) == cert_dns_sans(der)
    &&& c.not_before@ == cert_not_before(der)
    &&& c.not_after@ == cert_not_after(der)
}

/// Every entry of the chain parses as a certificate.
pub open spec fn chain_parses(chain: Seq<Vec<u8>>) -> bool {
    forall|i: int| 0 <= i < chain.len() ==> cert_parses(#[trigger] chain[i]@)
}

/// One record per chain entry, in chain order, each matching its entry.
pub open spec fn extraction_matches(rs: Seq<SslCertificate>, chain: Seq<Vec<u8>>) -> bool {
    &&& rs.len() == chain.len()
    &&& forall|i: int| 0 <= i < chain.len() ==> record_matches(#[trigger] rs[i], chain[i]@)
}

/// Walks the peer's trust chain, one DER-encoded certificate per entry,
/// and produces one record per entry in the same order. Succeeds exactly
/// when every entry parses; a single unparsable entry is a decode failure.
/// Absent subject names or alternative names yield empty collections,
/// never an error.
pub fn extract_certificates(chain: &Vec<Vec<u8>>) -> (r: Result<Vec<SslCertificate>, ErrorKind>)
    ensures
        r is Ok <==> chain_parses(chain@),
        r matches Err(k) ==> k == ErrorKind::CertificateDecodeFailure,
        r matches Ok(rs) ==> extraction_matches(rs@, chain@),
{
    let mut records: Vec<SslCertificate> = Vec::new();
    let mut idx: usize = 0;
    while idx < chain.len()
        invariant
            0 <= idx <= chain@.len(),
            records@.len() == idx,
            forall|i: int| 0 <= i < idx ==> cert_parses(#[trigger] chain@[i]@),
            forall|i: int| 0 <= i < idx ==> record_matches(#[trigger] records@[i], chain@[i]@),
        decreases chain@.len() - idx,
    {
        match decode_der(&chain[idx]) {
            Some(parts) => {
                let (cns, sans, nb, na) = parts;
                let rec = SslCertificate::new(cns, sans, nb, na);
                records.push(rec);
            },
            None => {
                return Err(ErrorKind::CertificateDecodeFailure);
            },
        }
        idx += 1;
    }
    Ok(records)
}

/// Two records extracted from the same certificate agree, field for field,
/// on every character.
pub open spec fn records_alike(a: SslCertificate, b: SslCertificate) -> bool {
    &&& a.subject_names@.map_values(|s: String| s@) == b.subject_names@.map_values(
        |s: String| s@,
    )
    &&& a.subject_alt_names@.map_values(|s: String| s@) == b.subject_alt_names@.map_values(
        |s: String| s@,
    )
    &&& a.not_before@ == b.not_before@
    &&& a.not_after@ == b.not_after@
}

/// Re-running the extractor over the same chain is idempotent: any two
/// record sequences that match the chain are identical, record for record
/// and character for character.
pub proof fn lemma_extraction_deterministic(
    r1: Seq<SslCertificate>,
    r2: Seq<SslCertificate>,
    chain: Seq<Vec<u8>>,
)
    requires
        extraction_matches(r1, chain),
        extraction_matches(r2, chain),
    ensures
        r1.len() == r2.len(),
        forall|i: int| 0 <= i < r1.len() ==> records_alike(#[trigger] r1[i], r2[i]),
{
    assert forall|i: int| 0 <= i < r1.len() implies records_alike(#[trigger] r1[i], r2[i]) by {
        assert(record_matches(r1[i], chain[i]@));
        assert(record_matches(r2[i], chain[i]@));
    }
}

} // verus!
