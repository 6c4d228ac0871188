//! Identity discovery: handle to DID, DID to repository endpoint, endpoint
//! to authorization-server metadata. Each hop is a fetch performed by the
//! unverified driver; the URL each hop targets and the reading of each
//! response are decided here.
use vstd::prelude::*;

use crate::encoding::{query_encode, query_encoded_of};
use crate::error::Error;
use crate::strutil::{has_prefix, spec_dec, spec_trim_ws, starts_with, trim_ws, u64_to_dec};
use crate::xrpc::{spec_trim_slashes, trim_trailing_slashes};

verus! {

/// The discovery document of an authorization server: its issuer and the
/// two endpoints the flow needs.
pub struct AuthServerMetadata {
    pub issuer: String,
    pub authorization_endpoint: String,
    pub token_endpoint: String,
    pub pushed_authorization_request_endpoint: Option<String>,
}

/// One service declaration inside a DID document.
pub struct DidService {
    pub id: String,
    pub service_type: String,
    pub service_endpoint: String,
}

/// The parts of a DID document the resolver reads.
pub struct DidDocument {
    pub id: String,
    pub service: Option<Vec<DidService>>,
}

/// The well-known path on the handle's own domain that proves ownership.
pub fn well_known_did_url(handle: &str) -> (r: String)
    ensures
        r@ == "https://"@ + handle@ + "/.well-known/atproto-did"@,
{
    let mut out = String::from_str("https://");
    out.append(handle);
    out.append("/.well-known/atproto-did");
    out
}

/// The public directory API that resolves a handle, with the handle as an
/// encoded query parameter.
pub fn resolve_handle_api_url(handle: &str) -> (r: String)
    ensures
        r@ == "https://public.api.bsky.app/xrpc/com.atproto.identity.resolveHandle?handle="@
            + query_encoded_of(handle@),
{
    let mut out = String::from_str(
        "https://public.api.bsky.app/xrpc/com.atproto.identity.resolveHandle?handle=",
    );
    out.append(query_encode(handle).as_str());
    out
}

/// Reads the well-known response of the first resolution attempt: accepted
/// exactly when the status is a success and the trimmed body starts with
/// the DID prefix; the trimmed body is then the DID.
pub fn accept_well_known_body(status: u16, body: &str) -> (r: Option<String>)
    ensures
        r is Some <==> (200 <= status < 300 && has_prefix(spec_trim_ws(body@), "did:"@)),
        r matches Option::Some(did) ==> did@ == spec_trim_ws(body@),
{
    if !(200 <= status && status < 300) {
        return Option::None;
    }
    let trimmed = trim_ws(body);
    if starts_with(trimmed, "did:") {
        Option::Some(trimmed.to_owned())
    } else {
        Option::None
    }
}

/// The DID a directory-resolution response denotes, when it parses.
pub uninterp spec fn resolved_did_of(body: Seq<char>) -> Option<Seq<char>>;

/// Relies on serde_json: extracts the `did` string of a handle-resolution
/// response; determined by the body alone.
#[verifier::external_body]
pub fn parse_resolve_handle_body(body: &str) -> (r: Option<String>)
    ensures
        r is Some <==> resolved_did_of(body@) is Some,
        match r {
            Option::None => true,
            Option::Some(did) => resolved_did_of(body@) matches Option::Some(d) && did@ == d,
        },
{
    let v: serde_json::Value = serde_json::from_str(body).ok()?;
    Some(v.get("did")?.as_str()?.to_string())
}

/// Reads the directory response of the fallback resolution: a failure
/// status is a resolution error, a success body must carry the DID.
pub fn decode_resolve_handle(status: u16, body: &str) -> (r: Result<String, Error>)
    ensures
        r is Ok <==> (200 <= status < 300 && resolved_did_of(body@) is Some),
        r matches Result::Ok(did) ==> (resolved_did_of(body@) matches Option::Some(d) && did@ == d),
        r matches Result::Err(e) ==> e is Resolution,
        !(200 <= status < 300) ==> (r matches Result::Err(e) && (e matches Error::Resolution(m)
            && m@ == "handle resolution failed: "@ + spec_dec(status as u64))),
{
    if !(200 <= status && status < 300) {
        let mut m = String::from_str("handle resolution failed: ");
        m.append(u64_to_dec(status as u64).as_str());
        return Err(Error::Resolution(m));
    }
    match parse_resolve_handle_body(body) {
        Option::Some(did) => Ok(did),
        Option::None => Err(Error::Resolution(String::from_str("could not parse the response"))),
    }
}

/// Where a DID's document lives: the directory service for the `plc`
/// method, the domain's well-known path for the `web` method; any other
/// method is unsupported.
pub fn did_document_url(did: &str) -> (r: Result<String, Error>)
    ensures
        has_prefix(did@, "did:plc:"@) ==> (r matches Result::Ok(u) && u@ == "https://plc.directory/"@
            + did@),
        (!has_prefix(did@, "did:plc:"@) && has_prefix(did@, "did:web:"@)) ==> (r matches
            Result::Ok(u) && u@ == "https://"@ + did@.subrange(8, did@.len() as int)
            + "/.well-known/did.json"@),
        (!has_prefix(did@, "did:plc:"@) && !has_prefix(did@, "did:web:"@)) ==> (r matches
            Result::Err(e) && e is Resolution),
{
    if starts_with(did, "did:plc:") {
        let mut out = String::from_str("https://plc.directory/");
        out.append(did);
        Ok(out)
    } else if starts_with(did, "did:web:") {
        proof {
            reveal_strlit("did:web:");
        }
        let n = did.unicode_len();
        let domain = did.substring_char(8, n);
        let mut out = String::from_str("https://");
        out.append(domain);
        out.append("/.well-known/did.json");
        Ok(out)
    } else {
        Err(Error::Resolution(String::from_str("unsupported DID method")))
    }
}

/// The document fields a DID-document body denotes, when it parses: the
/// subject id, and the declared services if any, each as its id, type and
/// endpoint.
pub uninterp spec fn did_document_fields_of(body: Seq<char>) -> Option<
    (Seq<char>, Option<Seq<(Seq<char>, Seq<char>, Seq<char>)>>),
>;

/// Relies on serde_json: extracts the subject `id` and the `service` array
/// with each entry's `id`, `type` and `serviceEndpoint`; determined by the
/// body alone.
#[verifier::external_body]
pub fn parse_did_document_body(body: &str) -> (r: Option<DidDocument>)
    ensures
        r is Some <==> did_document_fields_of(body@) is Some,
        match r {
            Option::None => true,
            Option::Some(doc) => did_document_fields_of(body@) matches Option::Some(f) && doc.id@
                == f.0 && (match (doc.service, f.1) {
                (Option::None, Option::None) => true,
                (Option::Some(sv), Option::Some(fs)) => sv@.len() == fs.len() && (forall|i: int|
                    0 <= i < fs.len() ==> (#[trigger] sv@[i]).id@ == fs[i].0
                        && sv@[i].service_type@ == fs[i].1 && sv@[i].service_endpoint@ == fs[i].2),
                _ => false,
            }),
        },
{
    let v: serde_json::Value = serde_json::from_str(body).ok()?;
    let id = v.get("id")?.as_str()?.to_string();
    let service = match v.get("service") {
        None | Some(serde_json::Value::Null) => None,
        Some(arr) => {
            let mut services = Vec::new();
            for item in arr.as_array()? {
                services.push(DidService { id: item.get("id")?.as_str()?.to_string(),
                    service_type: item.get("type")?.as_str()?.to_string(),
                    service_endpoint: item.get("serviceEndpoint")?.as_str()?.to_string() });
            }
            Some(services)
        },
    };
    Some(DidDocument { id, service })
}

/// The service type that marks an account's personal data server.
pub open spec fn spec_pds_type() -> Seq<char> {
    "AtprotoPersonalDataServer"@
}

/// Scans the declared services for the first one tagged as the personal
/// data server and yields its endpoint.
pub fn find_pds_endpoint(services: &Vec<DidService>) -> (r: Option<String>)
    ensures
        r is Some <==> exists|i: int|
            0 <= i < services@.len() && (#[trigger] services@[i]).service_type@ == spec_pds_type(),
        r matches Option::Some(endpoint) ==> exists|i: int|
            {
                &&& 0 <= i < services@.len()
                &&& (#[trigger] services@[i]).service_type@ == spec_pds_type()
                &&& endpoint@ == services@[i].service_endpoint@
                &&& forall|k: int| 0 <= k < i ==> services@[k].service_type@ != spec_pds_type()
            },
{
    let n = services.len();
    let mut i: usize = 0;
    while i < n
        invariant
            i <= n,
            n == services@.len(),
            forall|k: int| 0 <= k < i ==> (#[trigger] services@[k]).service_type@ != spec_pds_type(),
        decreases n - i,
    {
        if crate::strutil::str_eq(services[i].service_type.as_str(), "AtprotoPersonalDataServer") {
            return Option::Some(services[i].service_endpoint.clone());
        }
        i = i + 1;
    }
    Option::None
}

/// Reads a fetched DID document and extracts the repository endpoint, with
/// each failure named: a failed fetch, an unparsable document, a document
/// without services, or one without a personal-data-server service. On
/// success the endpoint is the first service tagged as the personal data
/// server.
pub fn decode_pds_url(status: u16, body: &str) -> (r: Result<String, Error>)
    ensures
        r matches Result::Err(e) ==> e is Resolution,
        r is Ok ==> 200 <= status < 300 && did_document_fields_of(body@) is Some,
        (200 <= status < 300 && (did_document_fields_of(body@) matches Option::Some(f) && (f.1
            matches Option::Some(fs) && (exists|i: int|
            0 <= i < fs.len() && (#[trigger] fs[i]).1 == spec_pds_type())))) ==> r is Ok,
        !(200 <= status < 300) ==> (r matches Result::Err(e) && (e matches Error::Resolution(m)
            && m@ == "DID document fetch failed: "@ + spec_dec(status as u64))),
        r matches Result::Ok(endpoint) ==> (did_document_fields_of(body@) matches Option::Some(f)
            && (f.1 matches Option::Some(fs) && (exists|i: int|
            {
                &&& 0 <= i < fs.len()
                &&& (#[trigger] fs[i]).1 == spec_pds_type()
                &&& endpoint@ == fs[i].2
                &&& forall|k: int| 0 <= k < i ==> fs[k].1 != spec_pds_type()
            }))),
{
    if !(200 <= status && status < 300) {
        let mut m = String::from_str("DID document fetch failed: ");
        m.append(u64_to_dec(status as u64).as_str());
        return Err(Error::Resolution(m));
    }
    let doc = match parse_did_document_body(body) {
        Option::Some(d) => d,
        Option::None => {
            return Err(Error::Resolution(String::from_str("could not parse the DID document")));
        },
    };
    match doc.service {
        Option::None => Err(Error::Resolution(String::from_str("no services in DID document"))),
        Option::Some(services) => match find_pds_endpoint(&services) {
            Option::Some(endpoint) => {
                proof {
                    let f = did_document_fields_of(body@)->Some_0;
                    let fs = f.1->Some_0;
                    let i = choose|i: int|
                        {
                            &&& 0 <= i < services@.len()
                            &&& (#[trigger] services@[i]).service_type@ == spec_pds_type()
                            &&& endpoint@ == services@[i].service_endpoint@
                            &&& forall|k: int|
                                0 <= k < i ==> services@[k].service_type@ != spec_pds_type()
                        };
                    assert((fs[i]).1 == spec_pds_type() && endpoint@ == fs[i].2);
                    assert forall|k: int| 0 <= k < i implies (#[trigger] fs[k]).1
                        != spec_pds_type() by {
                        assert(services@[k].service_type@ == fs[k].1);
                    }
                }
                Ok(endpoint)
            },
            Option::None => {
                proof {
                    let fopt = did_document_fields_of(body@);
                    if fopt is Some {
                        let f = fopt->Some_0;
                        if f.1 is Some {
                            let fs = f.1->Some_0;
                            if exists|i: int|
                                0 <= i < fs.len() && (#[trigger] fs[i]).1 == spec_pds_type() {
                                let i = choose|i: int|
                                    0 <= i < fs.len() && (#[trigger] fs[i]).1 == spec_pds_type();
                                assert(services@[i].service_type@ == fs[i].1);
                            }
                        }
                    }
                }
                Err(Error::Resolution(String::from_str("no PDS service found in DID document")))
            },
        },
    }
}

/// The protected-resource metadata path on a repository endpoint.
pub fn protected_resource_url(pds_url: &str) -> (r: String)
    ensures
        r@ == spec_trim_slashes(pds_url@) + "/.well-known/oauth-protected-resource"@,
{
    let mut out = trim_trailing_slashes(pds_url).to_owned();
    out.append("/.well-known/oauth-protected-resource");
    out
}

/// The metadata path on an authorization server.
pub fn auth_server_metadata_url(as_url: &str) -> (r: String)
    ensures
        r@ == spec_trim_slashes(as_url@) + "/.well-known/oauth-authorization-server"@,
{
    let mut out = trim_trailing_slashes(as_url).to_owned();
    out.append("/.well-known/oauth-authorization-server");
    out
}

/// The authorization servers a protected-resource document declares, when
/// it parses.
pub uninterp spec fn authorization_servers_of(body: Seq<char>) -> Option<Seq<Seq<char>>>;

/// Relies on serde_json: extracts the `authorization_servers` string
/// array; determined by the body alone.
#[verifier::external_body]
pub fn parse_protected_resource_body(body: &str) -> (r: Option<Vec<String>>)
    ensures
        r is Some <==> authorization_servers_of(body@) is Some,
        match r {
            Option::None => true,
            Option::Some(servers) => authorization_servers_of(body@) matches Option::Some(f)
                && servers@.len() == f.len() && (forall|i: int|
                0 <= i < f.len() ==> (#[trigger] servers@[i])@ == f[i]),
        },
{
    let v: serde_json::Value = serde_json::from_str(body).ok()?;
    let mut servers = Vec::new();
    for item in v.get("authorization_servers")?.as_array()? {
        servers.push(item.as_str()?.to_string());
    }
    Some(servers)
}

/// Reads the protected-resource response: the first declared authorization
/// server, with each failure named.
pub fn decode_authorization_server(status: u16, body: &str) -> (r: Result<String, Error>)
    ensures
        r matches Result::Err(e) ==> e is Resolution,
        r is Ok <==> (200 <= status < 300 && (authorization_servers_of(body@)
            matches Option::Some(f) && f.len() > 0)),
        r matches Result::Ok(first) ==> (authorization_servers_of(body@) matches Option::Some(f)
            && f.len() > 0 && first@ == f[0]),
        !(200 <= status < 300) ==> (r matches Result::Err(e) && (e matches Error::Resolution(m)
            && m@ == "protected resource metadata fetch failed: "@ + spec_dec(status as u64))),
{
    if !(200 <= status && status < 300) {
        let mut m = String::from_str("protected resource metadata fetch failed: ");
        m.append(u64_to_dec(status as u64).as_str());
        return Err(Error::Resolution(m));
    }
    match parse_protected_resource_body(body) {
        Option::None => Err(
            Error::Resolution(String::from_str("could not parse protected resource metadata")),
        ),
        Option::Some(servers) => {
            if servers.len() == 0 {
                Err(Error::Resolution(String::from_str("no authorization servers found")))
            } else {
                let first = servers[0].clone();
                Ok(first)
            }
        },
    }
}

/// The metadata fields an authorization-server document denotes, when it
/// parses: issuer, authorization endpoint, token endpoint, and the
/// optional pushed-authorization endpoint.
pub uninterp spec fn auth_server_metadata_fields_of(body: Seq<char>) -> Option<
    (Seq<char>, Seq<char>, Seq<char>, Option<Seq<char>>),
>;

/// Relies on serde_json: extracts `issuer`, `authorization_endpoint`,
/// `token_endpoint` and the optional
/// `pushed_authorization_request_endpoint`; determined by the body alone.
#[verifier::external_body]
pub fn parse_auth_server_metadata_body(body: &str) -> (r: Option<AuthServerMetadata>)
    ensures
        r is Some <==> auth_server_metadata_fields_of(body@) is Some,
        match r {
            Option::None => true,
            Option::Some(m) => auth_server_metadata_fields_of(body@) matches Option::Some(f)
                && m.issuer@ == f.0 && m.authorization_endpoint@ == f.1 && m.token_endpoint@ == f.2
                && (match (m.pushed_authorization_request_endpoint, f.3) {
                (Option::None, Option::None) => true,
                (Option::Some(p), Option::Some(fp)) => p@ == fp,
                _ => false,
            }),
        },
{
    let v: serde_json::Value = serde_json::from_str(body).ok()?;
    let pushed = match v.get("pushed_authorization_request_endpoint") {
        None | Some(serde_json::Value::Null) => None,
        Some(serde_json::Value::String(s)) => Some(s.clone()),
        Some(_) => return None,
    };
    Some(AuthServerMetadata {
        issuer: v.get("issuer")?.as_str()?.to_string(),
        authorization_endpoint: v.get("authorization_endpoint")?.as_str()?.to_string(),
        token_endpoint: v.get("token_endpoint")?.as_str()?.to_string(),
        pushed_authorization_request_endpoint: pushed,
    })
}

/// Reads the authorization-server metadata response, with each failure
/// named.
pub fn decode_auth_server_metadata(status: u16, body: &str) -> (r: Result<AuthServerMetadata, Error>)
    ensures
        r matches Result::Err(e) ==> e is Resolution,
        r is Ok <==> (200 <= status < 300 && auth_server_metadata_fields_of(body@) is Some),
        r matches Result::Ok(m) ==> (auth_server_metadata_fields_of(body@) matches Option::Some(f)
            && m.issuer@ == f.0 && m.authorization_endpoint@ == f.1 && m.token_endpoint@ == f.2),
        !(200 <= status < 300) ==> (r matches Result::Err(e) && (e matches Error::Resolution(m)
            && m@ == "AS metadata fetch failed: "@ + spec_dec(status as u64))),
{
    if !(200 <= status && status < 300) {
        let mut m = String::from_str("AS metadata fetch failed: ");
        m.append(u64_to_dec(status as u64).as_str());
        return Err(Error::Resolution(m));
    }
    match parse_auth_server_metadata_body(body) {
        Option::Some(m) => Ok(m),
        Option::None => Err(Error::Resolution(String::from_str("could not parse AS metadata"))),
    }
}

} // verus!
