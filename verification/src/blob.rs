//! References to uploaded binary assets: a content hash behind a link
//! wrapper, a media type, and a size, immutable once issued by the server.
use vstd::prelude::*;

use crate::encoding::{json_quote, json_quoted_of};
use crate::strutil::{spec_dec, u64_to_dec};

verus! {

/// The content-hash link wrapper inside a blob reference.
#[derive(Debug, Clone)]
pub struct CidLink {
    pub link: String,
}

/// A reference to an uploaded blob.
#[derive(Debug, Clone)]
pub struct BlobRef {
    pub type_marker: String,
    pub cid: CidLink,
    pub mime_type: String,
    pub size: u64,
}

/// The JSON form of a blob reference, as the wire protocol spells it:
/// the type marker, the link object, the media type, and the size.
pub open spec fn spec_blob_json(marker: Seq<char>, link: Seq<char>, mime: Seq<char>, size: u64) -> Seq<
    char,
> {
    "{\"$type\":"@ + json_quoted_of(marker) + ",\"ref\":{\"$link\":"@ + json_quoted_of(link)
        + "},\"mimeType\":"@ + json_quoted_of(mime) + ",\"size\":"@ + spec_dec(size) + "}"@
}

/// The fields a blob-reference JSON text denotes, when it parses: type
/// marker, link, media type, size.
pub uninterp spec fn blob_fields_of(body: Seq<char>) -> Option<
    (Seq<char>, Seq<char>, Seq<char>, u64),
>;

impl BlobRef {
    pub fn new(cid: &str, mime_type: &str, size: u64) -> (r: BlobRef)
        ensures
            r.type_marker@ == "blob"@,
            r.cid.link@ == cid@,
            r.mime_type@ == mime_type@,
            r.size == size,
    {
        BlobRef {
            type_marker: String::from_str("blob"),
            cid: CidLink { link: cid.to_owned() },
            mime_type: mime_type.to_owned(),
            size,
        }
    }

    pub fn cid(&self) -> (r: &str)
        ensures
            r@ == self.cid.link@,
    {
        self.cid.link.as_str()
    }

    /// Serializes the reference to its JSON wire form.
    pub fn to_json(&self) -> (r: String)
        ensures
            r@ == spec_blob_json(self.type_marker@, self.cid.link@, self.mime_type@, self.size),
    {
        let mut out = String::from_str("{\"$type\":");
        out.append(json_quote(self.type_marker.as_str()).as_str());
        out.append(",\"ref\":{\"$link\":");
        out.append(json_quote(self.cid.link.as_str()).as_str());
        out.append("},\"mimeType\":");
        out.append(json_quote(self.mime_type.as_str()).as_str());
        out.append(",\"size\":");
        out.append(u64_to_dec(self.size).as_str());
        out.append("}");
        proof {
            assert(out@ =~= spec_blob_json(
                self.type_marker@,
                self.cid.link@,
                self.mime_type@,
                self.size,
            ));
        }
        out
    }

    /// Relies on serde_json: parses a blob-reference object with its type
    /// marker, `ref.$link`, `mimeType` and integral `size`; what it yields
    /// depends on the text alone.
    #[verifier::external_body]
    pub fn from_json(body: &str) -> (r: Option<BlobRef>)
        ensures
            r is Some <==> blob_fields_of(body@) is Some,
            match r {
                Option::None => true,
                Option::Some(b) => blob_fields_of(body@) matches Option::Some(f)
                    && b.type_marker@ == f.0 && b.cid.link@ == f.1 && b.mime_type@ == f.2 && b.size
                    == f.3,
            },
    {
        let v: serde_json::Value = serde_json::from_str(body).ok()?;
        let type_marker = v.get("$type")?.as_str()?.to_string();
        let link = v.get("ref")?.get("$link")?.as_str()?.to_string();
        let mime_type = v.get("mimeType")?.as_str()?.to_string();
        let size = v.get("size")?.as_u64()?;
        Some(BlobRef { type_marker, cid: CidLink { link }, mime_type, size })
    }
}

impl PartialEq for BlobRef {
    fn eq(&self, other: &BlobRef) -> (r: bool) {
        self.type_marker == other.type_marker && self.cid.link == other.cid.link
            && self.mime_type == other.mime_type && self.size == other.size
    }
}

impl vstd::std_specs::cmp::PartialEqSpecImpl for BlobRef {
    open spec fn obeys_eq_spec() -> bool {
        true
    }

    open spec fn eq_spec(&self, other: &BlobRef) -> bool {
        self.type_marker@ == other.type_marker@ && self.cid.link@ == other.cid.link@
            && self.mime_type@ == other.mime_type@ && self.size == other.size
    }
}

} // verus!
