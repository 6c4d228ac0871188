//! Typed repository operations: the request each one sends (method id,
//! query pairs, JSON body) and the decoding of each response. Record values
//! travel as raw JSON text, so a caller supplies its record already
//! serialized and reads the fetched value as JSON text.
use vstd::prelude::*;

use crate::blob::{BlobRef, CidLink};
use crate::encoding::{json_quote, json_quoted_of};
use crate::error::Error;
use crate::xrpc::{decode_error, spec_decoded_error, spec_pairs_view};

verus! {

/// Response of a single-record fetch; `value` is the record as JSON text.
pub struct GetRecordOutput {
    pub uri: String,
    pub cid: Option<String>,
    pub value: String,
}

/// Input of a record write at a fixed key; `record` is JSON text.
pub struct PutRecordInput {
    pub repo: String,
    pub collection: String,
    pub rkey: String,
    pub record: String,
    pub swap_record: Option<String>,
    pub swap_commit: Option<String>,
    pub validate: Option<bool>,
}

pub struct PutRecordOutput {
    pub uri: String,
    pub cid: String,
}

/// Input of a record creation; `record` is JSON text.
pub struct CreateRecordInput {
    pub repo: String,
    pub collection: String,
    pub record: String,
    pub rkey: Option<String>,
    pub swap_commit: Option<String>,
    pub validate: Option<bool>,
}

pub struct CreateRecordOutput {
    pub uri: String,
    pub cid: String,
}

pub struct DeleteRecordInput {
    pub repo: String,
    pub collection: String,
    pub rkey: String,
    pub swap_record: Option<String>,
    pub swap_commit: Option<String>,
}

pub struct ListRecordsRecord {
    pub uri: String,
    pub cid: String,
    pub value: String,
}

pub struct ListRecordsOutput {
    pub records: Vec<ListRecordsRecord>,
    pub cursor: Option<String>,
}

pub struct UploadBlobOutput {
    pub blob: BlobRef,
}

/// An optional string field rendered as `,"name":"value"`, or nothing.
pub open spec fn spec_opt_field(name_part: Seq<char>, v: Option<Seq<char>>) -> Seq<char> {
    match v {
        Option::None => Seq::empty(),
        Option::Some(s) => name_part + json_quoted_of(s),
    }
}

/// An optional boolean field rendered as `,"name":true` or `,"name":false`,
/// or nothing.
pub open spec fn spec_opt_bool_field(name_part: Seq<char>, v: Option<bool>) -> Seq<char> {
    match v {
        Option::None => Seq::empty(),
        Option::Some(b) => name_part + (if b {
            "true"@
        } else {
            "false"@
        }),
    }
}

/// The JSON body of a `putRecord` call, fields in wire order, optional
/// fields present exactly when set, the record spliced in as given.
pub open spec fn spec_put_record_json(i: &PutRecordInput) -> Seq<char> {
    "{\"repo\":"@ + json_quoted_of(i.repo@) + ",\"collection\":"@ + json_quoted_of(i.collection@)
        + ",\"rkey\":"@ + json_quoted_of(i.rkey@) + ",\"record\":"@ + i.record@ + spec_opt_field(
        ",\"swapRecord\":"@,
        match i.swap_record {
            Option::None => Option::None,
            Option::Some(ref s) => Option::Some(s@),
        },
    ) + spec_opt_field(
        ",\"swapCommit\":"@,
        match i.swap_commit {
            Option::None => Option::None,
            Option::Some(ref s) => Option::Some(s@),
        },
    ) + spec_opt_bool_field(",\"validate\":"@, i.validate) + "}"@
}

/// The JSON body of a `createRecord` call.
pub open spec fn spec_create_record_json(i: &CreateRecordInput) -> Seq<char> {
    "{\"repo\":"@ + json_quoted_of(i.repo@) + ",\"collection\":"@ + json_quoted_of(i.collection@)
        + ",\"record\":"@ + i.record@ + spec_opt_field(
        ",\"rkey\":"@,
        match i.rkey {
            Option::None => Option::None,
            Option::Some(ref s) => Option::Some(s@),
        },
    ) + spec_opt_field(
        ",\"swapCommit\":"@,
        match i.swap_commit {
            Option::None => Option::None,
            Option::Some(ref s) => Option::Some(s@),
        },
    ) + spec_opt_bool_field(",\"validate\":"@, i.validate) + "}"@
}

/// The JSON body of a `deleteRecord` call.
pub open spec fn spec_delete_record_json(i: &DeleteRecordInput) -> Seq<char> {
    "{\"repo\":"@ + json_quoted_of(i.repo@) + ",\"collection\":"@ + json_quoted_of(i.collection@)
        + ",\"rkey\":"@ + json_quoted_of(i.rkey@) + spec_opt_field(
        ",\"swapRecord\":"@,
        match i.swap_record {
            Option::None => Option::None,
            Option::Some(ref s) => Option::Some(s@),
        },
    ) + spec_opt_field(
        ",\"swapCommit\":"@,
        match i.swap_commit {
            Option::None => Option::None,
            Option::Some(ref s) => Option::Some(s@),
        },
    ) + "}"@
}

impl PutRecordInput {
    pub fn to_json(&self) -> (r: String)
        ensures
            r@ == spec_put_record_json(self),
    {
        let mut out = String::from_str("{\"repo\":");
        out.append(json_quote(self.repo.as_str()).as_str());
        out.append(",\"collection\":");
        out.append(json_quote(self.collection.as_str()).as_str());
        out.append(",\"rkey\":");
        out.append(json_quote(self.rkey.as_str()).as_str());
        out.append(",\"record\":");
        out.append(self.record.as_str());
        match &self.swap_record {
            Option::None => {},
            Option::Some(s) => {
                out.append(",\"swapRecord\":");
                out.append(json_quote(s.as_str()).as_str());
            },
        }
        match &self.swap_commit {
            Option::None => {},
            Option::Some(s) => {
                out.append(",\"swapCommit\":");
                out.append(json_quote(s.as_str()).as_str());
            },
        }
        match &self.validate {
            Option::None => {},
            Option::Some(b) => {
                out.append(",\"validate\":");
                out.append(if *b {
                    "true"
                } else {
                    "false"
                });
            },
        }
        out.append("}");
        proof {
            assert(out@ =~= spec_put_record_json(self));
        }
        out
    }
}

impl CreateRecordInput {
    pub fn to_json(&self) -> (r: String)
        ensures
            r@ == spec_create_record_json(self),
    {
        let mut out = String::from_str("{\"repo\":");
        out.append(json_quote(self.repo.as_str()).as_str());
        out.append(",\"collection\":");
        out.append(json_quote(self.collection.as_str()).as_str());
        out.append(",\"record\":");
        out.append(self.record.as_str());
        match &self.rkey {
            Option::None => {},
            Option::Some(s) => {
                out.append(",\"rkey\":");
                out.append(json_quote(s.as_str()).as_str());
            },
        }
        match &self.swap_commit {
            Option::None => {},
            Option::Some(s) => {
                out.append(",\"swapCommit\":");
                out.append(json_quote(s.as_str()).as_str());
            },
        }
        match &self.validate {
            Option::None => {},
            Option::Some(b) => {
                out.append(",\"validate\":");
                out.append(if *b {
                    "true"
                } else {
                    "false"
                });
            },
        }
        out.append("}");
        proof {
            assert(out@ =~= spec_create_record_json(self));
        }
        out
    }
}

impl DeleteRecordInput {
    pub fn to_json(&self) -> (r: String)
        ensures
            r@ == spec_delete_record_json(self),
    {
        let mut out = String::from_str("{\"repo\":");
        out.append(json_quote(self.repo.as_str()).as_str());
        out.append(",\"collection\":");
        out.append(json_quote(self.collection.as_str()).as_str());
        out.append(",\"rkey\":");
        out.append(json_quote(self.rkey.as_str()).as_str());
        match &self.swap_record {
            Option::None => {},
            Option::Some(s) => {
                out.append(",\"swapRecord\":");
                out.append(json_quote(s.as_str()).as_str());
            },
        }
        match &self.swap_commit {
            Option::None => {},
            Option::Some(s) => {
                out.append(",\"swapCommit\":");
                out.append(json_quote(s.as_str()).as_str());
            },
        }
        out.append("}");
        proof {
            assert(out@ =~= spec_delete_record_json(self));
        }
        out
    }
}

/// The query pairs of a single-record fetch.
pub fn get_record_params(repo: &str, collection: &str, rkey: &str) -> (r: Vec<(String, String)>)
    ensures
        spec_pairs_view(r@) =~= seq![
            ("repo"@, repo@),
            ("collection"@, collection@),
            ("rkey"@, rkey@),
        ],
{
    let mut params: Vec<(String, String)> = Vec::new();
    params.push((String::from_str("repo"), repo.to_owned()));
    params.push((String::from_str("collection"), collection.to_owned()));
    params.push((String::from_str("rkey"), rkey.to_owned()));
    params
}

/// The query pairs of a collection listing without options.
pub fn list_records_params(repo: &str, collection: &str) -> (r: Vec<(String, String)>)
    ensures
        spec_pairs_view(r@) =~= seq![("repo"@, repo@), ("collection"@, collection@)],
{
    let mut params: Vec<(String, String)> = Vec::new();
    params.push((String::from_str("repo"), repo.to_owned()));
    params.push((String::from_str("collection"), collection.to_owned()));
    params
}

/// The query pairs of a collection listing with pagination options, each
/// present exactly when set: `limit` in decimal, `cursor` verbatim,
/// `reverse` as `true`/`false`.
pub fn list_records_params_with_options(
    repo: &str,
    collection: &str,
    limit: Option<u32>,
    cursor: Option<&str>,
    reverse: Option<bool>,
) -> (r: Vec<(String, String)>)
    ensures
        spec_pairs_view(r@) =~= seq![("repo"@, repo@), ("collection"@, collection@)] + (match limit {
            Option::None => Seq::<(Seq<char>, Seq<char>)>::empty(),
            Option::Some(l) => seq![("limit"@, crate::strutil::spec_dec(l as u64))],
        }) + (match cursor {
            Option::None => Seq::<(Seq<char>, Seq<char>)>::empty(),
            Option::Some(c) => seq![("cursor"@, c@)],
        }) + (match reverse {
            Option::None => Seq::<(Seq<char>, Seq<char>)>::empty(),
            Option::Some(b) => seq![
                ("reverse"@, if b {
                    "true"@
                } else {
                    "false"@
                }),
            ],
        }),
{
    let mut params: Vec<(String, String)> = Vec::new();
    params.push((String::from_str("repo"), repo.to_owned()));
    params.push((String::from_str("collection"), collection.to_owned()));
    match limit {
        Option::None => {},
        Option::Some(l) => {
            params.push((String::from_str("limit"), crate::strutil::u64_to_dec(l as u64)));
        },
    }
    match cursor {
        Option::None => {},
        Option::Some(c) => {
            params.push((String::from_str("cursor"), c.to_owned()));
        },
    }
    match reverse {
        Option::None => {},
        Option::Some(b) => {
            params.push(
                (
                    String::from_str("reverse"),
                    if b {
                        String::from_str("true")
                    } else {
                        String::from_str("false")
                    },
                ),
            );
        },
    }
    params
}

/// The fields a `getRecord` response body denotes, when it parses: the
/// record URI, the optional content hash, and the value as JSON text.
pub uninterp spec fn get_record_fields_of(body: Seq<char>) -> Option<
    (Seq<char>, Option<Seq<char>>, Seq<char>),
>;

/// Relies on serde_json: extracts `uri`, optional `cid`, and the `value`
/// re-serialized as compact JSON text; determined by the body alone.
#[verifier::external_body]
pub fn parse_get_record_body(body: &str) -> (r: Option<GetRecordOutput>)
    ensures
        r is Some <==> get_record_fields_of(body@) is Some,
        match r {
            Option::None => true,
            Option::Some(o) => get_record_fields_of(body@) matches Option::Some(f) && o.uri@ == f.0
                && (match (o.cid, f.1) {
                (Option::None, Option::None) => true,
                (Option::Some(c), Option::Some(fc)) => c@ == fc,
                _ => false,
            }) && o.value@ == f.2,
        },
{
    let v: serde_json::Value = serde_json::from_str(body).ok()?;
    let uri = v.get("uri")?.as_str()?.to_string();
    let cid = match v.get("cid") {
        None | Some(serde_json::Value::Null) => None,
        Some(serde_json::Value::String(s)) => Some(s.clone()),
        Some(_) => return None,
    };
    let value = v.get("value")?.to_string();
    Some(GetRecordOutput { uri, cid, value })
}

/// The `uri` and `cid` fields a record-write response denotes, when it
/// parses.
pub uninterp spec fn record_ref_fields_of(body: Seq<char>) -> Option<(Seq<char>, Seq<char>)>;

/// Relies on serde_json: extracts the `uri` and `cid` strings of a write
/// response; determined by the body alone.
#[verifier::external_body]
pub fn parse_record_ref_body(body: &str) -> (r: Option<(String, String)>)
    ensures
        r is Some <==> record_ref_fields_of(body@) is Some,
        match r {
            Option::None => true,
            Option::Some(p) => record_ref_fields_of(body@) matches Option::Some(f) && p.0@ == f.0
                && p.1@ == f.1,
        },
{
    let v: serde_json::Value = serde_json::from_str(body).ok()?;
    let uri = v.get("uri")?.as_str()?.to_string();
    let cid = v.get("cid")?.as_str()?.to_string();
    Some((uri, cid))
}

/// The records and cursor a `listRecords` response denotes, when it
/// parses: for each record its URI, content hash, and value as JSON text.
pub uninterp spec fn list_records_fields_of(body: Seq<char>) -> Option<
    (Seq<(Seq<char>, Seq<char>, Seq<char>)>, Option<Seq<char>>),
>;

/// Relies on serde_json: extracts the `records` array (each with `uri`,
/// `cid`, and `value` re-serialized as JSON text) and the optional
/// `cursor`; determined by the body alone.
#[verifier::external_body]
pub fn parse_list_records_body(body: &str) -> (r: Option<ListRecordsOutput>)
    ensures
        r is Some <==> list_records_fields_of(body@) is Some,
        match r {
            Option::None => true,
            Option::Some(o) => list_records_fields_of(body@) matches Option::Some(f) && {
                &&& o.records@.len() == f.0.len()
                &&& forall|i: int|
                    0 <= i < f.0.len() ==> (#[trigger] o.records@[i]).uri@ == f.0[i].0
                        && o.records@[i].cid@ == f.0[i].1 && o.records@[i].value@ == f.0[i].2
                &&& match (o.cursor, f.1) {
                    (Option::None, Option::None) => true,
                    (Option::Some(c), Option::Some(fc)) => c@ == fc,
                    _ => false,
                }
            },
        },
{
    let v: serde_json::Value = serde_json::from_str(body).ok()?;
    let mut records = Vec::new();
    for item in v.get("records")?.as_array()? {
        records.push(ListRecordsRecord { uri: item.get("uri")?.as_str()?.to_string(),
            cid: item.get("cid")?.as_str()?.to_string(),
            value: item.get("value")?.to_string() });
    }
    let cursor = match v.get("cursor") {
        None | Some(serde_json::Value::Null) => None,
        Some(serde_json::Value::String(s)) => Some(s.clone()),
        Some(_) => return None,
    };
    Some(ListRecordsOutput { records, cursor })
}

/// The blob-reference fields under the `blob` member of an upload
/// response, when the envelope parses: type marker, link, media type,
/// size.
pub uninterp spec fn upload_blob_fields_of(body: Seq<char>) -> Option<
    (Seq<char>, Seq<char>, Seq<char>, u64),
>;

/// Relies on serde_json: extracts the `blob` object of an upload response
/// as its four blob-reference fields; determined by the body alone.
#[verifier::external_body]
pub fn parse_upload_blob_body(body: &str) -> (r: Option<BlobRef>)
    ensures
        r is Some <==> upload_blob_fields_of(body@) is Some,
        match r {
            Option::None => true,
            Option::Some(b) => upload_blob_fields_of(body@) matches Option::Some(f)
                && b.type_marker@ == f.0 && b.cid.link@ == f.1 && b.mime_type@ == f.2 && b.size
                == f.3,
        },
{
    let v: serde_json::Value = serde_json::from_str(body).ok()?;
    let blob = v.get("blob")?;
    let type_marker = blob.get("$type")?.as_str()?.to_string();
    let link = blob.get("ref")?.get("$link")?.as_str()?.to_string();
    let mime_type = blob.get("mimeType")?.as_str()?.to_string();
    let size = blob.get("size")?.as_u64()?;
    Some(BlobRef { type_marker, cid: CidLink { link }, mime_type, size })
}

/// Interprets the terminal response of a `getRecord` call: a success body
/// must parse as the declared shape, anything else is the structured
/// error.
pub fn decode_get_record(status: u16, body: String) -> (r: Result<GetRecordOutput, Error>)
    ensures
        r is Ok <==> (200 <= status < 300 && get_record_fields_of(body@) is Some),
        r matches Result::Ok(o) ==> (get_record_fields_of(body@) matches Option::Some(f) && o.uri@
            == f.0 && o.value@ == f.2 && (match (o.cid, f.1) {
            (Option::None, Option::None) => true,
            (Option::Some(c), Option::Some(fc)) => c@ == fc,
            _ => false,
        })),
        (200 <= status < 300 && get_record_fields_of(body@) is None) ==> (r matches Result::Err(e)
            && e is Json),
        !(200 <= status < 300) ==> (r matches Result::Err(e) && spec_decoded_error(
            status,
            body@,
            "Unknown"@,
            e,
        )),
{
    if 200 <= status && status < 300 {
        match parse_get_record_body(body.as_str()) {
            Option::Some(o) => Ok(o),
            Option::None => Err(
                Error::Json(String::from_str("response body is not a record envelope")),
            ),
        }
    } else {
        Err(decode_error(status, body, "Unknown"))
    }
}

/// Interprets the terminal response of a record write (`putRecord` or
/// `createRecord`): a success body must carry `uri` and `cid`.
pub fn decode_record_ref(status: u16, body: String) -> (r: Result<(String, String), Error>)
    ensures
        r is Ok <==> (200 <= status < 300 && record_ref_fields_of(body@) is Some),
        r matches Result::Ok(p) ==> (record_ref_fields_of(body@) matches Option::Some(f) && p.0@
            == f.0 && p.1@ == f.1),
        (200 <= status < 300 && record_ref_fields_of(body@) is None) ==> (r matches Result::Err(e)
            && e is Json),
        !(200 <= status < 300) ==> (r matches Result::Err(e) && spec_decoded_error(
            status,
            body@,
            "Unknown"@,
            e,
        )),
{
    if 200 <= status && status < 300 {
        match parse_record_ref_body(body.as_str()) {
            Option::Some(p) => Ok(p),
            Option::None => Err(
                Error::Json(String::from_str("response body is not a record reference")),
            ),
        }
    } else {
        Err(decode_error(status, body, "Unknown"))
    }
}

/// Interprets the terminal response of a `listRecords` call.
pub fn decode_list_records(status: u16, body: String) -> (r: Result<ListRecordsOutput, Error>)
    ensures
        r is Ok <==> (200 <= status < 300 && list_records_fields_of(body@) is Some),
        r matches Result::Ok(o) ==> (list_records_fields_of(body@) matches Option::Some(f) && {
            &&& o.records@.len() == f.0.len()
            &&& forall|i: int|
                0 <= i < f.0.len() ==> (#[trigger] o.records@[i]).uri@ == f.0[i].0
                    && o.records@[i].cid@ == f.0[i].1 && o.records@[i].value@ == f.0[i].2
            &&& match (o.cursor, f.1) {
                (Option::None, Option::None) => true,
                (Option::Some(c), Option::Some(fc)) => c@ == fc,
                _ => false,
            }
        }),
        !(200 <= status < 300) ==> (r matches Result::Err(e) && spec_decoded_error(
            status,
            body@,
            "Unknown"@,
            e,
        )),
{
    if 200 <= status && status < 300 {
        match parse_list_records_body(body.as_str()) {
            Option::Some(o) => Ok(o),
            Option::None => Err(
                Error::Json(String::from_str("response body is not a record listing")),
            ),
        }
    } else {
        Err(decode_error(status, body, "Unknown"))
    }
}

/// Interprets the terminal response of an `uploadBlob` call.
pub fn decode_upload_blob(status: u16, body: String) -> (r: Result<BlobRef, Error>)
    ensures
        r is Ok <==> (200 <= status < 300 && upload_blob_fields_of(body@) is Some),
        r matches Result::Ok(b) ==> (upload_blob_fields_of(body@) matches Option::Some(f)
            && b.cid.link@ == f.1 && b.mime_type@ == f.2 && b.size == f.3),
        !(200 <= status < 300) ==> (r matches Result::Err(e) && spec_decoded_error(
            status,
            body@,
            "Unknown"@,
            e,
        )),
{
    if 200 <= status && status < 300 {
        match parse_upload_blob_body(body.as_str()) {
            Option::Some(b) => Ok(b),
            Option::None => Err(
                Error::Json(String::from_str("response body is not a blob envelope")),
            ),
        }
    } else {
        Err(decode_error(status, body, "Unknown"))
    }
}

/// `s` holds at least one slash.
pub open spec fn has_slash(s: Seq<char>) -> bool {
    exists|i: int| 0 <= i < s.len() && s[i] == '/'
}

/// The text after the last slash of `s`; the whole text when no slash
/// occurs.
pub open spec fn spec_last_segment(s: Seq<char>) -> Seq<char>
    decreases s.len(),
{
    if s.len() == 0 {
        s
    } else if has_slash(s) {
        spec_last_segment(s.drop_first())
    } else {
        s
    }
}

/// The suffix of `s` from the first position after which no slash occurs
/// is its last segment.
proof fn lemma_last_segment_suffix(s: Seq<char>, j: int)
    requires
        0 <= j <= s.len(),
        forall|k: int| j <= k < s.len() ==> s[k] != '/',
        j == 0 || s[j - 1] == '/',
    ensures
        spec_last_segment(s) == s.subrange(j, s.len() as int),
    decreases s.len(),
{
    if j == 0 {
        if has_slash(s) {
            let i = choose|i: int| 0 <= i < s.len() && s[i] == '/';
            assert(s[i] != '/');
        }
        assert(s.subrange(0, s.len() as int) =~= s);
        if s.len() > 0 {
            assert(spec_last_segment(s) == s);
        }
    } else {
        assert(has_slash(s)) by {
            assert(0 <= j - 1 < s.len() && s[j - 1] == '/');
        }
        let t = s.drop_first();
        assert(forall|k: int| j - 1 <= k < t.len() ==> #[trigger] t[k] == s[k + 1]);
        lemma_last_segment_suffix(t, j - 1);
        assert(t.subrange(j - 1, t.len() as int) =~= s.subrange(j, s.len() as int));
    }
}

/// The final `/`-separated segment of a URI: the record key of a record
/// URI. The whole text when no slash occurs.
pub fn rkey_from_uri(uri: &str) -> (r: String)
    ensures
        r@ == spec_last_segment(uri@),
{
    let n = uri.unicode_len();
    let mut j: usize = n;
    while j > 0 && uri.get_char(j - 1) != '/'
        invariant
            j <= n,
            n == uri@.len(),
            forall|k: int| j <= k < n ==> uri@[k] != '/',
        decreases j,
    {
        j = j - 1;
    }
    let r = uri.substring_char(j, n).to_owned();
    proof {
        lemma_last_segment_suffix(uri@, j as int);
        assert(r@ == uri@.subrange(j as int, uri@.len() as int));
    }
    r
}

} // verus!
