//! Turning one framed request payload into a launch plan for the companion
//! application, and rendering the structured response that answers it.
//!
//! A request is a JSON object with an optional `url` and an optional `data`
//! member.  A URL becomes a `--process-url` dispatch; inline data must be a
//! `data:<mime>;base64,<payload>` URI, whose decoded bytes are written to a
//! temporary file that the companion deletes after processing.  Every
//! failure is answered with an error response for that one request; the
//! connection itself lives on.

use base64::Engine;

use crate::jsontext::spec_json_string;
use crate::text::{
    find_char, push_char, spec_contains, spec_dec_digits, spec_find_char, spec_starts_with,
    starts_with_str, u64_to_dec,
};
use vstd::prelude::*;

verus! {

/// What `serde_json` reads out of a request payload: nothing for a payload
/// that is not a JSON object, else the object's optional `url` and `data`
/// string members.  A fixed payload always reads the same way.
pub uninterp spec fn request_fields_of(payload: Seq<u8>) -> Option<
    (Option<Seq<char>>, Option<Seq<char>>),
>;

/// Relies on `serde_json::from_slice` reading one JSON value, and on
/// `Value::get` and `Value::as_str` handing out the `url` and `data` string
/// members: what comes back depends on the payload bytes alone.
#[verifier::external_body]
fn extract_request_fields(payload: &[u8]) -> (r: Option<(Option<String>, Option<String>)>)
    ensures
        match r {
            Some((url, data)) => request_fields_of(payload@) == Some(
                (url.deep_view(), data.deep_view()),
            ),
            None => request_fields_of(payload@) is None,
        },
{
    let v: serde_json::Value = match serde_json::from_slice(payload) {
        Ok(v) => v,
        Err(_) => return None,
    };
    let url = v.get("url").and_then(serde_json::Value::as_str).map(str::to_string);
    let data = v.get("data").and_then(serde_json::Value::as_str).map(str::to_string);
    Some((url, data))
}

/// What base64 decoding of `s` under the standard alphabet yields: nothing
/// for input that is not valid base64.  A fixed input always decodes the
/// same way.
pub uninterp spec fn base64_decode_of(s: Seq<char>) -> Option<Seq<u8>>;

/// Relies on base64's standard-alphabet engine: the decoded bytes depend on
/// the input characters alone.
#[verifier::external_body]
fn b64_decode(s: &str) -> (r: Option<Vec<u8>>)
    ensures
        match r {
            Some(bytes) => base64_decode_of(s@) == Some(bytes@),
            None => base64_decode_of(s@) is None,
        },
{
    base64::engine::general_purpose::STANDARD.decode(s).ok()
}

/// The file extension a data URI's media type selects.
#[derive(Clone, Copy, PartialEq, Eq, Structural, Debug)]
pub enum ImageExt {
    Png,
    Jpg,
    Webp,
}

/// The characters of an extension, without the dot.
pub open spec fn spec_ext_chars(ext: ImageExt) -> Seq<char> {
    match ext {
        ImageExt::Png => "png"@,
        ImageExt::Jpg => "jpg"@,
        ImageExt::Webp => "webp"@,
    }
}

impl ImageExt {
    /// The extension's characters, without the dot.
    pub fn as_str(&self) -> (r: &'static str)
        ensures
            r@ == spec_ext_chars(*self),
    {
        match self {
            ImageExt::Png => "png",
            ImageExt::Jpg => "jpg",
            ImageExt::Webp => "webp",
        }
    }
}

/// The extension for a data URI header: png, jpg or webp when the header
/// names that image type, and png for anything else.
pub open spec fn spec_ext_for_header(header: Seq<char>) -> ImageExt {
    if spec_contains(header, "image/png"@) {
        ImageExt::Png
    } else if spec_contains(header, "image/jpeg"@) || spec_contains(header, "image/jpg"@) {
        ImageExt::Jpg
    } else if spec_contains(header, "image/webp"@) {
        ImageExt::Webp
    } else {
        ImageExt::Png
    }
}

/// Picks the extension for a data URI header, exactly as
/// [`spec_ext_for_header`] describes.
pub fn ext_for_header(header: &str) -> (r: ImageExt)
    ensures
        r == spec_ext_for_header(header@),
{
    if crate::text::contains_str(header, "image/png") {
        ImageExt::Png
    } else if crate::text::contains_str(header, "image/jpeg") || crate::text::contains_str(
        header,
        "image/jpg",
    ) {
        ImageExt::Jpg
    } else if crate::text::contains_str(header, "image/webp") {
        ImageExt::Webp
    } else {
        ImageExt::Png
    }
}

/// Why a single request was refused.  The connection continues afterwards.
#[derive(Clone, Copy, PartialEq, Eq, Structural, Debug)]
pub enum RequestError {
    /// The payload was not a JSON object.
    InvalidJson,
    /// The object carried neither a `url` nor a `data` member.
    NoSource,
    /// The `data` member does not start with `data:`.
    NotDataUri,
    /// The `data` member has no comma separating header from payload.
    MalformedDataUri,
    /// The base64 payload of the data URI does not decode.
    BadBase64,
}

/// The message a refused request is answered with.
pub open spec fn spec_request_error_message(e: RequestError) -> Seq<char> {
    match e {
        RequestError::InvalidJson => "Invalid JSON"@,
        RequestError::NoSource => "No URL or data provided"@,
        RequestError::NotDataUri => "Invalid data URI format (must start with data:)"@,
        RequestError::MalformedDataUri => "Invalid data URI format"@,
        RequestError::BadBase64 => "Failed to decode base64"@,
    }
}

impl RequestError {
    /// The message this error is answered with.
    pub fn message(&self) -> (r: &'static str)
        ensures
            r@ == spec_request_error_message(*self),
    {
        match self {
            RequestError::InvalidJson => "Invalid JSON",
            RequestError::NoSource => "No URL or data provided",
            RequestError::NotDataUri => "Invalid data URI format (must start with data:)",
            RequestError::MalformedDataUri => "Invalid data URI format",
            RequestError::BadBase64 => "Failed to decode base64",
        }
    }
}

/// One validated request.
pub enum BridgeRequest {
    /// Hand the companion this URL to fetch and process.
    UrlRequest { url: String },
    /// Materialize these bytes to a temporary file with this extension,
    /// then hand the companion the file to process and delete.
    DataRequest { ext: ImageExt, bytes: Vec<u8> },
}

/// A validated request, at the specification level.
pub enum SpecRequest {
    UrlReq { url: Seq<char> },
    DataReq { ext: ImageExt, bytes: Seq<u8> },
    Bad { err: RequestError },
}

/// Reading a `data` member: it must carry a `data:` scheme and a comma; the
/// part before the first comma selects the extension, the part after it
/// must decode as base64.
pub open spec fn spec_data_request(data: Seq<char>) -> SpecRequest {
    if !spec_starts_with(data, "data:"@) {
        SpecRequest::Bad { err: RequestError::NotDataUri }
    } else {
        match spec_find_char(data, ',') {
            None => SpecRequest::Bad { err: RequestError::MalformedDataUri },
            Some(k) => {
                let header = data.subrange(0, k);
                let b64 = data.subrange(k + 1, data.len() as int);
                match base64_decode_of(b64) {
                    None => SpecRequest::Bad { err: RequestError::BadBase64 },
                    Some(bytes) => SpecRequest::DataReq {
                        ext: spec_ext_for_header(header),
                        bytes,
                    },
                }
            },
        }
    }
}

/// Reading one payload: a `url` member wins over a `data` member; a payload
/// with neither, or that is no JSON object, is refused.
pub open spec fn spec_parse_request(payload: Seq<u8>) -> SpecRequest {
    match request_fields_of(payload) {
        None => SpecRequest::Bad { err: RequestError::InvalidJson },
        Some((Some(url), _)) => SpecRequest::UrlReq { url },
        Some((None, Some(data))) => spec_data_request(data),
        Some((None, None)) => SpecRequest::Bad { err: RequestError::NoSource },
    }
}

/// Validates one framed payload, exactly as [`spec_parse_request`]
/// describes.
pub fn parse_request(payload: &Vec<u8>) -> (r: Result<BridgeRequest, RequestError>)
    ensures
        match r {
            Ok(BridgeRequest::UrlRequest { url }) => spec_parse_request(payload@)
                == (SpecRequest::UrlReq { url: url@ }),
            Ok(BridgeRequest::DataRequest { ext, bytes }) => spec_parse_request(payload@)
                == (SpecRequest::DataReq { ext, bytes: bytes@ }),
            Err(e) => spec_parse_request(payload@) == (SpecRequest::Bad { err: e }),
        },
{
    let fields = extract_request_fields(payload.as_slice());
    match fields {
        None => Err(RequestError::InvalidJson),
        Some((Some(url), _)) => Ok(BridgeRequest::UrlRequest { url }),
        Some((None, Some(data))) => parse_data_uri(&data),
        Some((None, None)) => Err(RequestError::NoSource),
    }
}

/// Validates the `data` member of a request, exactly as
/// [`spec_data_request`] describes.
pub fn parse_data_uri(data: &String) -> (r: Result<BridgeRequest, RequestError>)
    ensures
        match r {
            Ok(BridgeRequest::DataRequest { ext, bytes }) => spec_data_request(data@)
                == (SpecRequest::DataReq { ext, bytes: bytes@ }),
            Ok(BridgeRequest::UrlRequest { .. }) => false,
            Err(e) => spec_data_request(data@) == (SpecRequest::Bad { err: e }),
        },
{
    if !starts_with_str(data.as_str(), "data:") {
        return Err(RequestError::NotDataUri);
    }
    let comma = find_char(data.as_str(), ',');
    match comma {
        None => Err(RequestError::MalformedDataUri),
        Some(k) => {
            let len = data.as_str().unicode_len();
            let header = data.as_str().substring_char(0, k);
            let b64 = data.as_str().substring_char(k + 1, len);
            let ext = ext_for_header(header);
            match b64_decode(b64) {
                None => Err(RequestError::BadBase64),
                Some(bytes) => Ok(BridgeRequest::DataRequest { ext, bytes }),
            }
        },
    }
}

/// The collision-resistant name of the temporary file for one data request:
/// a fixed stem, the caller's timestamp, and the extension the data URI
/// selected.
pub open spec fn spec_temp_file_name(timestamp: int, ext: ImageExt) -> Seq<char> {
    "omni_tagger_"@ + spec_dec_digits(timestamp) + "."@ + spec_ext_chars(ext)
}

/// Renders the temporary file name for `timestamp` and `ext`.
pub fn temp_file_name(timestamp: u64, ext: ImageExt) -> (r: String)
    ensures
        r@ == spec_temp_file_name(timestamp as int, ext),
{
    let mut r = String::from_str("omni_tagger_");
    let digits = u64_to_dec(timestamp);
    r.append(digits.as_str());
    push_char(&mut r, '.');
    r.append(ext.as_str());
    proof {
        reveal_strlit(".");
        assert("."@ =~= seq!['.']);
        assert(r@ =~= spec_temp_file_name(timestamp as int, ext));
    }
    r
}

/// The dispatch argument vector for a URL request.
pub fn url_dispatch_args(url: &str) -> (r: Vec<String>)
    ensures
        r.deep_view() == seq!["--process-url"@, url@],
{
    let mut r: Vec<String> = Vec::new();
    r.push(String::from_str("--process-url"));
    r.push(String::from_str(url));
    proof {
        assert(r.deep_view() =~= seq!["--process-url"@, url@]);
    }
    r
}

/// The dispatch argument vector for a materialized data request: the
/// companion processes the file at `path` and then deletes it.
pub fn delete_after_dispatch_args(path: &str) -> (r: Vec<String>)
    ensures
        r.deep_view() == seq!["--delete-after"@, path@],
{
    let mut r: Vec<String> = Vec::new();
    r.push(String::from_str("--delete-after"));
    r.push(String::from_str(path));
    proof {
        assert(r.deep_view() =~= seq!["--delete-after"@, path@]);
    }
    r
}

/// The handshake for a URL request: the argument vector the bridge builds
/// parses back, on the companion's side, to exactly that URL's work item.
pub proof fn lemma_url_args_round_trip(url: Seq<char>)
    ensures
        crate::dispatch::spec_parse_dispatch(seq!["--process-url"@, url])
            == (crate::dispatch::SpecDispatch::UrlWork { url }),
{
    reveal_strlit("--process-url");
    reveal_strlit("--delete-after");
    assert("--process-url"@ != "--delete-after"@) by {
        assert("--process-url"@.len() != "--delete-after"@.len());
    }
}

/// The handshake for a data request: the argument vector the bridge builds
/// for a materialized file parses back to that file's work item, with the
/// file itself as the cleanup obligation — as long as the path is no flag.
pub proof fn lemma_delete_after_args_round_trip(path: Seq<char>)
    requires
        !spec_starts_with(path, "--"@),
    ensures
        crate::dispatch::spec_parse_dispatch(seq!["--delete-after"@, path])
            == (crate::dispatch::SpecDispatch::FileWork { path, delete_after: true }),
{
    reveal_strlit("--delete-after");
    reveal_strlit("--process-url");
    reveal_strlit("--");
    assert(path != "--process-url"@) by {
        if path == "--process-url"@ {
            assert(path.subrange(0, 2) =~= "--"@);
        }
    }
}

/// A temporary file name never looks like a flag, so the handshake above
/// applies to every name this module hands out.
pub proof fn lemma_temp_name_is_no_flag(timestamp: int, ext: ImageExt)
    ensures
        !spec_starts_with(spec_temp_file_name(timestamp, ext), "--"@),
{
    reveal_strlit("omni_tagger_");
    reveal_strlit("--");
    let name = spec_temp_file_name(timestamp, ext);
    assert(name[0] == 'o');
    if spec_starts_with(name, "--"@) {
        assert(name.subrange(0, 2)[0] == name[0]);
    }
}

/// The response JSON for one request: its status tag and its message.
pub open spec fn spec_response_json(ok: bool, message: Seq<char>) -> Seq<char> {
    "{\"status\":\""@ + (if ok {
        "ok"@
    } else {
        "error"@
    }) + "\",\"message\":"@ + spec_json_string(message) + "}"@
}

/// Renders the response for one request, exactly as [`spec_response_json`]
/// describes.
pub fn encode_response(ok: bool, message: &str) -> (r: String)
    ensures
        r@ == spec_response_json(ok, message@),
{
    let mut r = String::from_str("{\"status\":\"");
    if ok {
        r.append("ok");
    } else {
        r.append("error");
    }
    r.append("\",\"message\":");
    crate::jsontext::append_json_string(&mut r, message);
    r.append("}");
    r
}

/// The response every successfully dispatched request is answered with:
/// dispatch is fire-and-forget, so success speaks of the launch, never of
/// the eventual processing result.
pub fn ok_response() -> (r: String)
    ensures
        r@ == spec_response_json(true, "Processing started"@),
{
    encode_response(true, "Processing started")
}

} // verus!
