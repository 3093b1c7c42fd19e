//! The planning service's metadata answer: what is read out of it, and the
//! decision taken on it.
//!
//! The service's first endpoint answers with JSON of the shape
//! `{"fetch": {"status": ...}, "fms_downloads": {"xpe": {"link": ...}}}`.
//! Parsing is the one outside call here; everything decided on the parsed
//! fields — which error on which shape, and the download URL built on
//! success — is verified.

use vstd::prelude::*;

use crate::errors::FetchError;
use crate::text::without_quotes;

verus! {

/// The two fields the pipeline reads out of a metadata answer, as plain
/// values: each present exactly where the JSON holds it as a string.
pub struct MetadataFields {
    pub status: Option<String>,
    pub link: Option<String>,
}

/// View of an optional text field.
pub open spec fn opt_text(o: Option<String>) -> Option<Seq<char>> {
    match o {
        Some(s) => Some(s@),
        None => None,
    }
}

/// What parsing a metadata body yields: nothing where the body is not valid
/// JSON; else the `fetch.status` and `fms_downloads.xpe.link` fields, each
/// absent where missing or not a string. A function of the body text alone.
pub uninterp spec fn parsed_metadata(body: Seq<char>) -> Option<
    (Option<Seq<char>>, Option<Seq<char>>),
>;

/// The `fetch.status` field of a well-formed body.
pub open spec fn parsed_status(body: Seq<char>) -> Option<Seq<char>>
    recommends
        parsed_metadata(body) is Some,
{
    match parsed_metadata(body) {
        Some(fields) => fields.0,
        None => None,
    }
}

/// The `fms_downloads.xpe.link` field of a well-formed body.
pub open spec fn parsed_link(body: Seq<char>) -> Option<Seq<char>>
    recommends
        parsed_metadata(body) is Some,
{
    match parsed_metadata(body) {
        Some(fields) => fields.1,
        None => None,
    }
}

/// Relies on `serde_json::from_str` for `serde_json::Value`: it succeeds
/// exactly on well-formed JSON, as a function of the body text alone; on
/// `Value`'s `Index` impl, under which a missing key or a non-object gives
/// `Null`; and on `Value::as_str`, which gives the string exactly where the
/// value is one.
#[verifier::external_body]
fn parse_metadata_fields(body: &str) -> (r: Result<MetadataFields, String>)
    ensures
        r is Ok <==> parsed_metadata(body@) is Some,
        r matches Ok(m) ==> opt_text(m.status) == parsed_status(body@),
        r matches Ok(m) ==> opt_text(m.link) == parsed_link(body@),
{
    match serde_json::from_str::<serde_json::Value>(body) {
        Ok(v) => Ok(MetadataFields {
            status: v["fetch"]["status"].as_str().map(|s| s.to_string()),
            link: v["fms_downloads"]["xpe"]["link"].as_str().map(|s| s.to_string()),
        }),
        Err(e) => Err(e.to_string()),
    }
}

/// The metadata endpoint for `username`.
pub open spec fn metadata_url_spec(username: Seq<char>) -> Seq<char> {
    "https://www.simbrief.com/api/xml.fetcher.php?username="@ + username + "&json=1"@
}

/// The download endpoint for the cleaned link `link`.
pub open spec fn plan_url_spec(link: Seq<char>) -> Seq<char> {
    "https://www.simbrief.com/ofp/flightplans/"@ + link
}

/// The URL of the metadata request for `username`.
pub fn metadata_url(username: &str) -> (r: String)
    ensures
        r@ == metadata_url_spec(username@),
{
    let mut r = String::from_str("https://www.simbrief.com/api/xml.fetcher.php?username=");
    r.append(username);
    r.append("&json=1");
    r
}

/// The decision owed on a metadata body `body`: on ill-formed JSON the parse
/// failure (whose context is the parser's own words); on a missing or
/// non-string status the malformed error; on a status other than the success
/// marker that status as the service's own failure; on success but a missing
/// or non-string link the malformed error; else the download URL of the
/// link, cleaned of quoting artifacts.
pub open spec fn metadata_decision(body: Seq<char>, r: Result<String, FetchError>) -> bool {
    if parsed_metadata(body) is None {
        r matches Err(FetchError::MetadataParseFailed(_))
    } else {
        match parsed_status(body) {
            None => r matches Err(FetchError::MetadataMalformed(m)) && m@
                == "fetch/status key is not a string,"@,
            Some(status) => if status != "Success"@ {
                r matches Err(FetchError::RemoteRequestFailed(s)) && s@ == status
            } else {
                match parsed_link(body) {
                    None => r matches Err(FetchError::MetadataMalformed(m)) && m@
                        == "fms_downloads/xpe/link key is not a string"@,
                    Some(link) => r matches Ok(url) && url@ == plan_url_spec(without_quotes(link)),
                }
            },
        }
    }
}

/// Interpret a metadata response body: either the full download URL of the
/// flight plan, or the typed failure, as `metadata_decision` states.
pub fn plan_request_from_metadata(body: &str) -> (r: Result<String, FetchError>)
    ensures
        metadata_decision(body@, r),
{
    let fields = match parse_metadata_fields(body) {
        Ok(f) => f,
        Err(context) => {
            return Err(FetchError::MetadataParseFailed(context));
        },
    };
    let status = match fields.status {
        Some(s) => s,
        None => {
            return Err(
                FetchError::MetadataMalformed(
                    String::from_str("fetch/status key is not a string,"),
                ),
            );
        },
    };
    let success = String::from_str("Success");
    if status != success {
        return Err(FetchError::RemoteRequestFailed(status));
    }
    let link = match fields.link {
        Some(l) => l,
        None => {
            return Err(
                FetchError::MetadataMalformed(
                    String::from_str("fms_downloads/xpe/link key is not a string"),
                ),
            );
        },
    };
    let cleaned = crate::text::strip_quotes(link.as_str());
    let mut url = String::from_str("https://www.simbrief.com/ofp/flightplans/");
    url.append(cleaned.as_str());
    Ok(url)
}

} // verus!
