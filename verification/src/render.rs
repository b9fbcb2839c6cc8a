//! The text that is emitted for a record: one JSON object on one line,
//!
//! ```text
//! {"ip":"..","full_data":{"ip":"..","country_code":"..","city":"..","isp":"..","error":".."}}
//! ```
//!
//! in which `error` stands only where it is not empty. The object is framed
//! here; each string in it is encoded by `serde_json`. Where a string cannot
//! be encoded, nothing is written for the record: the text is empty.

use crate::record::{FullLocationData, LocationRecord, OutputData, OutputRecord};
use vstd::prelude::*;

verus! {

/// The error of `serde_json`; which one it is plays no part here.
#[verifier::external_type_specification]
#[verifier::external_body]
pub struct ExJsonError(serde_json::Error);

/// What `serde_json::to_string` gives for `text`: the JSON string literal,
/// opening and closing quote included, or `None` where it reports an error.
pub uninterp spec fn json_string(text: Seq<char>) -> Option<Seq<char>>;

/// The text holds no line feed.
pub open spec fn single_line(text: Seq<char>) -> bool {
    forall|i: int| 0 <= i < text.len() ==> text[i] != '\n'
}

/// Calls `serde_json::to_string` on a string slice. Trusted: what the call
/// gives, a literal or an error, is what [`json_string`] names, a function
/// of the characters of `text` alone, since the call writes into a buffer of
/// its own and reads nothing else; and a literal holds no line feed, since
/// the compact form adds no white space and every control character inside a
/// literal is written as an escape sequence. That the call succeeds is not
/// assumed.
#[verifier::external_body]
fn encode_text(text: &str) -> (encoded: Result<String, serde_json::Error>)
    ensures
        match encoded {
            Ok(literal) => json_string(text@) == Some(literal@),
            Err(_) => json_string(text@) is None,
        },
        encoded matches Ok(literal) ==> single_line(literal@),
{
    serde_json::to_string(text)
}

/// The object of a location, given the literal of each of its strings;
/// `error` is `None` where the member is left out.
pub open spec fn location_frame(
    ip_address: Seq<char>,
    country_code: Seq<char>,
    city: Seq<char>,
    isp: Seq<char>,
    error: Option<Seq<char>>,
) -> Seq<char> {
    "{\"ip\":"@ + ip_address + ",\"country_code\":"@ + country_code + ",\"city\":"@ + city
        + ",\"isp\":"@ + isp + match error {
        Some(reason) => ",\"error\":"@ + reason,
        None => Seq::empty(),
    } + "}"@
}

/// The object of a whole record, given the literal of its address and the
/// object of its location.
pub open spec fn output_frame(ip_address: Seq<char>, full_data: Seq<char>) -> Seq<char> {
    "{\"ip\":"@ + ip_address + ",\"full_data\":"@ + full_data + "}"@
}

/// The literal of the member `error`: the member is left out, which the
/// inner `None` says, if and only if `error` is empty. The outer `None` says
/// that the member is due and cannot be encoded.
pub open spec fn error_member(record: LocationRecord) -> Option<Option<Seq<char>>> {
    if record.is_failure() {
        match json_string(record.error) {
            Some(literal) => Some(Some(literal)),
            None => None,
        }
    } else {
        Some(None)
    }
}

/// The text of a location: the object framed from the literals of its
/// strings, or `None` where one of the strings that are written cannot be
/// encoded.
pub open spec fn location_text(record: LocationRecord) -> Option<Seq<char>> {
    match (
        json_string(record.ip_address),
        json_string(record.country_code),
        json_string(record.city),
        json_string(record.isp),
        error_member(record),
    ) {
        (Some(ip_address), Some(country_code), Some(city), Some(isp), Some(error)) => Some(
            location_frame(ip_address, country_code, city, isp, error),
        ),
        _ => None,
    }
}

/// The text of a whole record: the object framed from the literal of its
/// address and the text of its location, or `None` where one of the two is
/// not to be had.
pub open spec fn output_text(output: OutputRecord) -> Option<Seq<char>> {
    match (json_string(output.ip_address), location_text(output.full)) {
        (Some(ip_address), Some(full_data)) => Some(output_frame(ip_address, full_data)),
        _ => None,
    }
}

/// The line that is emitted for a record: its text, or the empty text where
/// it has none.
pub open spec fn emitted_text(output: OutputRecord) -> Seq<char> {
    match output_text(output) {
        Some(text) => text,
        None => Seq::empty(),
    }
}

/// Mathematical content of a literal that may be left out.
pub open spec fn optional_text(text: Option<&str>) -> Option<Seq<char>> {
    match text {
        Some(text) => Some(text@),
        None => None,
    }
}

/// The fixed parts of the two objects hold no line feed.
proof fn lemma_single_line_parts()
    ensures
        single_line("{\"ip\":"@),
        single_line(",\"country_code\":"@),
        single_line(",\"city\":"@),
        single_line(",\"isp\":"@),
        single_line(",\"error\":"@),
        single_line(",\"full_data\":"@),
        single_line("}"@),
{
    reveal_strlit("{\"ip\":");
    reveal_strlit(",\"country_code\":");
    reveal_strlit(",\"city\":");
    reveal_strlit(",\"isp\":");
    reveal_strlit(",\"error\":");
    reveal_strlit(",\"full_data\":");
    reveal_strlit("}");
}

/// One line in, one line out. The object of a location framed from
/// literals that hold no line feed holds none.
pub proof fn location_frame_is_single_line(
    ip_address: Seq<char>,
    country_code: Seq<char>,
    city: Seq<char>,
    isp: Seq<char>,
    error: Option<Seq<char>>,
)
    requires
        single_line(ip_address),
        single_line(country_code),
        single_line(city),
        single_line(isp),
        error matches Some(reason) ==> single_line(reason),
    ensures
        single_line(location_frame(ip_address, country_code, city, isp, error)),
{
    lemma_single_line_parts();
}

/// One line in, one line out. The object of a record framed from parts that
/// hold no line feed holds none.
pub proof fn output_frame_is_single_line(ip_address: Seq<char>, full_data: Seq<char>)
    requires
        single_line(ip_address),
        single_line(full_data),
    ensures
        single_line(output_frame(ip_address, full_data)),
{
    lemma_single_line_parts();
}

/// The object of a record is never the empty text: it opens with a brace.
pub proof fn output_frame_is_not_empty(ip_address: Seq<char>, full_data: Seq<char>)
    ensures
        output_frame(ip_address, full_data).len() > 0,
{
    reveal_strlit("{\"ip\":");
}

/// Frames the object of a location from the literal of each of its strings.
/// The member `error` is written if and only if a literal is given for it.
pub fn frame_location(
    ip_address: &str,
    country_code: &str,
    city: &str,
    isp: &str,
    error: Option<&str>,
) -> (text: String)
    ensures
        text@ == location_frame(ip_address@, country_code@, city@, isp@, optional_text(error)),
{
    let text = String::from_str("{\"ip\":").concat(ip_address).concat(",\"country_code\":").concat(
        country_code,
    ).concat(",\"city\":").concat(city).concat(",\"isp\":").concat(isp);
    let text = match error {
        Some(reason) => text.concat(",\"error\":").concat(reason),
        None => text,
    };
    text.concat("}")
}

/// Frames the object of a whole record from the literal of its address and
/// the object of its location.
pub fn frame_output(ip_address: &str, full_data: &str) -> (text: String)
    ensures
        text@ == output_frame(ip_address@, full_data@),
{
    String::from_str("{\"ip\":").concat(ip_address).concat(",\"full_data\":").concat(
        full_data,
    ).concat("}")
}

/// The text of a location: the object with the literal of each string of
/// `record`, `error` among them if and only if it is not empty. The result
/// is `None` if and only if one of the strings that are written cannot be
/// encoded.
pub fn render_location(record: &FullLocationData) -> (rendered: Option<String>)
    ensures
        match rendered {
            Some(text) => location_text(record@) == Some(text@),
            None => location_text(record@) is None,
        },
        rendered matches Some(text) ==> single_line(text@),
{
    let ip_address = match encode_text(record.ip_address.as_str()) {
        Ok(literal) => literal,
        Err(_) => {
            return None;
        },
    };
    let country_code = match encode_text(record.country_code.as_str()) {
        Ok(literal) => literal,
        Err(_) => {
            return None;
        },
    };
    let city = match encode_text(record.city.as_str()) {
        Ok(literal) => literal,
        Err(_) => {
            return None;
        },
    };
    let isp = match encode_text(record.isp.as_str()) {
        Ok(literal) => literal,
        Err(_) => {
            return None;
        },
    };
    let error = if record.is_failure() {
        match encode_text(record.error.as_str()) {
            Ok(literal) => Some(literal),
            Err(_) => {
                return None;
            },
        }
    } else {
        None
    };
    let error = match &error {
        Some(literal) => Some(literal.as_str()),
        None => None,
    };
    proof {
        location_frame_is_single_line(
            ip_address@,
            country_code@,
            city@,
            isp@,
            optional_text(error),
        );
    }
    Some(
        frame_location(
            ip_address.as_str(),
            country_code.as_str(),
            city.as_str(),
            isp.as_str(),
            error,
        ),
    )
}

/// The text that is emitted for `output`: the object with the literal of
/// the address and the object of the location, on one line. The text is
/// empty if and only if one of the strings that are written cannot be
/// encoded.
pub fn render_output(output: &OutputData) -> (text: String)
    ensures
        text@ == emitted_text(output@),
        text@.len() == 0 <==> output_text(output@) is None,
        single_line(text@),
{
    let ip_address = match encode_text(output.ip_address.as_str()) {
        Ok(literal) => literal,
        Err(_) => {
            return String::new();
        },
    };
    match render_location(&output.full) {
        Some(full_data) => {
            proof {
                output_frame_is_single_line(ip_address@, full_data@);
                output_frame_is_not_empty(ip_address@, full_data@);
            }
            frame_output(ip_address.as_str(), full_data.as_str())
        },
        None => String::new(),
    }
}

} // verus!
