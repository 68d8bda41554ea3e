//! The fixed parts of a transcription request: the authorization header
//! built from the credential snapshot taken when the task began
//! processing, and the static options part sent with every request
//! (diagram inclusion, math delimiter style, engine version, client
//! metadata — static per deployment, not per task).

use vstd::prelude::*;

verus! {

/// The text of the static `options_json` request part.
pub open spec fn options_payload_text() -> Seq<char> {
    r#"{"config":{"idiomatic_eqn_arrays":true,"include_diagrams":true,"math_display_delimiters":["\n\\[\n","\n\\]\n"],"math_inline_delimiters":["\\(","\\)"],"mmd_version":"1.3.0","ocr_version":2,"rm_fonts":false},"metadata":{"count":6,"input_type":"crop","platform":"macOS 15.2.0","version":"3.4.11"}}"#@
}

/// The static `options_json` part sent with every transcription request.
pub fn options_payload() -> (r: String)
    ensures
        r@ == options_payload_text(),
{
    String::from_str(
        r#"{"config":{"idiomatic_eqn_arrays":true,"include_diagrams":true,"math_display_delimiters":["\n\\[\n","\n\\]\n"],"math_inline_delimiters":["\\(","\\)"],"mmd_version":"1.3.0","ocr_version":2,"rm_fonts":false},"metadata":{"count":6,"input_type":"crop","platform":"macOS 15.2.0","version":"3.4.11"}}"#,
    )
}

/// The bearer-style authorization header value for a credential snapshot.
pub fn bearer_header(credential: &str) -> (r: String)
    ensures
        r@ == "Bearer "@ + credential@,
{
    let mut r = String::from_str("Bearer ");
    r.append(credential);
    r
}

} // verus!
