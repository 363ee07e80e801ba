//! A small server-rendered web library: route matching, layout composition,
//! and demo data generation, with verified contracts.
//!
//! The HTTP dispatcher and static-file serving are external collaborators;
//! this crate holds the logic that decides and composes responses.

use vstd::prelude::*;
use vstd::string::StringExecFns;

pub mod forecast;
pub mod handlers;
pub mod layout;
pub mod render;
pub mod routes;
pub mod text;

verus! {

/// The single error kind: a template failed to render, carrying a
/// human-readable message.
#[derive(Debug)]
pub struct RenderError {
    pub message: String,
}

/// A rendered HTTP response: a status code and a body.
pub struct HttpResponse {
    pub status: u16,
    pub body: String,
}

/// The fixed text that precedes a render-failure diagnostic.
pub open spec fn error_prefix() -> Seq<char> {
    "Failed to render template. Error: "@
}

/// Uniform policy atop the renderer: a successful render becomes a 200
/// response whose body is the HTML; a failure becomes a 500 response whose
/// body is the diagnostic prefix followed by the error message.
pub fn into_html(r: Result<String, RenderError>) -> (resp: HttpResponse)
    ensures
        r matches Ok(html) ==> resp.status == 200 && resp.body@ == html@,
        r matches Err(e) ==> resp.status == 500 && resp.body@ == error_prefix() + e.message@,
{
    match r {
        Ok(html) => HttpResponse { status: 200, body: html },
        Err(e) => {
            let mut body = String::from_str("Failed to render template. Error: ");
            body.append(e.message.as_str());
            HttpResponse { status: 500, body }
        },
    }
}

} // verus!
