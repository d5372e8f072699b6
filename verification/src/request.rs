//! Prepared requests: an immutable description of one HTTP request that a
//! service client wants sent. The binary turns a `PreparedRequest` into a
//! real request; because the description is a plain value, every retry
//! attempt is built from the same description and resends the same payload.

use vstd::prelude::*;

verus! {

/// Description of one HTTP request: method, URL, query parameters and
/// headers, each header and parameter a name/value pair.
pub struct PreparedRequest {
    pub method: String,
    pub url: String,
    pub query: Vec<(String, String)>,
    pub headers: Vec<(String, String)>,
}

/// Mathematical view of a name/value pair list.
pub open spec fn pairs_view(s: Seq<(String, String)>) -> Seq<(Seq<char>, Seq<char>)> {
    s.map_values(|p: (String, String)| (p.0@, p.1@))
}

/// Mathematical view of a prepared request.
#[verifier::ext_equal]
pub struct ReqView {
    pub method: Seq<char>,
    pub url: Seq<char>,
    pub query: Seq<(Seq<char>, Seq<char>)>,
    pub headers: Seq<(Seq<char>, Seq<char>)>,
}

impl View for PreparedRequest {
    type V = ReqView;

    open spec fn view(&self) -> ReqView {
        ReqView {
            method: self.method@,
            url: self.url@,
            query: pairs_view(self.query@),
            headers: pairs_view(self.headers@),
        }
    }
}

} // verus!
