//! Service client for the GitHub REST API: builds the prepared request for
//! each logical operation (repository, user, README, stargazer page), keyed
//! either by natural name or by numeric id, and carries the one backoff
//! timer that every fetch made through the client shares.

use vstd::prelude::*;
use vstd::string::StringExecFns;
use crate::numtext::{spec_u64_digits, u64_to_string};
use crate::request::{PreparedRequest, ReqView};
use crate::timer::{
    ExponentialBackoffTimer,
    DEFAULT_MAX_DELAY_SECS,
    DEFAULT_MIN_DELAY_SECS,
};

verus! {

/// Page size of the stargazer listing.
pub const PER_PAGE: u32 = 100;

/// Base URL of the service.
pub open spec fn github_base_url() -> Seq<char> {
    "https://api.github.com"@
}

/// Default response media type.
pub open spec fn media_type_default() -> Seq<char> {
    "application/vnd.github+json"@
}

/// Media type that includes the starred-at timestamp in stargazer listings.
pub open spec fn media_type_star() -> Seq<char> {
    "application/vnd.github.star+json"@
}

/// View of an optional header value.
pub open spec fn auth_view(a: Option<String>) -> Option<Seq<char>> {
    match a {
        Some(s) => Some(s@),
        None => None,
    }
}

/// The headers every request of this client carries: content negotiation,
/// and the bearer credential when one was configured.
pub open spec fn github_headers(auth: Option<Seq<char>>, media: Seq<char>) -> Seq<
    (Seq<char>, Seq<char>),
> {
    match auth {
        Some(h) => seq![("accept"@, media), ("authorization"@, h)],
        None => seq![("accept"@, media)],
    }
}

/// Builder for a `Github` client; the credential is optional.
pub struct GithubBuilder {
    pub token: Option<String>,
}

/// GitHub service client: the optional bearer header attached to every
/// request, and the backoff timer shared by every fetch through this client.
pub struct Github {
    /// Full value of the authorization header, when a token was supplied.
    pub auth_header: Option<String>,
    /// One timer per client: backoff state persists across a whole crawl.
    pub timer: ExponentialBackoffTimer,
}

impl GithubBuilder {
    /// Start a builder with no credential.
    pub fn new() -> (b: Self)
        ensures
            b.token is None,
    {
        Self { token: None }
    }

    /// Supply a bearer token.
    pub fn token(self, t: String) -> (b: Self)
        ensures
            b.token == Some(t),
    {
        Self { token: Some(t) }
    }

    /// Finish the client: bearer header formed from the token when present,
    /// and a fresh timer with the default bounds whose first attempt may be
    /// sent at once.
    pub fn build(self) -> (g: Github)
        ensures
            g.timer.deadline == 0,
            g.timer.delay == DEFAULT_MIN_DELAY_SECS,
            g.timer.min_delay == DEFAULT_MIN_DELAY_SECS,
            g.timer.max_delay == DEFAULT_MAX_DELAY_SECS,
            g.timer.wf(),
            match (self.token, g.auth_header) {
                (Some(t), Some(h)) => h@ == "Bearer "@ + t@,
                (None, None) => true,
                _ => false,
            },
    {
        let auth_header = match self.token {
            Some(t) => {
                let mut h = String::from_str("Bearer ");
                h.append(t.as_str());
                Some(h)
            },
            None => None,
        };
        Github {
            auth_header,
            timer: ExponentialBackoffTimer::new(0, DEFAULT_MIN_DELAY_SECS, DEFAULT_MAX_DELAY_SECS),
        }
    }
}

/// The request of a plain point lookup: GET on `url` with the default media
/// type, no query, and the client's headers.
pub open spec fn spec_github_get(g: Github, url: Seq<char>) -> ReqView {
    ReqView {
        method: "GET"@,
        url: url,
        query: Seq::empty(),
        headers: github_headers(auth_view(g.auth_header), media_type_default()),
    }
}

/// Repository by full name.
pub open spec fn spec_repo_request(g: Github, full_name: Seq<char>) -> ReqView {
    spec_github_get(g, github_base_url() + "/repos/"@ + full_name)
}

/// Repository by numeric id.
pub open spec fn spec_repo_by_id_request(g: Github, id: int) -> ReqView {
    spec_github_get(g, github_base_url() + "/repositories/"@ + spec_u64_digits(id))
}

/// README of a repository by full name.
pub open spec fn spec_readme_request(g: Github, full_name: Seq<char>) -> ReqView {
    spec_github_get(g, github_base_url() + "/repos/"@ + full_name + "/readme"@)
}

/// README of a repository by numeric id.
pub open spec fn spec_readme_by_id_request(g: Github, id: int) -> ReqView {
    spec_github_get(g, github_base_url() + "/repositories/"@ + spec_u64_digits(id) + "/readme"@)
}

/// User profile by login.
pub open spec fn spec_user_request(g: Github, login: Seq<char>) -> ReqView {
    spec_github_get(g, github_base_url() + "/users/"@ + login)
}

/// User profile by numeric id.
pub open spec fn spec_user_by_id_request(g: Github, id: int) -> ReqView {
    spec_github_get(g, github_base_url() + "/user/"@ + spec_u64_digits(id))
}

/// One page of the stargazer listing: fixed page size, starred-at media
/// type, and the page number as a query parameter.
pub open spec fn spec_stargazers_request(g: Github, full_name: Seq<char>, page: int) -> ReqView {
    ReqView {
        method: "GET"@,
        url: github_base_url() + "/repos/"@ + full_name + "/stargazers"@,
        query: seq![
            ("per_page"@, spec_u64_digits(PER_PAGE as int)),
            ("page"@, spec_u64_digits(page)),
        ],
        headers: github_headers(auth_view(g.auth_header), media_type_star()),
    }
}

impl Github {
    /// Assemble a GET request on `url` with this client's headers.
    fn base_request(&self, url: String, media: &str) -> (r: PreparedRequest)
        ensures
            r@ == (ReqView {
                method: "GET"@,
                url: url@,
                query: Seq::empty(),
                headers: github_headers(auth_view(self.auth_header), media@),
            }),
    {
        let mut headers: Vec<(String, String)> = Vec::new();
        headers.push((String::from_str("accept"), String::from_str(media)));
        if let Some(h) = &self.auth_header {
            headers.push((String::from_str("authorization"), h.clone()));
        }
        let r = PreparedRequest {
            method: String::from_str("GET"),
            url,
            query: Vec::new(),
            headers,
        };
        proof {
            assert(r@ =~~= (ReqView {
                method: "GET"@,
                url: r.url@,
                query: Seq::empty(),
                headers: github_headers(auth_view(self.auth_header), media@),
            }));
        }
        r
    }

    /// Request one page of the stargazers of a repository.
    pub fn repos_stargazers(&self, full_name: &str, page: u32) -> (r: PreparedRequest)
        ensures
            r@ == spec_stargazers_request(*self, full_name@, page as int),
    {
        let mut url = String::from_str("https://api.github.com");
        url.append("/repos/");
        url.append(full_name);
        url.append("/stargazers");
        let mut r = self.base_request(url, "application/vnd.github.star+json");
        let mut query: Vec<(String, String)> = Vec::new();
        query.push((String::from_str("per_page"), u64_to_string(PER_PAGE as u64)));
        query.push((String::from_str("page"), u64_to_string(page as u64)));
        r.query = query;
        proof {
            assert(r@ =~~= spec_stargazers_request(*self, full_name@, page as int));
        }
        r
    }

    /// Request a repository by full name.
    pub fn repo(&self, full_name: &str) -> (r: PreparedRequest)
        ensures
            r@ == spec_repo_request(*self, full_name@),
    {
        let mut url = String::from_str("https://api.github.com");
        url.append("/repos/");
        url.append(full_name);
        self.base_request(url, "application/vnd.github+json")
    }

    /// Request a repository by numeric id.
    pub fn repo_by_id(&self, id: u64) -> (r: PreparedRequest)
        ensures
            r@ == spec_repo_by_id_request(*self, id as int),
    {
        let mut url = String::from_str("https://api.github.com");
        url.append("/repositories/");
        url.append(u64_to_string(id).as_str());
        self.base_request(url, "application/vnd.github+json")
    }

    /// Request the README of a repository by full name.
    pub fn readme(&self, full_name: &str) -> (r: PreparedRequest)
        ensures
            r@ == spec_readme_request(*self, full_name@),
    {
        let mut url = String::from_str("https://api.github.com");
        url.append("/repos/");
        url.append(full_name);
        url.append("/readme");
        self.base_request(url, "application/vnd.github+json")
    }

    /// Request the README of a repository by numeric id.
    pub fn readme_by_id(&self, id: u64) -> (r: PreparedRequest)
        ensures
            r@ == spec_readme_by_id_request(*self, id as int),
    {
        let mut url = String::from_str("https://api.github.com");
        url.append("/repositories/");
        url.append(u64_to_string(id).as_str());
        url.append("/readme");
        self.base_request(url, "application/vnd.github+json")
    }

    /// Request a user profile by login.
    pub fn user(&self, login: &str) -> (r: PreparedRequest)
        ensures
            r@ == spec_user_request(*self, login@),
    {
        let mut url = String::from_str("https://api.github.com");
        url.append("/users/");
        url.append(login);
        self.base_request(url, "application/vnd.github+json")
    }

    /// Request a user profile by numeric id.
    pub fn user_by_id(&self, id: u64) -> (r: PreparedRequest)
        ensures
            r@ == spec_user_by_id_request(*self, id as int),
    {
        let mut url = String::from_str("https://api.github.com");
        url.append("/user/");
        url.append(u64_to_string(id).as_str());
        self.base_request(url, "application/vnd.github+json")
    }
}

} // verus!
