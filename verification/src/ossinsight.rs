//! Service client for the OSS Insight API: builds the request of the
//! single-shot trending-repositories query and carries the client's backoff
//! timer.

use vstd::prelude::*;
use vstd::string::StringExecFns;
use crate::request::{PreparedRequest, ReqView};
use crate::timer::{
    ExponentialBackoffTimer,
    DEFAULT_MAX_DELAY_SECS,
    DEFAULT_MIN_DELAY_SECS,
};

verus! {

/// Base URL of the service.
pub open spec fn ossinsight_base_url() -> Seq<char> {
    "https://api.ossinsight.io/v1"@
}

/// Response media type.
pub open spec fn ossinsight_media_type() -> Seq<char> {
    "application/json"@
}

/// Builder for an `Ossinsight` client; this service takes no credential.
pub struct OssinsightBuilder;

/// OSS Insight service client: only the backoff timer shared by every fetch
/// through this client.
pub struct Ossinsight {
    /// One timer per client: backoff state persists across a whole crawl.
    pub timer: ExponentialBackoffTimer,
}

impl OssinsightBuilder {
    /// Start a builder.
    pub fn new() -> Self {
        Self
    }

    /// Finish the client: a fresh timer with the default bounds whose first
    /// attempt may be sent at once.
    pub fn build(self) -> (c: Ossinsight)
        ensures
            c.timer.deadline == 0,
            c.timer.delay == DEFAULT_MIN_DELAY_SECS,
            c.timer.min_delay == DEFAULT_MIN_DELAY_SECS,
            c.timer.max_delay == DEFAULT_MAX_DELAY_SECS,
            c.timer.wf(),
    {
        Ossinsight {
            timer: ExponentialBackoffTimer::new(0, DEFAULT_MIN_DELAY_SECS, DEFAULT_MAX_DELAY_SECS),
        }
    }
}

/// The trending-repositories query for a period and a language.
pub open spec fn spec_trends_request(period: Seq<char>, lang: Seq<char>) -> ReqView {
    ReqView {
        method: "GET"@,
        url: ossinsight_base_url() + "/trends/repos/"@,
        query: seq![("period"@, period), ("language"@, lang)],
        headers: seq![("accept"@, ossinsight_media_type())],
    }
}

impl Ossinsight {
    /// Request the trending repositories for a period and a language.
    pub fn trends(&self, period: &str, lang: &str) -> (r: PreparedRequest)
        ensures
            r@ == spec_trends_request(period@, lang@),
    {
        let mut url = String::from_str("https://api.ossinsight.io/v1");
        url.append("/trends/repos/");
        let mut query: Vec<(String, String)> = Vec::new();
        query.push((String::from_str("period"), String::from_str(period)));
        query.push((String::from_str("language"), String::from_str(lang)));
        let mut headers: Vec<(String, String)> = Vec::new();
        headers.push((String::from_str("accept"), String::from_str("application/json")));
        let r = PreparedRequest { method: String::from_str("GET"), url, query, headers };
        proof {
            assert(r@ =~~= spec_trends_request(period@, lang@));
        }
        r
    }
}

} // verus!
