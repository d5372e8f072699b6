//! The command surface of the crawler, as plain data, and the decisions a
//! command drives: which request an input key selects, and when a paginated
//! crawl stops. The binary parses the command line into these types, reads
//! keys from standard input or the argument list, and prints what the
//! service clients fetch.

use vstd::prelude::*;
use vstd::string::StringExecFns;
use crate::github::{
    spec_readme_by_id_request,
    spec_readme_request,
    spec_repo_by_id_request,
    spec_repo_request,
    spec_user_by_id_request,
    spec_user_request,
    Github,
};
use crate::numtext::{parse_u64, spec_parse_u64};
use crate::request::PreparedRequest;

verus! {

/// The whole command line.
pub struct Cli {
    pub command: Commands,
}

/// Top-level subcommands.
pub enum Commands {
    /// Information crawler.
    Crawler { command: CrawlerCommands },
}

/// Crawler subcommands, one per remote service.
pub enum CrawlerCommands {
    /// Crawler for GitHub.
    Github { token: Option<String>, command: GithubCommands },
    /// Crawler for OSS Insight.
    Ossinsight { command: OssinsightCommands },
}

/// GitHub crawl operations.
pub enum GithubCommands {
    /// Prints stargazers of the repo as JSON lines.
    Stargazers { full_name: String },
    /// Prints repositories as JSON lines.
    Repo { api: GithubRepoApi, stdin: bool, key: Vec<String> },
    /// Prints README of the repositories as JSON lines.
    Readme { api: GithubRepoApi, stdin: bool, key: Vec<String> },
    /// Prints user profiles as JSON lines.
    User { api: GithubUserApi, stdin: bool, key: Vec<String> },
}

/// Which key space a repository operation uses; exactly one side is set.
pub struct GithubRepoApi {
    /// By full_name.
    pub full_name: bool,
    /// By id.
    pub id: bool,
}

/// Which key space a user operation uses; exactly one side is set.
pub struct GithubUserApi {
    /// By login.
    pub login: bool,
    /// By id.
    pub id: bool,
}

/// OSS Insight operations.
pub enum OssinsightCommands {
    /// Trending repositories.
    Trends { period: Period, stdin: bool, lang: Vec<String> },
}

/// Period of the trending-repositories query.
#[derive(Clone)]
pub enum Period {
    Past24Hours,
    PastWeek,
    PastMonth,
    Past3Months,
}

/// The query-parameter value each period stands for.
pub open spec fn spec_period_name(p: Period) -> Seq<char> {
    match p {
        Period::Past24Hours => "past_24_hours"@,
        Period::PastWeek => "past_week"@,
        Period::PastMonth => "past_month"@,
        Period::Past3Months => "past_3_months"@,
    }
}

impl Period {
    /// The value this period contributes to the query string.
    pub fn name(&self) -> (r: String)
        ensures
            r@ == spec_period_name(*self),
    {
        match self {
            Period::Past24Hours => String::from_str("past_24_hours"),
            Period::PastWeek => String::from_str("past_week"),
            Period::PastMonth => String::from_str("past_month"),
            Period::Past3Months => String::from_str("past_3_months"),
        }
    }
}

/// An input key that should have been a numeric id but did not parse: the
/// current crawl operation aborts on it.
#[derive(Debug)]
pub struct KeyError;

/// Read a numeric id from an input key.
pub fn parse_id_key(key: &str) -> (r: Result<u64, KeyError>)
    ensures
        r matches Ok(v) ==> spec_parse_u64(key@) == Some(v),
        r is Err ==> spec_parse_u64(key@) is None,
{
    match parse_u64(key) {
        Some(v) => Ok(v),
        None => Err(KeyError),
    }
}

/// The repository request an input key selects: by full name, or by numeric
/// id when the id key space is in use. The name key space takes precedence,
/// as the dispatch checks it first.
pub fn repo_request_for_key(gh: &Github, api: &GithubRepoApi, key: &str) -> (r: Result<
    PreparedRequest,
    KeyError,
>)
    requires
        api.full_name || api.id,
    ensures
        api.full_name ==> (r matches Ok(p) && p@ == spec_repo_request(*gh, key@)),
        !api.full_name ==> match spec_parse_u64(key@) {
            Some(id) => r matches Ok(p) && p@ == spec_repo_by_id_request(*gh, id as int),
            None => r is Err,
        },
{
    if api.full_name {
        Ok(gh.repo(key))
    } else {
        match parse_id_key(key) {
            Ok(id) => Ok(gh.repo_by_id(id)),
            Err(e) => Err(e),
        }
    }
}

/// The README request an input key selects, keyed like `repo_request_for_key`.
pub fn readme_request_for_key(gh: &Github, api: &GithubRepoApi, key: &str) -> (r: Result<
    PreparedRequest,
    KeyError,
>)
    requires
        api.full_name || api.id,
    ensures
        api.full_name ==> (r matches Ok(p) && p@ == spec_readme_request(*gh, key@)),
        !api.full_name ==> match spec_parse_u64(key@) {
            Some(id) => r matches Ok(p) && p@ == spec_readme_by_id_request(*gh, id as int),
            None => r is Err,
        },
{
    if api.full_name {
        Ok(gh.readme(key))
    } else {
        match parse_id_key(key) {
            Ok(id) => Ok(gh.readme_by_id(id)),
            Err(e) => Err(e),
        }
    }
}

/// The user request an input key selects: by login, or by numeric id.
pub fn user_request_for_key(gh: &Github, api: &GithubUserApi, key: &str) -> (r: Result<
    PreparedRequest,
    KeyError,
>)
    requires
        api.login || api.id,
    ensures
        api.login ==> (r matches Ok(p) && p@ == spec_user_request(*gh, key@)),
        !api.login ==> match spec_parse_u64(key@) {
            Some(id) => r matches Ok(p) && p@ == spec_user_by_id_request(*gh, id as int),
            None => r is Err,
        },
{
    if api.login {
        Ok(gh.user(key))
    } else {
        match parse_id_key(key) {
            Ok(id) => Ok(gh.user_by_id(id)),
            Err(e) => Err(e),
        }
    }
}

/// Position of a paginated listing crawl: the next page to request, starting
/// at 1, and whether an empty page has ended the crawl.
pub struct PageCursor {
    pub next_page: u32,
    pub finished: bool,
}

impl PageCursor {
    /// A crawl starts at page 1.
    pub fn new() -> (c: Self)
        ensures
            c.next_page == 1,
            !c.finished,
    {
        PageCursor { next_page: 1, finished: false }
    }

    /// Record that the current page decoded to `page_len` elements: the
    /// crawl is finished exactly when the page was empty, and the page
    /// counter moves on.
    pub fn record_page(&mut self, page_len: usize)
        requires
            !old(self).finished,
            old(self).next_page < u32::MAX,
        ensures
            final(self).finished == (page_len == 0),
            final(self).next_page == old(self).next_page + 1,
    {
        if page_len == 0 {
            self.finished = true;
        }
        self.next_page = self.next_page + 1;
    }
}

/// What a paginated crawl over the given sequence of pages emits: every
/// element of every page before the first empty page, pages in order and
/// elements in within-page order; nothing of the empty page or beyond.
pub open spec fn crawl_emits<T>(pages: Seq<Seq<T>>) -> Seq<T>
    decreases pages.len(),
{
    if pages.len() == 0 {
        Seq::empty()
    } else if pages.first().len() == 0 {
        Seq::empty()
    } else {
        pages.first() + crawl_emits(pages.drop_first())
    }
}

/// Law: when page `k` is the first empty page, the crawl emits exactly the
/// concatenation of pages `0 .. k`, in page order with each page's elements
/// in within-page order, and stops there.
pub proof fn lemma_crawl_stops_at_first_empty<T>(pages: Seq<Seq<T>>, k: int)
    requires
        0 <= k < pages.len(),
        pages[k].len() == 0,
        forall|j: int| 0 <= j < k ==> #[trigger] pages[j].len() > 0,
    ensures
        crawl_emits(pages) == pages.take(k).flatten(),
    decreases k,
{
    if k == 0 {
        assert(pages.take(0) =~= Seq::<Seq<T>>::empty());
        assert(pages.take(0).flatten() =~= Seq::<T>::empty());
    } else {
        let rest = pages.drop_first();
        assert(rest[k - 1].len() == 0);
        assert forall|j: int| 0 <= j < k - 1 implies #[trigger] rest[j].len() > 0 by {
            assert(rest[j] == pages[j + 1]);
        }
        lemma_crawl_stops_at_first_empty(rest, k - 1);
        assert(rest.take(k - 1) =~= pages.take(k).drop_first());
        assert(pages.take(k).flatten() == pages.take(k).first() + pages.take(
            k,
        ).drop_first().flatten());
        assert(pages.take(k).first() == pages.first());
    }
}

} // verus!
