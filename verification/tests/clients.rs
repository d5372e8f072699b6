use oss_insight::commands::{
    parse_id_key, readme_request_for_key, repo_request_for_key, user_request_for_key,
    GithubRepoApi, GithubUserApi, PageCursor, Period,
};
use oss_insight::github::GithubBuilder;
use oss_insight::ossinsight::OssinsightBuilder;

fn pairs(v: &[(&str, &str)]) -> Vec<(String, String)> {
    v.iter().map(|(a, b)| (a.to_string(), b.to_string())).collect()
}

#[test]
fn repo_request_by_full_name() {
    let gh = GithubBuilder::new().build();
    let r = gh.repo("octocat/Hello-World");
    assert_eq!(r.method, "GET");
    assert_eq!(r.url, "https://api.github.com/repos/octocat/Hello-World");
    assert!(r.query.is_empty());
    assert_eq!(r.headers, pairs(&[("accept", "application/vnd.github+json")]));
}

#[test]
fn token_becomes_bearer_header_on_every_request() {
    let gh = GithubBuilder::new().token("abc123".to_string()).build();
    let r = gh.user("octocat");
    assert_eq!(
        r.headers,
        pairs(&[("accept", "application/vnd.github+json"), ("authorization", "Bearer abc123")])
    );
    let s = gh.repos_stargazers("octocat/Hello-World", 1);
    assert_eq!(
        s.headers,
        pairs(&[("accept", "application/vnd.github.star+json"), ("authorization", "Bearer abc123")])
    );
}

#[test]
fn point_lookup_urls() {
    let gh = GithubBuilder::new().build();
    assert_eq!(gh.repo_by_id(42).url, "https://api.github.com/repositories/42");
    assert_eq!(gh.readme("octocat/Hello-World").url, "https://api.github.com/repos/octocat/Hello-World/readme");
    assert_eq!(gh.readme_by_id(42).url, "https://api.github.com/repositories/42/readme");
    assert_eq!(gh.user("octocat").url, "https://api.github.com/users/octocat");
    assert_eq!(gh.user_by_id(583231).url, "https://api.github.com/user/583231");
}

#[test]
fn stargazers_request_carries_page_and_size() {
    let gh = GithubBuilder::new().build();
    let r = gh.repos_stargazers("octocat/Hello-World", 3);
    assert_eq!(r.url, "https://api.github.com/repos/octocat/Hello-World/stargazers");
    assert_eq!(r.query, pairs(&[("per_page", "100"), ("page", "3")]));
    assert_eq!(r.headers, pairs(&[("accept", "application/vnd.github.star+json")]));
}

#[test]
fn trends_request() {
    let c = OssinsightBuilder::new().build();
    let r = c.trends(&Period::PastWeek.name(), "rust");
    assert_eq!(r.method, "GET");
    assert_eq!(r.url, "https://api.ossinsight.io/v1/trends/repos/");
    assert_eq!(r.query, pairs(&[("period", "past_week"), ("language", "rust")]));
    assert_eq!(r.headers, pairs(&[("accept", "application/json")]));
    assert_eq!(c.timer.delay, 60);
    assert_eq!(c.timer.max_delay, 3600);
}

#[test]
fn period_names() {
    assert_eq!(Period::Past24Hours.name(), "past_24_hours");
    assert_eq!(Period::PastWeek.name(), "past_week");
    assert_eq!(Period::PastMonth.name(), "past_month");
    assert_eq!(Period::Past3Months.name(), "past_3_months");
}

#[test]
fn id_keys_parse_or_abort() {
    assert_eq!(parse_id_key("583231").unwrap(), 583231);
    assert!(parse_id_key("octocat").is_err());
    assert!(parse_id_key("").is_err());
}

#[test]
fn key_dispatch_picks_the_endpoint() {
    let gh = GithubBuilder::new().build();
    let by_name = GithubRepoApi { full_name: true, id: false };
    let by_id = GithubRepoApi { full_name: false, id: true };
    let r = repo_request_for_key(&gh, &by_name, "octocat/Hello-World").unwrap();
    assert_eq!(r.url, "https://api.github.com/repos/octocat/Hello-World");
    let r = repo_request_for_key(&gh, &by_id, "42").unwrap();
    assert_eq!(r.url, "https://api.github.com/repositories/42");
    assert!(repo_request_for_key(&gh, &by_id, "not-a-number").is_err());

    let r = readme_request_for_key(&gh, &by_name, "octocat/Hello-World").unwrap();
    assert_eq!(r.url, "https://api.github.com/repos/octocat/Hello-World/readme");
    let r = readme_request_for_key(&gh, &by_id, "42").unwrap();
    assert_eq!(r.url, "https://api.github.com/repositories/42/readme");

    let by_login = GithubUserApi { login: true, id: false };
    let by_uid = GithubUserApi { login: false, id: true };
    let r = user_request_for_key(&gh, &by_login, "octocat").unwrap();
    assert_eq!(r.url, "https://api.github.com/users/octocat");
    let r = user_request_for_key(&gh, &by_uid, "583231").unwrap();
    assert_eq!(r.url, "https://api.github.com/user/583231");
    assert!(user_request_for_key(&gh, &by_uid, "583,231").is_err());
}

#[test]
fn pagination_stops_at_first_empty_page() {
    // stargazers of a repository: page 1 holds 100 records, page 2 holds 37,
    // page 3 is empty; the crawl emits 137 records and stops
    let gh = GithubBuilder::new().build();
    let pages: Vec<Vec<u64>> = vec![(0..100).collect(), (0..37).collect(), Vec::new()];
    let mut cursor = PageCursor::new();
    let mut emitted = 0usize;
    let mut requested = Vec::new();
    let mut i = 0usize;
    while !cursor.finished {
        let req = gh.repos_stargazers("octocat/Hello-World", cursor.next_page);
        requested.push(req.query[1].1.clone());
        let page = &pages[i];
        i += 1;
        emitted += page.len();
        cursor.record_page(page.len());
    }
    assert_eq!(emitted, 137);
    assert_eq!(requested, vec!["1".to_string(), "2".to_string(), "3".to_string()]);
    assert_eq!(cursor.next_page, 4);
}
