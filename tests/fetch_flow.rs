use std::collections::HashMap;

use repo_fetch::fetcher::{cache_key, listing_url, timestamp_key, RETRY_DELAY_MS};
use repo_fetch::{enrich_repositories, Action, Event, FetchError, Phase, RepoFetcher, Repository};

fn record(name: &str, html_url: &str) -> Repository {
    Repository {
        name: name.to_string(),
        description: None,
        html_url: html_url.to_string(),
        language: None,
        stargazers_count: 3,
        forks_count: 1,
        image_url: None,
    }
}

fn is_request(a: &Action) -> bool {
    matches!(a, Action::Request { .. })
}

fn is_lower_hex(s: &str) -> bool {
    !s.is_empty() && s.chars().all(|c| c.is_ascii_digit() || ('a'..='f').contains(&c))
}

/// Drives a fetch with a cache held in a map and a scripted transport; each
/// response is a status, and a successful one is decoded to `body`.
fn drive(
    username: &str,
    cache: &mut HashMap<String, Vec<Repository>>,
    statuses: &[u16],
    body: &[Repository],
    now_ms: u64,
) -> (Vec<Action>, Option<Result<Vec<Repository>, FetchError>>) {
    let mut f = RepoFetcher::new(username);
    let mut actions = Vec::new();
    let mut next = Some(Event::Start);
    let mut responses = statuses.iter();
    let mut result = None;
    while let Some(ev) = next.take() {
        let a = f.step(ev);
        next = match &a {
            Action::ReadCache { key } => Some(Event::CacheRead(cache.get(key).cloned())),
            Action::Request { .. } => match responses.next() {
                Some(s) => Some(Event::Response { status: *s }),
                None => Some(Event::TransportFailed),
            },
            Action::Wait { .. } => Some(Event::DelayElapsed),
            Action::DecodeBody => Some(Event::Decoded { records: body.to_vec(), now_ms }),
            Action::StoreAndFinish { key, repos, .. } => {
                cache.insert(key.clone(), repos.clone());
                result = Some(Ok(repos.clone()));
                None
            }
            Action::Finish(r) => {
                result = Some(r.clone());
                None
            }
            Action::Ignore => None,
        };
        actions.push(a);
    }
    (actions, result)
}

#[test]
fn cached_listing_is_returned_without_request() {
    let cached = vec![record("Hello-World", "https://github.com/octocat/Hello-World")];
    let mut cache = HashMap::new();
    cache.insert("github_repos_octocat".to_string(), cached.clone());
    let (actions, result) = drive("octocat", &mut cache, &[200], &[], 0);
    assert_eq!(result, Some(Ok(cached)));
    assert_eq!(actions.iter().filter(|a| is_request(a)).count(), 0);
}

#[test]
fn finished_fetch_ignores_further_events() {
    let mut f = RepoFetcher::new("octocat");
    f.step(Event::Start);
    let a = f.step(Event::CacheRead(Some(vec![])));
    assert_eq!(a, Action::Finish(Ok(vec![])));
    assert_eq!(f.phase(), Phase::Done);
    assert_eq!(f.step(Event::CacheRead(None)), Action::Ignore);
    assert_eq!(f.step(Event::Response { status: 200 }), Action::Ignore);
    assert_eq!(f.step(Event::Start), Action::Ignore);
}

#[test]
fn first_action_reads_user_cache_entry() {
    let mut f = RepoFetcher::new("octocat");
    assert_eq!(f.step(Event::Start), Action::ReadCache { key: "github_repos_octocat".to_string() });
}

#[test]
fn cache_miss_sends_listing_request() {
    let mut f = RepoFetcher::new("octocat");
    f.step(Event::Start);
    assert_eq!(
        f.step(Event::CacheRead(None)),
        Action::Request {
            url: "https://api.github.com/users/octocat/repos?sort=updated&per_page=10".to_string(),
            accept: "application/vnd.github.v3+json".to_string(),
        }
    );
}

#[test]
fn second_fetch_hits_cache_with_same_result() {
    let mut cache = HashMap::new();
    let body = vec![record("Hello-World", "https://github.com/octocat/Hello-World")];
    let (first_actions, first) = drive("octocat", &mut cache, &[200], &body, 1_700_000_000_000);
    assert_eq!(first_actions.iter().filter(|a| is_request(a)).count(), 1);
    let (second_actions, second) = drive("octocat", &mut cache, &[], &[], 1_700_000_999_000);
    assert_eq!(second_actions.iter().filter(|a| is_request(a)).count(), 0);
    assert!(first.is_some());
    assert_eq!(first, second);
}

#[test]
fn rate_limited_then_success_retries_once_after_delay() {
    let mut cache = HashMap::new();
    let body = vec![record("Hello-World", "https://github.com/octocat/Hello-World")];
    let (actions, result) = drive("octocat", &mut cache, &[429, 200], &body, 5_000);
    assert!(matches!(result, Some(Ok(ref v)) if v.len() == 1));
    assert_eq!(actions.iter().filter(|a| is_request(a)).count(), 2);
    let first = actions.iter().position(is_request).unwrap();
    let last = actions.iter().rposition(is_request).unwrap();
    let waits: Vec<u32> = actions[first..last]
        .iter()
        .filter_map(|a| match a {
            Action::Wait { ms } => Some(*ms),
            _ => None,
        })
        .collect();
    assert_eq!(waits, vec![1000]);
    assert!(RETRY_DELAY_MS >= 1000);
}

#[test]
fn rate_limited_twice_fails_with_status() {
    let mut cache = HashMap::new();
    let (actions, result) = drive("octocat", &mut cache, &[429, 429, 200], &[], 0);
    assert_eq!(result, Some(Err(FetchError::Api(429))));
    assert_eq!(actions.iter().filter(|a| is_request(a)).count(), 2);
    assert!(cache.is_empty());
}

#[test]
fn other_status_fails_without_retry() {
    let mut cache = HashMap::new();
    let (actions, result) = drive("octocat", &mut cache, &[500, 200], &[], 0);
    assert_eq!(result, Some(Err(FetchError::Api(500))));
    assert_eq!(actions.iter().filter(|a| is_request(a)).count(), 1);
    let (_, result) = drive("octocat", &mut cache, &[404], &[], 0);
    assert_eq!(result, Some(Err(FetchError::Api(404))));
}

#[test]
fn rate_limit_after_retry_of_other_status_is_final() {
    let mut f = RepoFetcher::new("u");
    f.step(Event::Start);
    f.step(Event::CacheRead(None));
    assert_eq!(f.step(Event::Response { status: 429 }), Action::Wait { ms: 1000 });
    assert_eq!(f.phase(), Phase::AwaitingDelay);
    assert!(matches!(f.step(Event::DelayElapsed), Action::Request { .. }));
    assert_eq!(f.phase(), Phase::AwaitingResponse { retried: true });
    assert_eq!(f.step(Event::Response { status: 503 }), Action::Finish(Err(FetchError::Api(503))));
}

#[test]
fn any_success_status_is_decoded() {
    let mut f = RepoFetcher::new("u");
    f.step(Event::Start);
    f.step(Event::CacheRead(None));
    assert_eq!(f.step(Event::Response { status: 204 }), Action::DecodeBody);
}

#[test]
fn transport_failure_is_final() {
    let mut cache = HashMap::new();
    let (actions, result) = drive("octocat", &mut cache, &[], &[], 0);
    assert_eq!(result, Some(Err(FetchError::Transport)));
    assert_eq!(actions.iter().filter(|a| is_request(a)).count(), 1);
}

#[test]
fn decode_failure_is_final() {
    let mut f = RepoFetcher::new("u");
    f.step(Event::Start);
    f.step(Event::CacheRead(None));
    f.step(Event::Response { status: 200 });
    assert_eq!(f.step(Event::DecodeFailed), Action::Finish(Err(FetchError::Decode)));
}

#[test]
fn missing_environment_is_final() {
    let mut f = RepoFetcher::new("u");
    assert_eq!(
        f.step(Event::EnvironmentMissing),
        Action::Finish(Err(FetchError::EnvironmentUnavailable))
    );
    assert_eq!(f.step(Event::Start), Action::Ignore);
}

#[test]
fn out_of_order_event_is_ignored() {
    let mut f = RepoFetcher::new("u");
    assert_eq!(f.step(Event::DelayElapsed), Action::Ignore);
    assert_eq!(f.phase(), Phase::Idle);
    assert_eq!(f.step(Event::Response { status: 200 }), Action::Ignore);
}

#[test]
fn malformed_record_gets_no_image_and_others_do() {
    let body = vec![
        record("Hello-World", "https://github.com/octocat/Hello-World"),
        record("Broken", ""),
    ];
    let mut cache = HashMap::new();
    let (_, result) = drive("octocat", &mut cache, &[200], &body, 1_700_000_000_000);
    let repos = result.unwrap().unwrap();
    assert_eq!(repos.len(), 2);
    assert!(repos[0].image_url.is_some());
    assert_eq!(repos[1].image_url, None);
    assert_eq!(repos[1].name, "Broken");
}

#[test]
fn end_to_end_octocat() {
    let body = vec![record("Hello-World", "https://github.com/octocat/Hello-World")];
    let mut cache = HashMap::new();
    let (actions, result) = drive("octocat", &mut cache, &[200], &body, 1_700_000_000_000);
    let repos = result.unwrap().unwrap();
    assert_eq!(repos.len(), 1);
    let image = repos[0].image_url.clone().unwrap();
    let prefix = "https://opengraph.githubassets.com/";
    let suffix = "/octocat/Hello-World";
    assert!(image.starts_with(prefix) && image.ends_with(suffix));
    let hash = &image[prefix.len()..image.len() - suffix.len()];
    assert!(is_lower_hex(hash));
    assert_eq!(hash, format!("{:x}", 1_700_000_000u64));
    let mut expected = body.clone();
    expected[0].image_url = Some(image.clone());
    assert_eq!(repos, expected);
    assert_eq!(cache.get("github_repos_octocat"), Some(&expected));
    match actions.last().unwrap() {
        Action::StoreAndFinish { key, timestamp_key, timestamp_ms, .. } => {
            assert_eq!(key, "github_repos_octocat");
            assert_eq!(timestamp_key, "github_repos_octocat_timestamp");
            assert_eq!(*timestamp_ms, 1_700_000_000_000);
        }
        other => panic!("unexpected last action {:?}", other),
    }
}

#[test]
fn enrichment_replaces_image_from_address() {
    let mut stale = record("x", "https://gitlab.com/a/b");
    stale.image_url = Some("old".to_string());
    let out = enrich_repositories(&vec![stale, record("y", "https://github.com/a/b")], "ff");
    assert_eq!(out[0].image_url, None);
    assert_eq!(out[1].image_url, Some("https://opengraph.githubassets.com/ff/a/b".to_string()));
    assert_eq!(out[1].stargazers_count, 3);
    assert_eq!(out[1].forks_count, 1);
}

#[test]
fn keys_and_listing_address() {
    assert_eq!(cache_key("alice"), "github_repos_alice");
    assert_eq!(timestamp_key("github_repos_alice"), "github_repos_alice_timestamp");
    assert_eq!(listing_url("alice"), "https://api.github.com/users/alice/repos?sort=updated&per_page=10");
}
