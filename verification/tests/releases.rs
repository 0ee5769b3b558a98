use github_update::github::{Asset, GithubRender, Release, Renderable};
use github_update::github_release::{
    feed_url, feed_user_agent, find_latest_release, find_specific_release, latest_release, FeedReply, Opt,
};
use github_update::{Error, GithubRelease};

fn release(tag: &str, prerelease: bool) -> Release {
    Release { tag_name: tag.to_string(), prerelease, assets: Vec::new() }
}

fn catalog(releases: &[(&str, bool)]) -> GithubRelease {
    GithubRelease::new(releases.iter().map(|(tag, pre)| release(tag, *pre)).collect())
}

fn tag_of(found: Option<&Release>) -> Option<&str> {
    found.map(|r| r.tag_name.as_str())
}

fn opt(pre_release: bool, stable_only: bool) -> Opt {
    Opt {
        pre_release,
        stable_only,
        output: None,
        repo: "owner/name".to_string(),
        release: "latest".to_string(),
    }
}

#[test]
fn latest_of_two_stable_releases_is_the_first() {
    let c = catalog(&[("v2.0", false), ("v1.0", false)]);
    assert_eq!(tag_of(c.latest(false, false)), Some("v2.0"));
}

#[test]
fn latest_falls_back_to_sole_prerelease() {
    let c = catalog(&[("v2.0-rc1", true)]);
    assert_eq!(tag_of(c.latest(false, false)), Some("v2.0-rc1"));
}

#[test]
fn latest_with_pre_release_is_the_head_whatever_its_flag() {
    let c = catalog(&[("v3.0-beta", true), ("v2.0", false)]);
    assert_eq!(tag_of(c.latest(true, false)), Some("v3.0-beta"));
    assert_eq!(tag_of(c.latest(true, true)), Some("v3.0-beta"));
    let c = catalog(&[("v2.0", false), ("v3.0-beta", true)]);
    assert_eq!(tag_of(c.latest(true, false)), Some("v2.0"));
    assert_eq!(tag_of(c.latest(true, true)), Some("v2.0"));
}

#[test]
fn latest_skips_ahead_to_the_first_stable() {
    let c = catalog(&[("v3.0-rc2", true), ("v3.0-rc1", true), ("v2.1", false), ("v2.0", false)]);
    assert_eq!(tag_of(c.latest(false, true)), Some("v2.1"));
    assert_eq!(tag_of(c.latest(false, false)), Some("v2.1"));
    assert!(!c.latest(false, true).unwrap().prerelease);
}

#[test]
fn latest_stable_only_without_stable_is_nothing() {
    let c = catalog(&[("v3.0-rc2", true), ("v3.0-rc1", true)]);
    assert!(c.latest(false, true).is_none());
    assert_eq!(tag_of(c.latest(false, false)), Some("v3.0-rc2"));
}

#[test]
fn latest_of_no_releases_is_nothing() {
    let c = catalog(&[]);
    assert!(c.latest(false, false).is_none());
    assert!(c.latest(false, true).is_none());
    assert!(c.latest(true, false).is_none());
    assert!(c.latest(true, true).is_none());
}

#[test]
fn latest_returns_the_release_with_its_assets() {
    let mut first = release("v1.1", false);
    first.assets.push(Asset { url: "https://example.test/a".to_string(), name: "a.tar.gz".to_string() });
    let c = GithubRelease::new(vec![release("v1.2-rc", true), first]);
    let found = c.latest(false, false).unwrap();
    assert_eq!(found.tag_name, "v1.1");
    assert_eq!(found.assets.len(), 1);
    assert_eq!(found.assets[0].name, "a.tar.gz");
}

#[test]
fn find_tag_is_exact() {
    let c = catalog(&[("v2.0", false), ("V1.0", false), ("v1.0", true)]);
    assert_eq!(tag_of(c.find_tag("v1.0")), Some("v1.0"));
    assert!(c.find_tag("v1.0").unwrap().prerelease);
    assert_eq!(tag_of(c.find_tag("V1.0")), Some("V1.0"));
    assert!(c.find_tag("V2.0").is_none());
    assert!(c.find_tag("v2").is_none());
    assert!(c.find_tag("v2.0 ").is_none());
    assert!(c.find_tag("").is_none());
    assert!(c.find_tag("latest").is_none());
}

#[test]
fn find_tag_takes_the_first_of_equal_tags() {
    let mut twin = release("v1", false);
    twin.assets.push(Asset { url: "u".to_string(), name: "second".to_string() });
    let c = GithubRelease::new(vec![release("v1", true), twin]);
    let found = c.find_tag("v1").unwrap();
    assert!(found.prerelease);
    assert!(found.assets.is_empty());
}

#[test]
fn resolve_latest_or_tag() {
    let c = catalog(&[("v3.0-rc1", true), ("v2.0", false), ("latest", false)]);
    assert_eq!(tag_of(c.resolve("latest", false, false)), Some("v2.0"));
    assert_eq!(tag_of(c.resolve("latest", true, false)), Some("v3.0-rc1"));
    assert_eq!(tag_of(c.resolve("v3.0-rc1", false, true)), Some("v3.0-rc1"));
    assert!(c.resolve("Latest", false, false).is_none());
    assert!(c.resolve("v9", false, false).is_none());
}

#[test]
fn free_functions_agree_with_the_catalog() {
    let list = vec![release("v3.0-rc1", true), release("v2.0", false)];
    assert_eq!(tag_of(find_latest_release(&list, &opt(false, false))), Some("v2.0"));
    assert_eq!(tag_of(find_latest_release(&list, &opt(true, false))), Some("v3.0-rc1"));
    assert_eq!(tag_of(find_latest_release(&list[..1], &opt(false, true))), None);
    assert_eq!(tag_of(find_latest_release(&list[..1], &opt(false, false))), Some("v3.0-rc1"));
    assert_eq!(tag_of(latest_release(&list, false, true)), Some("v2.0"));
    assert_eq!(tag_of(find_specific_release(&list, "v2.0")), Some("v2.0"));
    assert_eq!(tag_of(find_specific_release(&list, "v2.0.0")), None);
}

#[test]
fn catalog_keeps_the_order_of_the_feed() {
    let c = catalog(&[("b", false), ("a", false), ("c", true)]);
    let tags: Vec<&str> = c.releases().iter().map(|r| r.tag_name.as_str()).collect();
    assert_eq!(tags, vec!["b", "a", "c"]);
}

#[test]
fn feed_url_names_the_repository() {
    assert_eq!(feed_url("rust-lang/rust"), "https://api.github.com/repos/rust-lang/rust/releases");
    assert_eq!(feed_url(""), "https://api.github.com/repos//releases");
    assert_eq!(feed_user_agent(), "reqwest 0.11.3");
}

#[test]
fn reply_not_found_is_a_missing_repository() {
    let reply = FeedReply { status: 404, body: Err(String::new()) };
    match GithubRelease::from_reply("owner/name", Ok(reply)) {
        Err(Error::RepoNotFound(repo)) => assert_eq!(repo, "owner/name"),
        _ => panic!("expected a missing repository"),
    }
    let reply = FeedReply { status: 404, body: Ok(vec![release("v1", false)]) };
    assert!(matches!(GithubRelease::from_reply("o/n", Ok(reply)), Err(Error::RepoNotFound(_))));
}

#[test]
fn reply_with_error_status_is_reported_as_such() {
    for status in [400u16, 403, 500, 599] {
        let reply = FeedReply { status, body: Ok(Vec::new()) };
        match GithubRelease::from_reply("o/n", Ok(reply)) {
            Err(Error::HttpStatus(code)) => assert_eq!(code, status),
            _ => panic!("expected an error status"),
        }
    }
}

#[test]
fn reply_without_status_is_a_transport_failure() {
    match GithubRelease::from_reply("o/n", Err("connection refused".to_string())) {
        Err(Error::HttpError(words)) => assert_eq!(words, "connection refused"),
        _ => panic!("expected a transport failure"),
    }
}

#[test]
fn reply_with_undecodable_body_is_a_decode_failure() {
    let reply = FeedReply { status: 200, body: Err("expected an array".to_string()) };
    match GithubRelease::from_reply("o/n", Ok(reply)) {
        Err(Error::DecodeError(words)) => assert_eq!(words, "expected an array"),
        _ => panic!("expected a decode failure"),
    }
}

#[test]
fn reply_with_releases_is_a_catalog() {
    for status in [200u16, 203, 399, 600] {
        let reply = FeedReply { status, body: Ok(vec![release("v2", false), release("v1", false)]) };
        let c = match GithubRelease::from_reply("o/n", Ok(reply)) {
            Ok(c) => c,
            Err(_) => panic!("expected a catalog"),
        };
        assert_eq!(c.releases().len(), 2);
        assert_eq!(tag_of(c.latest(false, false)), Some("v2"));
    }
}

#[test]
fn error_messages() {
    assert_eq!(Error::RepoNotFound("o/n".to_string()).message(), "repo `o/n` not found");
    assert_eq!(Error::HttpStatus(500).message(), "http error");
    assert_eq!(Error::HttpError("x".to_string()).message(), "http error");
    assert_eq!(Error::DecodeError("x".to_string()).message(), "decode error");
}

#[test]
fn releases_render_as_tags_and_assets_as_names() {
    let r = release("v1.2.3", false);
    let a = Asset { url: "https://example.test/x".to_string(), name: "x.zip".to_string() };
    assert_eq!(GithubRender.render(&r), "v1.2.3");
    assert_eq!(GithubRender.render(&a), "x.zip");
    assert_eq!(Release::get_render().render(&r), "v1.2.3");
    assert_eq!(Asset::get_render().render(&a), "x.zip");
    assert_eq!(r.rendered(), "v1.2.3");
    assert_eq!(a.rendered(), "x.zip");
}
