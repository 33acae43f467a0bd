use rscoop::bucket_match::{bucket_match_rank, repo_name};
use rscoop::buckets::SearchableBucket;

fn bm_bucket(name: &str, full_name: &str, description: &str) -> SearchableBucket {
    SearchableBucket {
        name: name.to_string(),
        full_name: full_name.to_string(),
        description: description.to_string(),
        url: format!("https://github.com/{full_name}"),
        stars: 10,
        forks: 1,
        apps: 5,
        last_updated: "2025-01-01".to_string(),
        is_verified: false,
    }
}

#[test]
fn repo_name_is_cleaned() {
    assert_eq!(repo_name("Calinou/scoop-games"), "games");
    assert_eq!(repo_name("Owner/Scoop_Tools"), "tools");
    assert_eq!(repo_name("owner/scoop-scoop_x"), "x");
    assert_eq!(repo_name("owner/repo/more"), "repo");
    assert_eq!(repo_name("no-slash"), "");
    assert_eq!(repo_name(""), "");
}

#[test]
fn rank_by_name() {
    let b = bm_bucket("Games", "Calinou/scoop-games", "Games for all");
    assert_eq!(bucket_match_rank(&b, "games"), 1000);
    assert_eq!(bucket_match_rank(&b, "gam"), 500);
    assert_eq!(bucket_match_rank(&b, "ame"), 250);
}

#[test]
fn rank_by_repository() {
    let b = bm_bucket("play", "Calinou/scoop-games", "fun");
    assert_eq!(bucket_match_rank(&b, "games"), 100);
    assert_eq!(bucket_match_rank(&b, "gam"), 50);
    assert_eq!(bucket_match_rank(&b, "ame"), 25);
}

#[test]
fn rank_by_full_name_and_description() {
    let b = bm_bucket("play", "Calinou/scoop-games", "Open Source fun");
    assert_eq!(bucket_match_rank(&b, "calinou"), 10);
    assert_eq!(bucket_match_rank(&b, "scoop-"), 10);
    assert_eq!(bucket_match_rank(&b, "open source"), 1);
    assert_eq!(bucket_match_rank(&b, "nothing"), 0);
}

#[test]
fn empty_query_ranks_by_name_prefix() {
    let b = bm_bucket("play", "a/b", "c");
    assert_eq!(bucket_match_rank(&b, ""), 500);
    let unnamed = bm_bucket("", "a/b", "c");
    assert_eq!(bucket_match_rank(&unnamed, ""), 1000);
}
