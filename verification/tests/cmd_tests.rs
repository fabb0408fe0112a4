use judge_a_book::cmd::Cmd;
use judge_a_book::cmd::FetchCoversArgs;
use judge_a_book::cmd::Resolution;
use judge_a_book::cmd::cover_prefix;
use judge_a_book::cmd::covers_to_download;
use judge_a_book::cmd::existing_from_paths;
use judge_a_book::errors::FetchError;
use judge_a_book::strings::concat_strs;
use judge_a_book::strings::strip_prefix_string;
use judge_a_book::strings::strip_suffix_string;
use judge_a_book::strings::trim_end_matches_string;

fn strs(items: &[&str]) -> Vec<String> {
    items.iter().map(|s| s.to_string()).collect()
}

#[test]
fn prefix_joins_outdir_collection_and_resolution() {
    assert_eq!(cover_prefix("covers", "abc123", Resolution::High), "covers/abc123-high-");
    assert_eq!(cover_prefix("covers", "abc123", Resolution::Low), "covers/abc123-low-");
}

#[test]
fn prefix_trims_trailing_slashes() {
    assert_eq!(cover_prefix("covers//", "c", Resolution::High), "covers/c-high-");
    assert_eq!(cover_prefix("covers/", "c", Resolution::Low), "covers/c-low-");
}

#[test]
fn resolution_labels_are_lowercase() {
    assert_eq!(Resolution::High.label(), "high");
    assert_eq!(Resolution::Low.label(), "low");
}

#[test]
fn counts_still_owed() {
    assert_eq!(covers_to_download(10, 0), 10);
    assert_eq!(covers_to_download(10, 3), 7);
    assert_eq!(covers_to_download(3, 3), 0);
    assert_eq!(covers_to_download(3, 5), 0);
    assert_eq!(covers_to_download(0, 0), 0);
}

#[test]
fn existing_covers_come_from_prefixed_paths() {
    let paths = strs(&[
        "covers/c-high-CID1.png",
        "covers/other.txt",
        "covers/c-low-CID9.png",
        "covers/c-high-CID2.png",
    ]);
    let existing = existing_from_paths(&paths, "covers/c-high-");
    assert_eq!(existing, strs(&["CID1", "CID2"]));
}

#[test]
fn existing_covers_empty_listing() {
    assert!(existing_from_paths(&strs(&[]), "covers/c-high-").is_empty());
}

#[test]
fn strip_prefix_on_match_and_miss() {
    assert_eq!(strip_prefix_string("ipfs://Q", "ipfs://"), Some("Q".to_string()));
    assert_eq!(strip_prefix_string("ipfs://", "ipfs://"), Some("".to_string()));
    assert_eq!(strip_prefix_string("http://Q", "ipfs://"), None);
    assert_eq!(strip_prefix_string("ipfs:/", "ipfs://"), None);
    assert_eq!(strip_prefix_string("abc", ""), Some("abc".to_string()));
}

#[test]
fn strip_suffix_on_match_and_miss() {
    assert_eq!(strip_suffix_string("a.png", ".png"), Some("a".to_string()));
    assert_eq!(strip_suffix_string(".png", ".png"), Some("".to_string()));
    assert_eq!(strip_suffix_string("a.jpg", ".png"), None);
    assert_eq!(strip_suffix_string("png", ".png"), None);
}

#[test]
fn trim_removes_every_trailing_repetition() {
    assert_eq!(trim_end_matches_string("a.png.png", ".png"), "a");
    assert_eq!(trim_end_matches_string("a.png", ".png"), "a");
    assert_eq!(trim_end_matches_string("a", ".png"), "a");
    assert_eq!(trim_end_matches_string("dir///", "/"), "dir");
    assert_eq!(trim_end_matches_string("a", ""), "a");
}

#[test]
fn concat_appends() {
    assert_eq!(concat_strs("ab", "cd"), "abcd");
    assert_eq!(concat_strs("", "cd"), "cd");
    assert_eq!(concat_strs("ab", ""), "ab");
}

#[test]
fn error_messages_carry_their_text() {
    assert_eq!(FetchError::Transport("no route".to_string()).message(), "no route");
    assert_eq!(FetchError::Status("404 Not Found".to_string()).message(), "404 Not Found");
    assert_eq!(FetchError::MalformedResponse.message(), "malformed response body");
}

#[test]
fn command_carries_the_fetch_covers_args() {
    let cmd = Cmd::FetchCovers(FetchCoversArgs {
        collection: "abc123".to_string(),
        outdir: "covers".to_string(),
        number: 3,
        res: Resolution::Low,
        chain_api_key: "k".to_string(),
        asset_api_key: None,
        chain_base_url: "u".to_string(),
        asset_base_url: "v".to_string(),
    });
    match cmd {
        Cmd::FetchCovers(args) => {
            assert_eq!(args.number, 3);
            assert_eq!(args.res, Resolution::Low);
        }
    }
}
