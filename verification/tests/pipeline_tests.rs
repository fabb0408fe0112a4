use judge_a_book::client::ApiClient;
use judge_a_book::client::asset_names;
use judge_a_book::client::contains_collection;
use judge_a_book::client::is_success_status;
use judge_a_book::cmd::FetchCoversArgs;
use judge_a_book::cmd::Resolution;
use judge_a_book::errors::FetchError;
use judge_a_book::response_types::Asset;
use judge_a_book::response_types::AssetList;
use judge_a_book::response_types::BookCollection;

fn args(collection: &str, number: u32) -> FetchCoversArgs {
    FetchCoversArgs {
        collection: collection.to_string(),
        outdir: "covers".to_string(),
        number,
        res: Resolution::High,
        chain_api_key: "key".to_string(),
        asset_api_key: Some("asset-key".to_string()),
        chain_base_url: "this is not a url".to_string(),
        asset_base_url: "this is not a url".to_string(),
    }
}

#[test]
fn zero_requested_short_circuits_without_any_request() {
    let result = args("abc123", 0).run(Vec::new());
    assert!(result.unwrap().is_empty());
}

#[test]
fn satisfied_request_short_circuits_without_any_request() {
    let paths = vec![
        "covers/abc123-high-CID1.png".to_string(),
        "covers/abc123-high-CID2.png".to_string(),
    ];
    let result = args("abc123", 2).run(paths);
    assert!(result.unwrap().is_empty());
}

#[test]
fn unreachable_listing_is_a_hard_transport_failure() {
    let client = ApiClient::new(
        "key".to_string(),
        "asset-key".to_string(),
        "this is not a url".to_string(),
        "this is not a url".to_string(),
    )
    .unwrap();
    let result = client.get_assets_covers(
        &"abc123".to_string(),
        &Vec::new(),
        1,
        Resolution::High,
        &"covers/abc123-high-".to_string(),
    );
    assert!(matches!(result, Err(FetchError::Transport(_))));
}

#[test]
fn unknown_collection_is_not_listed() {
    let collections = vec![
        BookCollection { collection_id: "abc123".to_string() },
        BookCollection { collection_id: "def456".to_string() },
    ];
    assert!(contains_collection(&collections, &"abc123".to_string()));
    assert!(contains_collection(&collections, &"def456".to_string()));
    assert!(!contains_collection(&collections, &"unknown".to_string()));
    assert!(!contains_collection(&Vec::new(), &"abc123".to_string()));
}

#[test]
fn success_statuses_are_the_2xx_range() {
    assert!(is_success_status(200));
    assert!(is_success_status(204));
    assert!(is_success_status(299));
    assert!(!is_success_status(199));
    assert!(!is_success_status(300));
    assert!(!is_success_status(404));
    assert!(!is_success_status(500));
}

#[test]
fn asset_names_keep_listing_order() {
    let list = AssetList(vec![
        Asset { asset: "asset1".to_string() },
        Asset { asset: "asset2".to_string() },
    ]);
    assert_eq!(asset_names(&list), vec!["asset1".to_string(), "asset2".to_string()]);
}
