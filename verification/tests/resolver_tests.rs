use judge_a_book::cmd::Resolution;
use judge_a_book::resolver::extract_hi_res_cid;
use judge_a_book::resolver::extract_lo_res_cid;
use judge_a_book::resolver::resolve_cid;
use judge_a_book::response_types::AssetMetadataResp;
use judge_a_book::response_types::MetadataFile;
use judge_a_book::response_types::OnChainMetadata;

fn file(name: &str, src: &str) -> MetadataFile {
    MetadataFile { name: name.to_string(), src: src.to_string() }
}

fn metadata(image: &str, files: Vec<MetadataFile>) -> AssetMetadataResp {
    AssetMetadataResp { onchain_metadata: OnChainMetadata { files, image: image.to_string() } }
}

#[test]
fn high_res_picks_sentinel_file() {
    let asset = metadata(
        "ipfs://C",
        vec![file("Cover", "ipfs://A"), file("High-Res Cover Image", "ipfs://B")],
    );
    assert_eq!(extract_hi_res_cid(&asset), Some("B".to_string()));
    assert_eq!(resolve_cid(&asset, Resolution::High), Some("B".to_string()));
}

#[test]
fn low_res_takes_primary_image_regardless_of_files() {
    let asset = metadata(
        "ipfs://C",
        vec![file("High-Res Cover Image", "ipfs://B")],
    );
    assert_eq!(extract_lo_res_cid(&asset), Some("C".to_string()));
    assert_eq!(resolve_cid(&asset, Resolution::Low), Some("C".to_string()));
}

#[test]
fn high_res_absent_when_no_sentinel_name() {
    let asset = metadata("ipfs://C", vec![file("Cover", "ipfs://A")]);
    assert_eq!(extract_hi_res_cid(&asset), None);
}

#[test]
fn low_res_absent_without_ipfs_scheme() {
    let asset = metadata("https://example.test/c.png", vec![]);
    assert_eq!(extract_lo_res_cid(&asset), None);
}

#[test]
fn high_res_skips_sentinel_file_without_scheme() {
    let asset = metadata(
        "ipfs://C",
        vec![
            file("High-Res Cover Image", "https://example.test/b.png"),
            file("High-Res Cover Image", "ipfs://D"),
        ],
    );
    assert_eq!(extract_hi_res_cid(&asset), Some("D".to_string()));
}

#[test]
fn high_res_absent_when_no_sentinel_has_scheme() {
    let asset = metadata(
        "ipfs://C",
        vec![file("High-Res Cover Image", "https://example.test/b.png")],
    );
    assert_eq!(extract_hi_res_cid(&asset), None);
}

#[test]
fn high_res_keeps_original_order() {
    let asset = metadata(
        "",
        vec![
            file("Cover", "ipfs://A"),
            file("High-Res Cover Image", "ipfs://B"),
            file("High-Res Cover Image", "ipfs://E"),
        ],
    );
    assert_eq!(extract_hi_res_cid(&asset), Some("B".to_string()));
}

#[test]
fn resolver_is_total_on_empty_metadata() {
    let asset = metadata("", vec![]);
    assert_eq!(resolve_cid(&asset, Resolution::High), None);
    assert_eq!(resolve_cid(&asset, Resolution::Low), None);
}

#[test]
fn file_name_sentinel_check() {
    assert!(file("High-Res Cover Image", "x").is_high_res_image());
    assert!(!file("high-res cover image", "x").is_high_res_image());
    assert!(!file("Cover", "x").is_high_res_image());
}

#[test]
fn file_cid_strips_scheme() {
    assert_eq!(file("a", "ipfs://Qm123").get_cid(), Some("Qm123".to_string()));
    assert_eq!(file("a", "ipfs:/Qm123").get_cid(), None);
    assert_eq!(file("a", "").get_cid(), None);
    assert_eq!(file("a", "ipfs://").get_cid(), Some("".to_string()));
}
