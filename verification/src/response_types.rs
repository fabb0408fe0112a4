//! The wire shapes of the chain API's responses, and the CID-extraction
//! rules over them.
//!
//! A cover image lives in the asset store under a content identifier (CID);
//! asset metadata points at it with an `ipfs://`-prefixed source reference.
//! High resolution selects the file descriptor named by the reserved
//! sentinel label; low resolution selects the primary image reference.

use vstd::prelude::*;

use crate::strings::spec_strip_prefix;
use crate::strings::strip_prefix_string;

verus! {

/// One entry of the collection registry's listing.
pub struct BookCollection {
    pub collection_id: String,
}

/// The collection registry's response: the list of known collections.
pub struct BookCollectionResp {
    pub data: Vec<BookCollection>,
}

/// One entry of a collection's asset listing.
pub struct Asset {
    pub asset: String,
}

/// The asset listing's response: a bare array of assets.
pub struct AssetList(pub Vec<Asset>);

/// A named file descriptor inside an asset's on-chain metadata.
pub struct MetadataFile {
    pub name: String,
    pub src: String,
}

/// The sentinel label that marks a high-resolution cover image descriptor.
pub open spec fn high_res_label() -> Seq<char> {
    "High-Res Cover Image"@
}

/// The scheme prefix that a source reference must carry to name a CID.
pub open spec fn ipfs_scheme() -> Seq<char> {
    "ipfs://"@
}

/// The CID named by a source reference: what follows the `ipfs://` scheme,
/// or nothing when the scheme is absent.
pub open spec fn spec_cid_of(src: Seq<char>) -> Option<Seq<char>> {
    spec_strip_prefix(src, ipfs_scheme())
}

impl MetadataFile {
    /// Whether this descriptor's name equals the high-resolution sentinel.
    pub fn is_high_res_image(&self) -> (r: bool)
        ensures
            r == (self.name@ == high_res_label()),
    {
        let label: String = "High-Res Cover Image".to_owned();
        self.name == label
    }

    /// The CID this descriptor's source names, if its scheme is `ipfs://`.
    pub fn get_cid(&self) -> (r: Option<String>)
        ensures
            match r {
                Some(c) => spec_cid_of(self.src@) == Some(c@),
                None => spec_cid_of(self.src@) is None,
            },
    {
        strip_prefix_string(self.src.as_str(), "ipfs://")
    }
}

/// The metadata document of one asset.
pub struct OnChainMetadata {
    pub files: Vec<MetadataFile>,
    pub image: String,
}

/// The chain API's per-asset response: the on-chain metadata alone.
pub struct AssetMetadataResp {
    pub onchain_metadata: OnChainMetadata,
}

/// The collection identifiers a registry response lists, in order.
pub open spec fn spec_collection_ids(resp: BookCollectionResp) -> Seq<Seq<char>> {
    resp.data@.map_values(|c: BookCollection| c.collection_id@)
}

/// The id list a registry response yields contains `id` exactly when some
/// listed collection carries it.
pub proof fn lemma_collection_ids_contains(resp: BookCollectionResp, id: Seq<char>)
    ensures
        spec_collection_ids(resp).contains(id) == (exists|i: int|
            0 <= i < resp.data@.len() && resp.data@[i].collection_id@ == id),
{
    let ids = spec_collection_ids(resp);
    if exists|i: int| 0 <= i < resp.data@.len() && resp.data@[i].collection_id@ == id {
        let i = choose|i: int| 0 <= i < resp.data@.len() && resp.data@[i].collection_id@ == id;
        assert(ids[i] == id);
        assert(ids.contains(id));
    }
    if ids.contains(id) {
        let i = choose|i: int| 0 <= i < ids.len() && ids[i] == id;
        assert(resp.data@[i].collection_id@ == id);
    }
}

/// The asset identifiers a listing response names, in order.
pub open spec fn spec_asset_ids(list: AssetList) -> Seq<Seq<char>> {
    list.0@.map_values(|a: Asset| a.asset@)
}

/// A metadata document as plain values: the primary image reference and
/// the (name, source) pairs of its file descriptors, in order.
pub open spec fn spec_metadata_view(resp: AssetMetadataResp) -> (
    Seq<char>,
    Seq<(Seq<char>, Seq<char>)>,
) {
    (
        resp.onchain_metadata.image@,
        resp.onchain_metadata.files@.map_values(|f: MetadataFile| (f.name@, f.src@)),
    )
}

/// The high-resolution rule over a file list: in original order, the CID of
/// the first descriptor that both carries the sentinel name and has an
/// `ipfs://` source.
pub open spec fn spec_hi_res_cid(files: Seq<MetadataFile>) -> Option<Seq<char>>
    decreases files.len(),
{
    if files.len() == 0 {
        None
    } else if files[0].name@ == high_res_label() && spec_cid_of(files[0].src@) is Some {
        spec_cid_of(files[0].src@)
    } else {
        spec_hi_res_cid(files.skip(1))
    }
}

/// The low-resolution rule: the CID of the primary image reference.
pub open spec fn spec_lo_res_cid(metadata: OnChainMetadata) -> Option<Seq<char>> {
    spec_cid_of(metadata.image@)
}

} // verus!
