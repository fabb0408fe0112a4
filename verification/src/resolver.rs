//! The CID resolver: a pure, total mapping from a decoded asset-metadata
//! document and a requested resolution to an optional content identifier.

use vstd::prelude::*;

use crate::cmd::Resolution;
use crate::response_types::AssetMetadataResp;
use crate::response_types::high_res_label;
use crate::response_types::spec_cid_of;
use crate::response_types::spec_hi_res_cid;
use crate::response_types::spec_lo_res_cid;
use crate::strings::strip_prefix_string;

verus! {

/// The resolution rule as one function: the sentinel-named file's CID for
/// `High`, the primary image reference's CID for `Low`.
pub open spec fn spec_resolve_cid(asset: AssetMetadataResp, res: Resolution) -> Option<Seq<char>> {
    match res {
        Resolution::High => spec_hi_res_cid(asset.onchain_metadata.files@),
        Resolution::Low => spec_lo_res_cid(asset.onchain_metadata),
    }
}

/// High resolution: in original order, the CID of the first file descriptor
/// that carries the sentinel name and an `ipfs://` source. Absent when no
/// descriptor does.
pub fn extract_hi_res_cid(asset: &AssetMetadataResp) -> (r: Option<String>)
    ensures
        match r {
            Some(c) => spec_hi_res_cid(asset.onchain_metadata.files@) == Some(c@),
            None => spec_hi_res_cid(asset.onchain_metadata.files@) is None,
        },
{
    let ghost all = asset.onchain_metadata.files@;
    let mut i: usize = 0;
    proof {
        assert(all.skip(0) =~= all);
    }
    while i < asset.onchain_metadata.files.len()
        invariant
            0 <= i <= asset.onchain_metadata.files.len(),
            all == asset.onchain_metadata.files@,
            spec_hi_res_cid(all.skip(i as int)) == spec_hi_res_cid(all),
        decreases asset.onchain_metadata.files.len() - i,
    {
        proof {
            assert(all.skip(i as int)[0] == all[i as int]);
            assert(all.skip(i as int).skip(1) =~= all.skip(i as int + 1));
        }
        if asset.onchain_metadata.files[i].is_high_res_image() {
            match asset.onchain_metadata.files[i].get_cid() {
                Some(cid) => {
                    proof {
                        assert(all.skip(i as int)[0].name@ == high_res_label());
                        assert(spec_cid_of(all.skip(i as int)[0].src@) == Some(cid@));
                        assert(spec_hi_res_cid(all.skip(i as int)) == spec_cid_of(
                            all[i as int].src@,
                        ));
                        assert(spec_hi_res_cid(asset.onchain_metadata.files@) == Some(cid@));
                    }
                    return Some(cid);
                },
                None => {},
            }
        }
        i += 1;
    }
    proof {
        assert(all.skip(i as int) =~= Seq::<crate::response_types::MetadataFile>::empty());
    }
    None
}

/// Low resolution: the CID of the primary image reference, absent when its
/// scheme is not `ipfs://`.
pub fn extract_lo_res_cid(asset: &AssetMetadataResp) -> (r: Option<String>)
    ensures
        match r {
            Some(c) => spec_lo_res_cid(asset.onchain_metadata) == Some(c@),
            None => spec_lo_res_cid(asset.onchain_metadata) is None,
        },
{
    strip_prefix_string(asset.onchain_metadata.image.as_str(), "ipfs://")
}

/// The resolver: deterministic, side-effect free and total — any malformed
/// or missing reference yields absence, never an error.
pub fn resolve_cid(asset: &AssetMetadataResp, res: Resolution) -> (r: Option<String>)
    ensures
        match r {
            Some(c) => spec_resolve_cid(*asset, res) == Some(c@),
            None => spec_resolve_cid(*asset, res) is None,
        },
{
    if res == Resolution::High {
        extract_hi_res_cid(asset)
    } else {
        extract_lo_res_cid(asset)
    }
}

} // verus!
