//! The fetch-covers command: its arguments, the resolution tag, and the
//! caller-side computations — output-path prefix, the set of covers already
//! on disk, and how many covers are still owed.

use vstd::prelude::*;

use crate::client::ApiClient;
use crate::client::DownloadedCover;
use crate::errors::FetchError;
use crate::strings::concat_strs;
use crate::strings::spec_strip_prefix;
use crate::strings::spec_trim_end;
use crate::strings::strip_prefix_string;
use crate::strings::trim_end_matches_string;

verus! {

/// The cover-image quality tier requested: a closed two-valued tag.
#[derive(Clone, Copy, Debug, PartialEq, Eq, Structural)]
pub enum Resolution {
    High,
    Low,
}

/// The lower-case tag of a resolution, as it appears in file names.
pub open spec fn spec_res_label(res: Resolution) -> Seq<char> {
    match res {
        Resolution::High => "high"@,
        Resolution::Low => "low"@,
    }
}

impl Resolution {
    /// The lower-case tag, in place of a `Display` impl.
    pub fn label(&self) -> (r: String)
        ensures
            r@ == spec_res_label(*self),
    {
        match self {
            Resolution::High => "high".to_owned(),
            Resolution::Low => "low".to_owned(),
        }
    }
}

/// The arguments of one fetch-covers run, already parsed and defaulted.
pub struct FetchCoversArgs {
    /// The collection of books to retrieve, identified by policy id.
    pub collection: String,
    /// The directory the retrieved images go to.
    pub outdir: String,
    /// The number of books for which to retrieve cover images.
    pub number: u32,
    /// The resolution for images retrieved.
    pub res: Resolution,
    /// The key for querying the blockchain API.
    pub chain_api_key: String,
    /// The key for querying and retrieving asset-store blobs.
    pub asset_api_key: Option<String>,
    /// The base URL for querying the blockchain API.
    pub chain_base_url: String,
    /// The base URL for retrieving image assets.
    pub asset_base_url: String,
}

/// The commands the tool offers.
pub enum Cmd {
    /// Fetch the cover images for the books in the queried collection.
    FetchCovers(FetchCoversArgs),
}

impl FetchCoversArgs {
    /// One fetch-covers run, short of its filesystem edges: the caller
    /// hands in the output directory's listing and persists the covers
    /// handed back.
    ///
    /// Covers already on disk are never fetched again, no more covers come
    /// back than are still owed, and each cover's path is the run's prefix,
    /// its CID and `.png`. An unknown collection is nothing to do, not a
    /// failure: the result is then empty.
    pub fn run(self, dir_paths: Vec<String>) -> (r: Result<Vec<DownloadedCover>, FetchError>)
        ensures
            ({
                let prefix = spec_cover_prefix(self.outdir@, self.collection@, self.res);
                let existing = spec_existing_covers(dir_paths.deep_view(), prefix);
                &&& match r {
                    Ok(covers) => {
                        &&& covers@.len() <= spec_covers_needed(self.number, existing.len())
                        &&& forall|i: int|
                            0 <= i < covers@.len() ==> !existing.contains(
                                #[trigger] covers@[i].cid@,
                            )
                        &&& forall|i: int|
                            0 <= i < covers@.len() ==> #[trigger] covers@[i].path@ == prefix
                                + covers@[i].cid@ + ".png"@
                    },
                    Err(_) => true,
                }
                &&& spec_covers_needed(self.number, existing.len()) == 0 ==> r is Ok
            }),
    {
        let prefix = cover_prefix(self.outdir.as_str(), self.collection.as_str(), self.res);
        let existing = existing_from_paths(&dir_paths, prefix.as_str());
        let needed = covers_to_download(self.number, existing.len());
        if needed == 0 {
            return Ok(Vec::new());
        }
        let asset_key = match self.asset_api_key {
            Some(key) => key,
            None => String::new(),
        };
        let client = match ApiClient::new(
            self.chain_api_key,
            asset_key,
            self.asset_base_url,
            self.chain_base_url,
        ) {
            Ok(client) => client,
            Err(error) => {
                return Err(error);
            },
        };
        match client.is_valid_collection(&self.collection) {
            Err(error) => Err(error),
            Ok(false) => Ok(Vec::new()),
            Ok(true) => client.get_assets_covers(
                &self.collection,
                &existing,
                needed,
                self.res,
                &prefix,
            ),
        }
    }
}

/// The output-path prefix of a run: the output directory (trailing slashes
/// trimmed), the collection id and the resolution tag.
pub open spec fn spec_cover_prefix(
    outdir: Seq<char>,
    collection: Seq<char>,
    res: Resolution,
) -> Seq<char> {
    spec_trim_end(outdir, "/"@) + "/"@ + collection + "-"@ + spec_res_label(res) + "-"@
}

/// Builds the output-path prefix `{outdir}/{collection}-{resolution}-`.
pub fn cover_prefix(outdir: &str, collection: &str, res: Resolution) -> (r: String)
    ensures
        r@ == spec_cover_prefix(outdir@, collection@, res),
{
    let trimmed = trim_end_matches_string(outdir, "/");
    let a = concat_strs(trimmed.as_str(), "/");
    let b = concat_strs(a.as_str(), collection);
    let c = concat_strs(b.as_str(), "-");
    let label = res.label();
    let d = concat_strs(c.as_str(), label.as_str());
    let e = concat_strs(d.as_str(), "-");
    proof {
        assert(e@ =~= spec_cover_prefix(outdir@, collection@, res));
    }
    e
}

/// The CIDs named by the directory entries that carry the run's prefix:
/// for each such path, what stands between the prefix and the trailing
/// `.png` repetitions.
pub open spec fn spec_existing_covers(paths: Seq<Seq<char>>, prefix: Seq<char>) -> Seq<Seq<char>>
    decreases paths.len(),
{
    if paths.len() == 0 {
        Seq::empty()
    } else {
        let rest = spec_existing_covers(paths.skip(1), prefix);
        match spec_strip_prefix(paths[0], prefix) {
            Some(t) => seq![spec_trim_end(t, ".png"@)] + rest,
            None => rest,
        }
    }
}

/// Reads the CIDs already downloaded out of a directory listing: the paths
/// that carry the run's prefix, with the prefix and the `.png` ending
/// removed.
pub fn existing_from_paths(paths: &Vec<String>, prefix: &str) -> (r: Vec<String>)
    ensures
        r.deep_view() == spec_existing_covers(paths.deep_view(), prefix@),
{
    let ghost all = paths.deep_view();
    let mut out: Vec<String> = Vec::new();
    let mut i: usize = 0;
    proof {
        assert(all.skip(0) =~= all);
        assert(out.deep_view() =~= Seq::<Seq<char>>::empty());
    }
    while i < paths.len()
        invariant
            0 <= i <= paths.len(),
            all.len() == paths.len(),
            all == paths.deep_view(),
            out.deep_view() + spec_existing_covers(all.skip(i as int), prefix@)
                == spec_existing_covers(all, prefix@),
        decreases paths.len() - i,
    {
        let ghost prev = out.deep_view();
        proof {
            assert(all[i as int] == paths@[i as int]@);
            assert(all.skip(i as int)[0] == all[i as int]);
            assert(all.skip(i as int).skip(1) =~= all.skip(i as int + 1));
        }
        match strip_prefix_string(paths[i].as_str(), prefix) {
            Some(t) => {
                let cid = trim_end_matches_string(t.as_str(), ".png");
                out.push(cid);
                proof {
                    let rest = spec_existing_covers(all.skip(i as int + 1), prefix@);
                    assert(out.deep_view() =~= prev + seq![spec_trim_end(t@, ".png"@)]);
                    assert((prev + seq![spec_trim_end(t@, ".png"@)]) + rest =~= prev + (seq![
                        spec_trim_end(t@, ".png"@),
                    ] + rest));
                }
            },
            None => {},
        }
        i += 1;
    }
    proof {
        assert(all.skip(i as int) =~= Seq::<Seq<char>>::empty());
        assert(out.deep_view() + Seq::<Seq<char>>::empty() =~= out.deep_view());
    }
    out
}

/// How many covers a run still owes: the requested number less those
/// already on disk, and zero when the request is already satisfied.
pub open spec fn spec_covers_needed(number: u32, existing: nat) -> nat {
    if existing >= number {
        0
    } else {
        (number - existing) as nat
    }
}

/// The count of covers still to download; zero short-circuits the run.
pub fn covers_to_download(number: u32, existing: usize) -> (r: u32)
    ensures
        r == spec_covers_needed(number, existing as nat),
{
    if existing >= number as usize {
        0
    } else {
        number - (existing as u32)
    }
}

} // verus!
