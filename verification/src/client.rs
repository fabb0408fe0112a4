//! The typed HTTP clients and the fetch pipeline: collection validation,
//! asset listing, concurrent per-asset CID resolution, deduplication and
//! bounding, and cover download.
//!
//! Every network call stands behind a small trusted wrapper; everything
//! decided about the values that come back — status handling, membership,
//! resolution, selection, path construction — is verified.

use vstd::prelude::*;

use rayon::iter::IntoParallelRefIterator;
use rayon::iter::ParallelIterator;

use crate::cmd::Resolution;
use crate::errors::FetchError;
use crate::http::build_http_client;
use crate::http::http_get;
use crate::resolver::resolve_cid;
use crate::resolver::spec_resolve_cid;
use crate::response_types::Asset;
use crate::response_types::AssetList;
use crate::response_types::AssetMetadataResp;
use crate::response_types::BookCollection;
use crate::response_types::BookCollectionResp;
use crate::response_types::MetadataFile;
use crate::response_types::OnChainMetadata;
use crate::response_types::lemma_collection_ids_contains;
use crate::response_types::spec_asset_ids;
use crate::response_types::spec_collection_ids;
use crate::response_types::spec_metadata_view;
use crate::select::select_cids;
use crate::strings::concat_strs;

verus! {

/// The canonical collection registry endpoint; fixed, not configurable.
const BOOKIO_COLLECTION_URL: &'static str = "https://api.book.io/api/v0/collections";

/// The user agent the HTTP client announces.
const USER_AGENT: &'static str = "judge_a_book/0.1.0";

/// One downloaded cover: the CID it came from, the destination path and
/// the raw image bytes, which the caller persists.
pub struct DownloadedCover {
    pub cid: String,
    pub path: String,
    pub bytes: Vec<u8>,
}

/// What decoding a collection registry body yields: the listed collection
/// identifiers, or nothing when the body does not carry the expected
/// shape. JSON decoding is a function of the bytes alone.
pub uninterp spec fn collections_parsed(body: Seq<u8>) -> Option<Seq<Seq<char>>>;

/// What decoding an asset listing body yields: the listed asset
/// identifiers, or nothing when the body does not carry the expected
/// shape.
pub uninterp spec fn asset_list_parsed(body: Seq<u8>) -> Option<Seq<Seq<char>>>;

/// What decoding a per-asset metadata body yields: the primary image
/// reference and the (name, source) file descriptors, or nothing when the
/// body does not carry the expected shape.
pub uninterp spec fn asset_metadata_parsed(body: Seq<u8>) -> Option<
    (Seq<char>, Seq<(Seq<char>, Seq<char>)>),
>;

/// Relies on serde_json::from_slice: decodes the collection registry's
/// response shape `{ data: [{ collection_id }, ...] }`; anything else is
/// absence.
#[verifier::external_body]
fn parse_collections(body: &[u8]) -> (r: Option<BookCollectionResp>)
    ensures
        match r {
            Some(resp) => collections_parsed(body@) == Some(spec_collection_ids(resp)),
            None => collections_parsed(body@) is None,
        },
{
    let value: serde_json::Value = serde_json::from_slice(body).ok()?;
    let mut data = Vec::new();
    for item in value.get("data")?.as_array()? {
        data.push(BookCollection { collection_id: item.get("collection_id")?.as_str()?.to_owned() });
    }
    Some(BookCollectionResp { data })
}

/// Relies on serde_json::from_slice: decodes the asset listing's response
/// shape `[{ asset }, ...]`; anything else is absence.
#[verifier::external_body]
fn parse_asset_list(body: &[u8]) -> (r: Option<AssetList>)
    ensures
        match r {
            Some(list) => asset_list_parsed(body@) == Some(spec_asset_ids(list)),
            None => asset_list_parsed(body@) is None,
        },
{
    let value: serde_json::Value = serde_json::from_slice(body).ok()?;
    let mut assets = Vec::new();
    for item in value.as_array()? {
        assets.push(Asset { asset: item.get("asset")?.as_str()?.to_owned() });
    }
    Some(AssetList(assets))
}

/// Relies on serde_json::from_slice: decodes the per-asset metadata shape
/// `{ onchain_metadata: { image, files: [{ name, src }, ...] } }`; anything
/// else is absence.
#[verifier::external_body]
fn parse_asset_metadata(body: &[u8]) -> (r: Option<AssetMetadataResp>)
    ensures
        match r {
            Some(resp) => asset_metadata_parsed(body@) == Some(spec_metadata_view(resp)),
            None => asset_metadata_parsed(body@) is None,
        },
{
    let value: serde_json::Value = serde_json::from_slice(body).ok()?;
    let metadata = value.get("onchain_metadata")?;
    let image = metadata.get("image")?.as_str()?.to_owned();
    let mut files = Vec::new();
    for file in metadata.get("files")?.as_array()? {
        files.push(MetadataFile {
            name: file.get("name")?.as_str()?.to_owned(),
            src: file.get("src")?.as_str()?.to_owned(),
        });
    }
    Some(AssetMetadataResp { onchain_metadata: OnChainMetadata { files, image } })
}

/// Whether an HTTP status code counts as success (2xx).
pub fn is_success_status(status: u16) -> (r: bool)
    ensures
        r == (200 <= status < 300),
{
    200 <= status && status < 300
}

/// Whether `id` appears among the listed collections.
pub fn contains_collection(collections: &Vec<BookCollection>, id: &String) -> (r: bool)
    ensures
        r == (exists|i: int|
            0 <= i < collections@.len() && collections@[i].collection_id@ == id@),
{
    let mut i: usize = 0;
    while i < collections.len()
        invariant
            0 <= i <= collections@.len(),
            forall|k: int| 0 <= k < i ==> collections@[k].collection_id@ != id@,
        decreases collections@.len() - i,
    {
        if collections[i].collection_id.eq(id) {
            proof {
                assert(collections@[i as int].collection_id@ == id@);
            }
            return true;
        }
        i += 1;
    }
    false
}

/// The asset identifiers of a listing, in original order.
pub fn asset_names(list: &AssetList) -> (r: Vec<String>)
    ensures
        r@.len() == list.0@.len(),
        forall|i: int| 0 <= i < r@.len() ==> r@[i]@ == list.0@[i].asset@,
{
    let mut out: Vec<String> = Vec::new();
    let mut i: usize = 0;
    while i < list.0.len()
        invariant
            0 <= i <= list.0@.len(),
            out@.len() == i,
            forall|k: int| 0 <= k < i ==> out@[k]@ == list.0@[k].asset@,
        decreases list.0@.len() - i,
    {
        out.push(list.0[i].asset.clone());
        i += 1;
    }
    out
}

/// The typed client over both HTTP APIs: the chain API for collections,
/// listings and metadata, and the asset store for image bytes.
pub struct ApiClient {
    chain_key: String,
    asset_key: String,
    asset_url: String,
    chain_url: String,
    client: reqwest::blocking::Client,
}

/// Relies on rayon's parallel iterator: runs the per-asset resolution
/// across threads; `collect` on the indexed iterator yields one outcome
/// per listed asset. Nothing downstream depends on which outcome stands
/// in which slot. Every listed asset's resolution is awaited: in-flight
/// lookups are not abandoned once enough covers are found, a latency
/// simplification — the selection step still bounds and deduplicates the
/// result.
#[verifier::external_body]
fn resolve_all_parallel(client: &ApiClient, assets: &Vec<String>, res: Resolution) -> (r: Vec<
    Option<String>,
>)
    ensures
        r@.len() == assets@.len(),
{
    assets.par_iter().map(|asset| client.get_asset_cid(asset, res)).collect()
}

impl ApiClient {
    /// Whether this client carries exactly these credentials and base
    /// URLs: the chain key and chain URL for the registry calls, the asset
    /// key and asset URL for downloads.
    pub closed spec fn configured_with(
        &self,
        chain_key: Seq<char>,
        asset_key: Seq<char>,
        asset_url: Seq<char>,
        chain_url: Seq<char>,
    ) -> bool {
        &&& self.chain_key@ == chain_key
        &&& self.asset_key@ == asset_key
        &&& self.asset_url@ == asset_url
        &&& self.chain_url@ == chain_url
    }

    /// Builds the client from the two credentials and the two base URLs,
    /// storing each where its calls will use it; failure comes only from
    /// building the HTTP client, and carries that builder's error text.
    pub fn new(chain_key: String, asset_key: String, asset_url: String, chain_url: String) -> (r:
        Result<ApiClient, FetchError>)
        ensures
            match r {
                Ok(client) => client.configured_with(
                    chain_key@,
                    asset_key@,
                    asset_url@,
                    chain_url@,
                ),
                Err(error) => error is Transport,
            },
    {
        match build_http_client(USER_AGENT) {
            Ok(client) => Ok(ApiClient { chain_key, asset_key, asset_url, chain_url, client }),
            Err(text) => Err(FetchError::Transport(text)),
        }
    }

    /// Asks the canonical collection registry whether `id` names a known
    /// collection. A non-success status, a transport failure or a malformed
    /// body is a hard failure. Which boolean comes back is decided by the
    /// registry's reply, but never freely: on success the boolean is the
    /// membership of `id` in the collection list that some reply body
    /// decodes to.
    pub fn is_valid_collection(&self, id: &String) -> (r: Result<bool, FetchError>)
        ensures
            match r {
                Ok(valid) => exists|body: Seq<u8>|
                    #[trigger] collections_parsed(body) matches Some(ids) && valid
                        == ids.contains(id@),
                Err(_) => true,
            },
    {
        match http_get(&self.client, BOOKIO_COLLECTION_URL, None) {
            Err(text) => Err(FetchError::Transport(text)),
            Ok(reply) => {
                if !is_success_status(reply.status) {
                    return Err(FetchError::Status(reply.status_text));
                }
                match parse_collections(reply.body.as_slice()) {
                    None => Err(FetchError::MalformedResponse),
                    Some(resp) => {
                        let valid = contains_collection(&resp.data, id);
                        proof {
                            lemma_collection_ids_contains(resp, id@);
                            assert(collections_parsed(reply.body@) == Some(
                                spec_collection_ids(resp),
                            ));
                        }
                        Ok(valid)
                    },
                }
            },
        }
    }

    /// Fetches the metadata of one asset and resolves its CID: best-effort,
    /// absence on any failure, so one bad asset never aborts a batch.
    /// Which CID comes back is decided by the chain API's reply, but never
    /// freely: a present CID is the resolver's verdict on a metadata
    /// document that some reply body decodes to.
    fn get_asset_cid(&self, id: &String, res: Resolution) -> (r: Option<String>)
        ensures
            match r {
                Some(cid) => exists|body: Seq<u8>, metadata: AssetMetadataResp|
                    #![trigger asset_metadata_parsed(body), spec_metadata_view(metadata)]
                    asset_metadata_parsed(body) == Some(spec_metadata_view(metadata))
                        && spec_resolve_cid(metadata, res) == Some(cid@),
                None => true,
            },
    {
        let base = concat_strs(self.chain_url.as_str(), "/assets/");
        let url = concat_strs(base.as_str(), id.as_str());
        match http_get(
            &self.client,
            url.as_str(),
            Some(("project_id", self.chain_key.as_str())),
        ) {
            Err(_) => None,
            Ok(reply) => {
                if !is_success_status(reply.status) {
                    return None;
                }
                match parse_asset_metadata(reply.body.as_slice()) {
                    None => None,
                    Some(metadata) => {
                        let resolved = resolve_cid(&metadata, res);
                        proof {
                            assert(asset_metadata_parsed(reply.body@) == Some(
                                spec_metadata_view(metadata),
                            ));
                        }
                        resolved
                    },
                }
            },
        }
    }

    /// Downloads the blob named by `cid` from the asset store. On success
    /// the cover carries the path `{prefix}{cid}.png`.
    fn download_asset_cover(&self, cid: &String, prefix: &String) -> (r: Result<
        DownloadedCover,
        FetchError,
    >)
        ensures
            match r {
                Ok(cover) => cover.cid@ == cid@ && cover.path@ == prefix@ + cid@ + ".png"@,
                Err(_) => true,
            },
    {
        let base = concat_strs(self.asset_url.as_str(), "/");
        let url = concat_strs(base.as_str(), cid.as_str());
        match http_get(
            &self.client,
            url.as_str(),
            Some(("project_id", self.asset_key.as_str())),
        ) {
            Err(text) => Err(FetchError::Transport(text)),
            Ok(reply) => {
                if is_success_status(reply.status) {
                    let with_cid = concat_strs(prefix.as_str(), cid.as_str());
                    let path = concat_strs(with_cid.as_str(), ".png");
                    proof {
                        assert(path@ =~= prefix@ + cid@ + ".png"@);
                    }
                    Ok(DownloadedCover { cid: cid.clone(), path, bytes: reply.body })
                } else {
                    Err(FetchError::Status(reply.status_text))
                }
            },
        }
    }

    /// The fetch pipeline: lists the collection's assets, resolves their
    /// CIDs concurrently, drops the absent ones and those already
    /// downloaded, keeps at most `count`, and downloads the survivors. The
    /// first download failure aborts the whole call; a cover once accepted
    /// is never one of `existing_covers`, and never more than `count` come
    /// back. Covers travel back with their bytes and are persisted by the
    /// caller only after the whole batch succeeds, so a mid-batch failure
    /// deliberately leaves no partially persisted batch behind.
    pub fn get_assets_covers(
        &self,
        id: &String,
        existing_covers: &Vec<String>,
        count: u32,
        res: Resolution,
        prefix: &String,
    ) -> (r: Result<Vec<DownloadedCover>, FetchError>)
        ensures
            match r {
                Ok(covers) => {
                    &&& covers@.len() <= count
                    &&& forall|i: int|
                        0 <= i < covers@.len() ==> !existing_covers.deep_view().contains(
                            #[trigger] covers@[i].cid@,
                        )
                    &&& forall|i: int|
                        0 <= i < covers@.len() ==> #[trigger] covers@[i].path@ == prefix@
                            + covers@[i].cid@ + ".png"@
                },
                Err(_) => true,
            },
    {
        let base = concat_strs(self.chain_url.as_str(), "/assets/policy/");
        let url = concat_strs(base.as_str(), id.as_str());
        let reply = match http_get(
            &self.client,
            url.as_str(),
            Some(("project_id", self.chain_key.as_str())),
        ) {
            Ok(reply) => reply,
            Err(text) => {
                return Err(FetchError::Transport(text));
            },
        };
        if !is_success_status(reply.status) {
            return Err(FetchError::Status(reply.status_text));
        }
        let list = match parse_asset_list(reply.body.as_slice()) {
            Some(list) => list,
            None => {
                return Err(FetchError::MalformedResponse);
            },
        };
        let assets = asset_names(&list);
        let resolved = resolve_all_parallel(self, &assets, res);
        let selected = select_cids(&resolved, existing_covers, count as usize);
        let mut covers: Vec<DownloadedCover> = Vec::new();
        let mut i: usize = 0;
        while i < selected.len()
            invariant
                0 <= i <= selected@.len(),
                covers@.len() == i,
                selected@.len() <= count,
                forall|k: int|
                    0 <= k < selected@.len() ==> !existing_covers.deep_view().contains(
                        #[trigger] selected.deep_view()[k],
                    ),
                forall|k: int| 0 <= k < i ==> #[trigger] covers@[k].cid@ == selected.deep_view()[k],
                forall|k: int|
                    0 <= k < i ==> #[trigger] covers@[k].path@ == prefix@ + covers@[k].cid@
                        + ".png"@,
            decreases selected@.len() - i,
        {
            proof {
                assert(selected.deep_view()[i as int] == selected@[i as int]@);
            }
            match self.download_asset_cover(&selected[i], prefix) {
                Ok(cover) => {
                    covers.push(cover);
                },
                Err(error) => {
                    return Err(error);
                },
            }
            i += 1;
        }
        Ok(covers)
    }
}

} // verus!
