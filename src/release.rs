//! Releases of the language server and the choice of the asset to download.
use vstd::prelude::*;
use crate::error::ResolveError;
use crate::platform::{asset_name, asset_name_spec, PlatformKey};

verus! {

/// One downloadable file of a release.
#[derive(Clone, Debug)]
pub struct ReleaseAsset {
    pub name: String,
    pub download_url: String,
}

/// A published release: its version and its assets, in the feed's order.
#[derive(Clone, Debug)]
pub struct Release {
    pub version: String,
    pub assets: Vec<ReleaseAsset>,
}

/// `i` is the first position in `assets` whose asset is called `name`.
pub open spec fn is_first_match(assets: Seq<ReleaseAsset>, name: Seq<char>, i: int) -> bool {
    &&& 0 <= i < assets.len()
    &&& assets[i].name@ == name
    &&& forall|j: int| 0 <= j < i ==> assets[j].name@ != name
}

/// Some asset in `assets` is called `name`.
pub open spec fn has_match(assets: Seq<ReleaseAsset>, name: Seq<char>) -> bool {
    exists|i: int| 0 <= i < assets.len() && assets[i].name@ == name
}

/// The position of the first asset called `name`, if any.
pub fn find_asset(assets: &Vec<ReleaseAsset>, name: &String) -> (r: Option<usize>)
    ensures
        match r {
            Some(i) => is_first_match(assets@, name@, i as int),
            None => !has_match(assets@, name@),
        },
{
    let mut i: usize = 0;
    while i < assets.len()
        invariant
            0 <= i <= assets@.len(),
            forall|j: int| 0 <= j < i ==> assets@[j].name@ != name@,
        decreases assets@.len() - i,
    {
        if assets[i].name == *name {
            return Some(i);
        }
        i = i + 1;
    }
    None
}

/// The asset of `release` that holds `tool` for `key`: the first one whose name
/// is exactly `<tool>-<arch>-<os>.<extension>`, or `AssetNotFound` with that name.
pub fn select_asset(release: &Release, tool: &str, key: PlatformKey) -> (r: Result<
    ReleaseAsset,
    ResolveError,
>)
    ensures
        match r {
            Ok(a) => exists|i: int|
                is_first_match(release.assets@, asset_name_spec(tool@, key), i) && a
                    == release.assets@[i],
            Err(e) => !has_match(release.assets@, asset_name_spec(tool@, key)) && (
            match e {
                ResolveError::AssetNotFound { expected_name } => expected_name@ == asset_name_spec(
                    tool@,
                    key,
                ),
                _ => false,
            }),
        },
{
    let expected = asset_name(tool, key);
    match find_asset(&release.assets, &expected) {
        Some(i) => {
            let a = &release.assets[i];
            Ok(ReleaseAsset { name: a.name.clone(), download_url: a.download_url.clone() })
        },
        None => Err(ResolveError::AssetNotFound { expected_name: expected }),
    }
}

} // verus!
