use odin::cache::BinaryCache;
use odin::error::ResolveError;
use odin::install::{binary_path, stale_entries, version_dir};
use odin::platform::{
    arch_token, archive_extension, asset_name, binary_name, inherits_shell_env, os_token,
    Architecture, Os, PlatformKey,
};
use odin::release::{find_asset, select_asset, Release, ReleaseAsset};

const OSES: [Os; 3] = [Os::Mac, Os::Linux, Os::Windows];
const ARCHES: [Architecture; 3] = [Architecture::Aarch64, Architecture::X86, Architecture::X8664];

fn asset(name: &str, url: &str) -> ReleaseAsset {
    ReleaseAsset { name: name.to_string(), download_url: url.to_string() }
}

#[test]
fn tokens_of_each_platform() {
    assert_eq!(arch_token(Architecture::Aarch64), "arm64");
    assert_eq!(arch_token(Architecture::X86), "x86");
    assert_eq!(arch_token(Architecture::X8664), "x86_64");
    assert_eq!(os_token(Os::Mac), "darwin");
    assert_eq!(os_token(Os::Linux), "unknown-linux-gnu");
    assert_eq!(os_token(Os::Windows), "pc-windows-msvc");
    for os in OSES {
        assert_eq!(archive_extension(os), "zip");
    }
}

#[test]
fn shell_environment_only_on_unix_like() {
    assert!(inherits_shell_env(Os::Mac));
    assert!(inherits_shell_env(Os::Linux));
    assert!(!inherits_shell_env(Os::Windows));
}

#[test]
fn asset_and_binary_names() {
    let mac_arm = PlatformKey { os: Os::Mac, arch: Architecture::Aarch64 };
    assert_eq!(asset_name("ols", mac_arm), "ols-arm64-darwin.zip");
    assert_eq!(binary_name("ols", mac_arm), "ols-arm64-darwin");
    let win = PlatformKey { os: Os::Windows, arch: Architecture::X8664 };
    assert_eq!(asset_name("ols", win), "ols-x86_64-pc-windows-msvc.zip");
    let linux = PlatformKey { os: Os::Linux, arch: Architecture::X86 };
    assert_eq!(binary_name("ols", linux), "ols-x86-unknown-linux-gnu");
}

#[test]
fn every_platform_has_its_own_names() {
    let mut names: Vec<String> = Vec::new();
    let mut pairs: Vec<(&str, &str)> = Vec::new();
    for os in OSES {
        for arch in ARCHES {
            assert!(!arch_token(arch).is_empty());
            assert!(!os_token(os).is_empty());
            pairs.push((arch_token(arch), os_token(os)));
            names.push(asset_name("ols", PlatformKey { os, arch }));
        }
    }
    for i in 0..names.len() {
        for j in 0..names.len() {
            if i != j {
                assert_ne!(names[i], names[j]);
                assert_ne!(pairs[i], pairs[j]);
            }
        }
    }
}

#[test]
fn locator_selects_the_platform_asset() {
    let release = Release {
        version: "1.0.0".to_string(),
        assets: vec![
            asset("tool-x86_64-darwin.zip", "url1"),
            asset("tool-arm64-darwin.zip", "url2"),
        ],
    };
    let key = PlatformKey { os: Os::Mac, arch: Architecture::Aarch64 };
    let chosen = select_asset(&release, "tool", key).unwrap();
    assert_eq!(chosen.download_url, "url2");
    assert_eq!(chosen.name, "tool-arm64-darwin.zip");
}

#[test]
fn locator_names_the_missing_asset() {
    let release = Release {
        version: "1.0.0".to_string(),
        assets: vec![
            asset("tool-x86_64-darwin.zip", "url1"),
            asset("tool-arm64-darwin.zip", "url2"),
        ],
    };
    let key = PlatformKey { os: Os::Mac, arch: Architecture::X86 };
    match select_asset(&release, "tool", key) {
        Err(ResolveError::AssetNotFound { expected_name }) => {
            assert_eq!(expected_name, "tool-x86-darwin.zip")
        }
        other => panic!("unexpected {:?}", other),
    }
}

#[test]
fn locator_takes_the_first_of_equal_names() {
    let assets = vec![
        asset("a.zip", "u0"),
        asset("ols-x86-darwin.zip", "u1"),
        asset("ols-x86-darwin.zip", "u2"),
    ];
    assert_eq!(find_asset(&assets, &"ols-x86-darwin.zip".to_string()), Some(1));
    assert_eq!(find_asset(&assets, &"b.zip".to_string()), None);
    assert_eq!(find_asset(&Vec::new(), &"a.zip".to_string()), None);
}

#[test]
fn version_directory_and_binary_path() {
    assert_eq!(version_dir("tool", "2.1.0"), "tool-2.1.0");
    let key = PlatformKey { os: Os::Linux, arch: Architecture::X8664 };
    assert_eq!(binary_path("ols", "dev-2024-05", key), "ols-dev-2024-05/ols-x86_64-unknown-linux-gnu");
}

#[test]
fn pruning_keeps_only_the_new_version() {
    let entries: Vec<String> =
        vec!["tool-1.0.0".to_string(), "tool-2.1.0".to_string(), "tool-0.9".to_string(), "x.zip".to_string()];
    let keep = version_dir("tool", "2.1.0");
    let stale = stale_entries(&entries, &keep);
    assert_eq!(stale, vec!["tool-1.0.0".to_string(), "tool-0.9".to_string(), "x.zip".to_string()]);
    let remaining: Vec<&String> = entries.iter().filter(|e| !stale.contains(e)).collect();
    assert_eq!(remaining, vec![&"tool-2.1.0".to_string()]);
}

#[test]
fn pruning_an_empty_listing() {
    assert!(stale_entries(&Vec::new(), &"ols-1".to_string()).is_empty());
    assert!(stale_entries(&vec!["ols-1".to_string()], &"ols-1".to_string()).is_empty());
}

#[test]
fn cache_recall_depends_on_the_file_check() {
    let mut cache = BinaryCache::new();
    assert_eq!(cache.candidate(), None);
    assert_eq!(cache.recall(true), None);
    cache.remember("/bin/ols".to_string());
    assert_eq!(cache.recall(true), Some("/bin/ols".to_string()));
    assert_eq!(cache.recall(false), None);
    assert_eq!(cache.candidate(), Some("/bin/ols".to_string()));
    cache.remember("/opt/ols".to_string());
    assert_eq!(cache.recall(true), Some("/opt/ols".to_string()));
}
