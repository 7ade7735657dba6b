use electron_collider::cache::{asset_name, target_triple, CacheLayout, InstallStep, Installer};
use electron_collider::catalog::{classify_api_error, is_rate_limit_message, Asset, Release, ReleaseLookup};
use electron_collider::electron::{manifest_version, pick_electron_zip, Electron, ElectronOpts};
use electron_collider::error::ElectronError;
use electron_collider::resolver::{release_tag, version_of_tag, ResolvePhase, ResolveStep, Resolver};
use electron_collider::target::{Arch, Platform, TargetDescriptor};
use electron_collider::version::{Version, VersionError, VersionRange};

fn v(text: &str) -> Version {
    Version::parse(text).unwrap()
}

fn tags(list: &[&str]) -> Vec<String> {
    list.iter().map(|t| t.to_string()).collect()
}

fn release(tag: &str, assets: &[&str]) -> Release {
    Release {
        tag_name: tag.to_string(),
        assets: assets
            .iter()
            .map(|a| Asset { name: a.to_string(), url: format!("https://example.invalid/{}", a) })
            .collect(),
    }
}

fn linux_x64() -> TargetDescriptor {
    TargetDescriptor { platform: Platform::Linux, arch: Arch::X64 }
}

#[test]
fn caret_range_selects_first_satisfying_tag() {
    let range = VersionRange::parse("^2.0.0").unwrap();
    let (mut res, step) = Resolver::start(range, false, None);
    assert!(matches!(step, ResolveStep::FetchPage(0)));
    let step = res.on_page(tags(&["v3.0.0", "v2.5.0", "v2.0.0", "v1.9.0"]));
    match step {
        ResolveStep::LookupRelease(found) => assert_eq!(found.render(), "2.5.0"),
        other => panic!("unexpected step {:?}", other),
    }
    let step = res.on_release(ReleaseLookup::Found(release("v2.5.0", &[])));
    match step {
        ResolveStep::Resolved(found, rel) => {
            assert_eq!(found.render(), "2.5.0");
            assert_eq!(rel.tag_name, "v2.5.0");
        }
        other => panic!("unexpected step {:?}", other),
    }
    assert_eq!(res.phase(), ResolvePhase::Finished);
}

#[test]
fn missing_release_moves_to_next_satisfying_tag() {
    let range = VersionRange::parse("^2.0.0").unwrap();
    let (mut res, _) = Resolver::start(range, false, None);
    res.on_page(tags(&["v3.0.0", "v2.5.0", "v2.0.0", "v1.9.0"]));
    let step = res.on_release(ReleaseLookup::Failed { api_message: Some("Not Found".to_string()), description: "404".to_string() });
    match step {
        ResolveStep::LookupRelease(found) => assert_eq!(found.render(), "2.0.0"),
        other => panic!("unexpected step {:?}", other),
    }
}

#[test]
fn rate_limit_aborts_the_scan() {
    let range = VersionRange::parse("^2.0.0").unwrap();
    let (mut res, _) = Resolver::start(range, false, None);
    res.on_page(tags(&["v2.5.0", "v2.0.0"]));
    let step = res.on_release(ReleaseLookup::Failed {
        api_message: Some("API rate limit exceeded for 1.2.3.4.".to_string()),
        description: "403".to_string(),
    });
    assert!(matches!(step, ResolveStep::Failed(ElectronError::GitHubApiLimit(_))));
    assert_eq!(res.phase(), ResolvePhase::Finished);
}

#[test]
fn no_satisfying_tag_fails_with_the_range() {
    let range = VersionRange::parse("^5.0.0").unwrap();
    let (mut res, _) = Resolver::start(range, false, None);
    let step = res.on_page(tags(&["v3.0.0", "v2.5.0"]));
    assert!(matches!(step, ResolveStep::FetchPage(1)));
    let step = res.on_page(Vec::new());
    match step {
        ResolveStep::Failed(ElectronError::MatchingVersionNotFound(r)) => assert_eq!(r, "^5.0.0"),
        other => panic!("unexpected step {:?}", other),
    }
}

#[test]
fn prereleases_are_skipped_unless_asked_for() {
    let page = ["v3.0.0-beta.1", "v2.5.0"];
    let (mut res, _) = Resolver::start(VersionRange::any(), false, None);
    match res.on_page(tags(&page)) {
        ResolveStep::LookupRelease(found) => assert_eq!(found.render(), "2.5.0"),
        other => panic!("unexpected step {:?}", other),
    }
    let range = VersionRange::parse("^3.0.0-beta.0").unwrap();
    let (mut res, _) = Resolver::start(range, true, None);
    match res.on_page(tags(&page)) {
        ResolveStep::LookupRelease(found) => assert_eq!(found.render(), "3.0.0-beta.1"),
        other => panic!("unexpected step {:?}", other),
    }
}

#[test]
fn malformed_tag_is_a_hard_failure() {
    let (mut res, _) = Resolver::start(VersionRange::any(), false, None);
    match res.on_page(tags(&["nightly", "v2.0.0"])) {
        ResolveStep::Failed(ElectronError::SemverError(VersionError::Invalid { input })) => assert_eq!(input, "nightly"),
        other => panic!("unexpected step {:?}", other),
    }
}

#[test]
fn fast_path_asks_for_installed_version_without_paging() {
    let range = VersionRange::parse("^13.0.0").unwrap();
    let (mut res, step) = Resolver::start(range, false, Some(v("13.1.0")));
    match step {
        ResolveStep::LookupRelease(found) => assert_eq!(found.render(), "13.1.0"),
        other => panic!("unexpected step {:?}", other),
    }
    let step = res.on_release(ReleaseLookup::Found(release("v13.1.0", &[])));
    assert!(matches!(step, ResolveStep::Resolved(_, _)));
}

#[test]
fn fast_path_failure_falls_back_to_first_page() {
    let range = VersionRange::parse("^13.0.0").unwrap();
    let (mut res, _) = Resolver::start(range, false, Some(v("13.1.0")));
    let step = res.on_release(ReleaseLookup::Failed { api_message: None, description: "timeout".to_string() });
    assert!(matches!(step, ResolveStep::FetchPage(0)));
}

#[test]
fn installed_version_outside_range_goes_to_scan() {
    let range = VersionRange::parse("^14.0.0").unwrap();
    let (_, step) = Resolver::start(range, false, Some(v("13.1.0")));
    assert!(matches!(step, ResolveStep::FetchPage(0)));
}

#[test]
fn missing_asset_names_expected_file() {
    let rel = release("v2.5.0", &["electron-v2.5.0-darwin-x64.zip", "electron-v2.5.0-win32-x64.zip"]);
    match pick_electron_zip(&v("2.5.0"), &rel, linux_x64()) {
        Err(ElectronError::MissingElectronFiles { version, target }) => {
            assert_eq!(version.render(), "2.5.0");
            assert_eq!(target, "electron-v2.5.0-linux-x64.zip");
        }
        other => panic!("unexpected result {:?}", other),
    }
}

#[test]
fn present_asset_yields_its_url() {
    let rel = release("v2.5.0", &["electron-v2.5.0-darwin-x64.zip", "electron-v2.5.0-linux-x64.zip"]);
    let url = pick_electron_zip(&v("2.5.0"), &rel, linux_x64()).unwrap();
    assert_eq!(url, "https://example.invalid/electron-v2.5.0-linux-x64.zip");
}

#[test]
fn target_mapping_is_exact() {
    let t = TargetDescriptor::from_host("windows", "x86").unwrap();
    assert_eq!(t, TargetDescriptor { platform: Platform::Win32, arch: Arch::Ia32 });
    let t = TargetDescriptor::from_host("macos", "aarch64").unwrap();
    assert_eq!(t, TargetDescriptor { platform: Platform::Darwin, arch: Arch::Arm64 });
    let t = TargetDescriptor::from_host("linux", "x86_64").unwrap();
    assert_eq!(t, linux_x64());
}

#[test]
fn unsupported_host_is_an_error() {
    match TargetDescriptor::from_host("freebsd", "x86_64") {
        Err(ElectronError::UnsupportedPlatform(os)) => assert_eq!(os, "freebsd"),
        other => panic!("unexpected result {:?}", other),
    }
    match TargetDescriptor::from_host("linux", "riscv64") {
        Err(ElectronError::UnsupportedArch(a)) => assert_eq!(a, "riscv64"),
        other => panic!("unexpected result {:?}", other),
    }
}

#[test]
fn triple_and_asset_names() {
    let t = TargetDescriptor { platform: Platform::Darwin, arch: Arch::Arm64 };
    assert_eq!(target_triple(&v("13.1.0"), t), "v13.1.0-darwin-arm64");
    assert_eq!(asset_name(&v("14.0.0-beta.2"), t), "electron-v14.0.0-beta.2-darwin-arm64.zip");
    assert_eq!(release_tag(&v("13.1.0")), "v13.1.0");
}

fn layout() -> CacheLayout {
    CacheLayout { data_dir: "/data".to_string(), cache_dir: "/cache".to_string() }
}

#[test]
fn lookup_hits_only_when_executable_exists() {
    let l = layout();
    assert_eq!(l.lookup(&v("2.5.0"), linux_x64(), true), Some("/data/v2.5.0-linux-x64/electron".to_string()));
    assert_eq!(l.lookup(&v("2.5.0"), linux_x64(), false), None);
    assert!(CacheLayout::needs_install(false, false));
    assert!(!CacheLayout::needs_install(false, true));
    assert!(CacheLayout::needs_install(true, true));
}

#[test]
fn install_extracts_aside_then_renames_into_place() {
    let l = layout();
    let (mut ins, first) = Installer::new(&l, &v("2.5.0"), linux_x64(), "https://example.invalid/e.zip");
    let mut steps = vec![first];
    loop {
        match steps.last().unwrap() {
            InstallStep::Done(_) | InstallStep::Failed(_) => break,
            _ => steps.push(ins.on_done(Ok(()))),
        }
    }
    assert_eq!(steps.len(), 9);
    let mut fs: Vec<String> = Vec::new();
    for s in &steps {
        if let InstallStep::Extract { into, .. } = s {
            assert_eq!(into, "/data/.v2.5.0-linux-x64.partial");
            fs.push(into.clone());
        }
        if let InstallStep::Promote { from, to } = s {
            assert_eq!(from, "/data/.v2.5.0-linux-x64.partial");
            assert_eq!(to, "/data/v2.5.0-linux-x64");
            fs.retain(|p| p != from);
            fs.push(to.clone());
        }
    }
    assert!(matches!(&steps[3], InstallStep::Download { to, .. } if to == "/cache/electron-v2.5.0-linux-x64.zip"));
    assert!(matches!(&steps[8], InstallStep::Done(p) if p == "/data/v2.5.0-linux-x64/electron"));
    let exists = fs.contains(&l.entry_dir(&v("2.5.0"), linux_x64()));
    assert!(l.lookup(&v("2.5.0"), linux_x64(), exists).is_some());
}

#[test]
fn interrupted_extraction_leaves_a_miss() {
    let l = layout();
    let (mut ins, _) = Installer::new(&l, &v("2.5.0"), linux_x64(), "https://example.invalid/e.zip");
    let mut created: Vec<String> = Vec::new();
    let mut step = ins.on_done(Ok(()));
    for _ in 0..3 {
        if let InstallStep::CreateDir(p) = &step {
            created.push(p.clone());
        }
        step = ins.on_done(Ok(()));
    }
    match &step {
        InstallStep::Extract { into, .. } => created.push(into.clone()),
        other => panic!("unexpected step {:?}", other),
    }
    let end = ins.on_done(Err("corrupt archive".to_string()));
    assert!(matches!(end, InstallStep::Failed(ElectronError::ZipError(ref m)) if m == "corrupt archive"));
    let entry = l.entry_dir(&v("2.5.0"), linux_x64());
    assert!(!created.contains(&entry));
    assert_eq!(l.lookup(&v("2.5.0"), linux_x64(), created.contains(&entry)), None);
}

#[test]
fn failed_download_is_a_transfer_error() {
    let l = layout();
    let (mut ins, _) = Installer::new(&l, &v("2.5.0"), linux_x64(), "https://example.invalid/e.zip");
    ins.on_done(Ok(()));
    ins.on_done(Ok(()));
    ins.on_done(Ok(()));
    let end = ins.on_done(Err("reset".to_string()));
    assert!(matches!(end, InstallStep::Failed(ElectronError::HttpError(ref m)) if m == "reset"));
}

#[test]
fn failed_directory_creation_names_the_path() {
    let l = layout();
    let (mut ins, _) = Installer::new(&l, &v("2.5.0"), linux_x64(), "https://example.invalid/e.zip");
    let end = ins.on_done(Err("denied".to_string()));
    match end {
        InstallStep::Failed(ElectronError::IoError(what, why)) => {
            assert_eq!(what, "/data");
            assert_eq!(why, "denied");
        }
        other => panic!("unexpected step {:?}", other),
    }
}

#[test]
fn rate_limit_classification() {
    assert!(is_rate_limit_message("API rate limit exceeded for user"));
    assert!(!is_rate_limit_message("Not Found"));
    assert!(matches!(classify_api_error(Some("rate limit exceeded".to_string()), "x".to_string()),
        ElectronError::GitHubApiLimit(ref m) if m == "rate limit exceeded"));
    assert!(matches!(classify_api_error(Some("Bad credentials".to_string()), "401".to_string()),
        ElectronError::GitHubApiError(ref d) if d == "401"));
    assert!(matches!(classify_api_error(None, "timeout".to_string()),
        ElectronError::GitHubApiError(ref d) if d == "timeout"));
}

#[test]
fn tags_lose_their_prefix() {
    assert_eq!(version_of_tag("v13.1.0").unwrap().render(), "13.1.0");
    assert!(version_of_tag("").is_err());
    assert!(version_of_tag("vx").is_err());
}

#[test]
fn manifest_of_the_tool_gives_its_version() {
    let url = "/a/package.json".to_string();
    let good = "{\"name\": \"collider\", \"version\": \"13.1.0\"}";
    assert_eq!(manifest_version(url.clone(), good, "collider", "13.1.0", 1, 38).unwrap().unwrap().render(), "13.1.0");
    assert!(manifest_version(url.clone(), good, "other", "1.0.0", 1, 38).unwrap().is_none());
    let bad = "{\"name\": \"other\", \"version\": \"not a version\"}";
    let column = bad.find("not a version").unwrap() + "not a version".len() + 1;
    match manifest_version(url, bad, "other", "not a version", 1, column) {
        Err(ElectronError::BadJson { url, snippet, err_loc }) => {
            assert_eq!(url, "/a/package.json");
            let off = column - 1;
            let lo = off.saturating_sub(40);
            assert_eq!(snippet, &bad[lo..std::cmp::min(off + 40, bad.len())]);
            assert_eq!(err_loc, off - lo);
        }
        other => panic!("unexpected result {:?}", other),
    }
}

#[test]
fn cache_fast_path_needs_range_and_no_force() {
    let installed = Some(v("13.1.0"));
    let opts = ElectronOpts::new().range(VersionRange::parse("^13.0.0").unwrap());
    assert!(opts.cache_fast_path(&installed));
    let opts = ElectronOpts::new().range(VersionRange::parse("^13.0.0").unwrap()).force(true);
    assert!(!opts.cache_fast_path(&installed));
    let opts = ElectronOpts::new().range(VersionRange::parse("^12.0.0").unwrap());
    assert!(!opts.cache_fast_path(&installed));
    assert!(!ElectronOpts::new().cache_fast_path(&None));
    let beta = Some(v("14.0.0-beta.1"));
    let opts = ElectronOpts::new().range(VersionRange::parse("^14.0.0-beta.0").unwrap());
    assert!(!opts.cache_fast_path(&beta));
    let opts = ElectronOpts::new().range(VersionRange::parse("^14.0.0-beta.0").unwrap()).include_prerelease(true);
    assert!(opts.cache_fast_path(&beta));
}

#[test]
fn handle_reports_target_names() {
    let e = Electron::new("/data/x/electron".to_string(), v("2.5.0"), linux_x64());
    assert_eq!(e.exe(), "/data/x/electron");
    assert_eq!(e.version().render(), "2.5.0");
    assert_eq!(e.os(), "linux");
    assert_eq!(e.arch(), "x64");
    let copy = e.with_exe("/out/release/electron".to_string());
    assert_eq!(copy.exe(), "/out/release/electron");
    assert_eq!(copy.version().render(), "2.5.0");
    assert_eq!((copy.os(), copy.arch()), ("linux", "x64"));
}
