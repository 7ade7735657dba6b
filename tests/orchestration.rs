use electron_collider::acquire::{AcquirePhase, AcquireStep, Acquisition};
use electron_collider::cache::{CacheLayout, InstallStep};
use electron_collider::catalog::{Asset, Release, ReleaseLookup};
use electron_collider::electron::ElectronOpts;
use electron_collider::error::ElectronError;
use electron_collider::target::{Arch, Platform, TargetDescriptor};
use electron_collider::version::{Version, VersionRange};

fn v(text: &str) -> Version {
    Version::parse(text).unwrap()
}

fn layout() -> CacheLayout {
    CacheLayout { data_dir: "/data".to_string(), cache_dir: "/cache".to_string() }
}

fn linux_x64() -> TargetDescriptor {
    TargetDescriptor { platform: Platform::Linux, arch: Arch::X64 }
}

fn release(tag: &str, assets: &[&str]) -> Release {
    Release {
        tag_name: tag.to_string(),
        assets: assets
            .iter()
            .map(|a| Asset { name: a.to_string(), url: format!("https://example.invalid/{}", a) })
            .collect(),
    }
}

#[test]
fn ensure_fails_when_release_lacks_the_asset() {
    let opts = ElectronOpts::new().range(VersionRange::parse("^2.0.0").unwrap());
    let (mut acq, step) = Acquisition::start(opts, linux_x64(), layout(), None);
    assert!(matches!(step, AcquireStep::FetchPage(0)));
    let step = acq.on_page(vec!["v3.0.0".to_string(), "v2.5.0".to_string(), "v2.0.0".to_string()]);
    assert!(matches!(step, AcquireStep::LookupRelease(ref w) if w.render() == "2.5.0"));
    let step = acq.on_release(ReleaseLookup::Found(release("v2.5.0", &["electron-v2.5.0-win32-x64.zip"])));
    match step {
        AcquireStep::Failed(ElectronError::MissingElectronFiles { version, target }) => {
            assert_eq!(version.render(), "2.5.0");
            assert_eq!(target, "electron-v2.5.0-linux-x64.zip");
        }
        other => panic!("unexpected step {:?}", other),
    }
    assert_eq!(acq.current_phase(), AcquirePhase::Finished);
}

#[test]
fn ensure_uses_cached_installed_version_without_catalog() {
    let opts = ElectronOpts::new().range(VersionRange::parse("^13.0.0").unwrap());
    let (mut acq, step) = Acquisition::start(opts, linux_x64(), layout(), Some(v("13.1.0")));
    assert!(matches!(step, AcquireStep::Probe(ref p) if p == "/data/v13.1.0-linux-x64/electron"));
    match acq.on_probe(true) {
        AcquireStep::Done(e) => {
            assert_eq!(e.exe(), "/data/v13.1.0-linux-x64/electron");
            assert_eq!(e.version().render(), "13.1.0");
        }
        other => panic!("unexpected step {:?}", other),
    }
}

#[test]
fn ensure_downloads_on_miss_and_returns_installed_build() {
    let opts = ElectronOpts::new();
    let (mut acq, step) = Acquisition::start(opts, linux_x64(), layout(), None);
    assert!(matches!(step, AcquireStep::FetchPage(0)));
    acq.on_page(vec!["v2.5.0".to_string()]);
    let step = acq.on_release(ReleaseLookup::Found(release("v2.5.0", &["electron-v2.5.0-linux-x64.zip"])));
    assert!(matches!(step, AcquireStep::Probe(ref p) if p == "/data/v2.5.0-linux-x64/electron"));
    let mut step = acq.on_probe(false);
    let mut actions = 0;
    loop {
        match step {
            AcquireStep::Act(InstallStep::Download { ref url, .. }) => {
                assert_eq!(url, "https://example.invalid/electron-v2.5.0-linux-x64.zip");
            }
            AcquireStep::Act(_) => {}
            AcquireStep::Done(ref e) => {
                assert_eq!(e.exe(), "/data/v2.5.0-linux-x64/electron");
                assert_eq!(e.os(), "linux");
                break;
            }
            ref other => panic!("unexpected step {:?}", other),
        }
        actions += 1;
        step = acq.on_action(Ok(()));
    }
    assert_eq!(actions, 8);
}

#[test]
fn ensure_skips_install_on_cache_hit_unless_forced() {
    let (mut acq, _) = Acquisition::start(ElectronOpts::new(), linux_x64(), layout(), None);
    acq.on_page(vec!["v2.5.0".to_string()]);
    acq.on_release(ReleaseLookup::Found(release("v2.5.0", &["electron-v2.5.0-linux-x64.zip"])));
    assert!(matches!(acq.on_probe(true), AcquireStep::Done(_)));

    let (mut acq, _) = Acquisition::start(ElectronOpts::new().force(true), linux_x64(), layout(), None);
    acq.on_page(vec!["v2.5.0".to_string()]);
    acq.on_release(ReleaseLookup::Found(release("v2.5.0", &["electron-v2.5.0-linux-x64.zip"])));
    assert!(matches!(acq.on_probe(true), AcquireStep::Act(InstallStep::CreateDir(_))));
}

#[test]
fn forced_acquisition_skips_the_installed_cache_probe() {
    let opts = ElectronOpts::new().force(true);
    let (_, step) = Acquisition::start(opts, linux_x64(), layout(), Some(v("13.1.0")));
    assert!(matches!(step, AcquireStep::LookupRelease(ref w) if w.render() == "13.1.0"));
}

/// The window that the fault at byte `off` is shown with: the characters
/// within forty bytes on each side, and the fault's offset in that window.
fn expected_window(json: &str, off: usize) -> (String, usize) {
    let mut lo = off.saturating_sub(40);
    while !json.is_char_boundary(lo) {
        lo += 1;
    }
    let mut hi = std::cmp::min(off + 40, json.len());
    while !json.is_char_boundary(hi) {
        hi -= 1;
    }
    (json[lo..hi].to_string(), off - lo)
}

fn fault_of(json: &str) -> (usize, usize) {
    let err = serde_json::from_str::<serde_json::Value>(json).unwrap_err();
    (err.line(), err.column())
}

#[test]
fn json_fault_window() {
    let json = "{\n  \"name\": \"collider\",\n  \"version\": oops\n}";
    let (line, column) = fault_of(json);
    assert_eq!(line, 3);
    let line_start = json.match_indices('\n').nth(1).unwrap().0 + 1;
    let off = line_start + column - 1;
    assert_eq!(&json[off..off + 1], "o");
    match ElectronError::from_json_err(line, column, "package.json".to_string(), json) {
        ElectronError::BadJson { url, snippet, err_loc } => {
            assert_eq!(url, "package.json");
            assert_eq!((snippet, err_loc), expected_window(json, off));
        }
        other => panic!("unexpected error {:?}", other),
    }
}

#[test]
fn json_fault_offsets_count_bytes() {
    let json = format!("{{\"name\": \"{}\", \"version\": oops}}", "é".repeat(50));
    let (line, column) = fault_of(&json);
    assert_eq!(line, 1);
    let off = column - 1;
    assert_eq!(&json[off..off + 1], "o");
    match ElectronError::from_json_err(line, column, "p".to_string(), &json) {
        ElectronError::BadJson { snippet, err_loc, .. } => {
            let (want, want_loc) = expected_window(&json, off);
            assert_eq!(snippet, want);
            assert_eq!(err_loc, want_loc);
            assert!(snippet[err_loc..].starts_with("oops"));
            assert!(snippet.len() <= 80);
        }
        other => panic!("unexpected error {:?}", other),
    }
}

#[test]
fn json_fault_window_edges() {
    match ElectronError::from_json_err(1, 1, "p".to_string(), "x") {
        ElectronError::BadJson { snippet, err_loc, .. } => {
            assert_eq!(snippet, "x");
            assert_eq!(err_loc, 0);
        }
        other => panic!("unexpected error {:?}", other),
    }
    match ElectronError::from_json_err(9, 9, "p".to_string(), "ab") {
        ElectronError::BadJson { snippet, err_loc, .. } => {
            assert_eq!(snippet, "ab");
            assert_eq!(err_loc, 2);
        }
        other => panic!("unexpected error {:?}", other),
    }
}
