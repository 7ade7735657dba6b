use electron_collider::bisect::{bisect_candidates, BisectCmd, BisectError, Bisection};
use electron_collider::commands::{Collider, ColliderCmd, NewCmd, PackCmd, StartCmd, StartError};
use electron_collider::config::{ColliderConfigOptions, ConfigSource};
use electron_collider::version::Version;

fn v(text: &str) -> Version {
    Version::parse(text).unwrap()
}

/// Runs a bisection over `n` candidates where those at `boundary` and above fail.
fn run_bisection(n: usize, boundary: usize) -> (usize, usize, usize) {
    let mut b = Bisection::new(n);
    let mut tests = 0;
    while !b.is_converged() {
        let p = b.pivot();
        b.record(p < boundary);
        tests += 1;
    }
    let (lo, hi) = b.bounds();
    (lo, hi, tests)
}

#[test]
fn bisection_brackets_first_failing_version() {
    let candidates = ["1.0.0", "1.1.0", "1.2.0", "1.3.0"];
    let mut b = Bisection::new(candidates.len());
    while !b.is_converged() {
        let tested = candidates[b.pivot()];
        b.record(!(tested == "1.2.0" || tested == "1.3.0"));
    }
    let (lo, hi) = b.bounds();
    assert_eq!((candidates[lo], candidates[hi]), ("1.1.0", "1.2.0"));
}

#[test]
fn bisection_converges_logarithmically() {
    for n in 1..200usize {
        for boundary in 0..=n {
            let (lo, hi, tests) = run_bisection(n, boundary);
            assert!(hi - lo <= 1);
            assert!((0..lo).all(|i| i < boundary));
            assert!((hi + 1..n).all(|j| j >= boundary));
            assert!(tests == 1 || (1usize << (tests - 1)) < n - 1, "n={} boundary={} tests={}", n, boundary, tests);
            if 1 <= boundary && boundary < n {
                assert_eq!((lo, hi), (boundary - 1, boundary));
            }
        }
    }
}

#[test]
fn bisection_bound_holds_for_any_outcomes() {
    for n in 1..64usize {
        for pattern in 0..256u32 {
            let mut b = Bisection::new(n);
            let mut tests = 0;
            while !b.is_converged() {
                b.record((pattern >> (tests % 32)) & 1 == 1);
                tests += 1;
            }
            let (lo, hi) = b.bounds();
            assert!(hi - lo <= 1);
            assert!(tests == 1 || (1usize << (tests - 1)) < n - 1, "n={} pattern={} tests={}", n, pattern, tests);
        }
    }
}

#[test]
fn single_candidate_is_tested_once() {
    assert_eq!(run_bisection(1, 0), (0, 0, 1));
    assert_eq!(run_bisection(1, 1), (0, 0, 1));
}

fn bisect_cmd(start: &str, end: &str, interactive: bool) -> BisectCmd {
    BisectCmd { path: ".".to_string(), start: start.to_string(), end: end.to_string(), interactive }
}

#[test]
fn candidates_are_releases_in_window_oldest_first() {
    let all: Vec<Version> = ["3.0.0", "2.1.0-beta.1", "2.0.0", "1.5.0", "1.0.0"].iter().map(|t| v(t)).collect();
    let out = bisect_candidates(&all, &v("1.5.0"), &v("3.0.0"));
    let texts: Vec<String> = out.iter().map(|x| x.render()).collect();
    assert_eq!(texts, vec!["1.5.0", "2.0.0", "3.0.0"]);
}

#[test]
fn wildcard_bounds_take_oldest_and_newest() {
    let all: Vec<Version> = ["3.0.0", "2.0.0", "1.0.0"].iter().map(|t| v(t)).collect();
    let (s, e) = bisect_cmd("*", "*", false).window(&all).unwrap();
    assert_eq!((s.render(), e.render()), ("1.0.0".to_string(), "3.0.0".to_string()));
    let (s, e) = bisect_cmd("2.0.0", "*", false).window(&all).unwrap();
    assert_eq!((s.render(), e.render()), ("2.0.0".to_string(), "3.0.0".to_string()));
    assert!(matches!(bisect_cmd("two", "*", false).window(&all), Err(BisectError::SemverError(_))));
}

#[test]
fn interactive_answer_overrides_exit_status() {
    assert!(bisect_cmd("*", "*", true).test_passed(false, Some(true)));
    assert!(!bisect_cmd("*", "*", true).test_passed(true, Some(false)));
    assert!(!bisect_cmd("*", "*", false).test_passed(false, Some(true)));
    assert!(bisect_cmd("*", "*", false).test_passed(true, None));
}

#[test]
fn pivot_options_pin_the_version() {
    let opts = bisect_cmd("*", "*", false).pivot_options(&v("2.5.0")).unwrap();
    assert!(!opts.is_forced());
    assert!(opts.cache_fast_path(&Some(v("2.5.0"))));
    assert!(!opts.cache_fast_path(&Some(v("2.5.1"))));
}

fn start_cmd() -> StartCmd {
    StartCmd {
        path: "app".to_string(),
        force: false,
        using: "^13.0.0".to_string(),
        github_token: Some("example-token".to_string()),
        interactive: false,
        electron_version: false,
        abi: false,
        include_prerelease: false,
        trace_warnings: false,
        quiet: false,
        json: false,
    }
}

#[test]
fn start_arguments() {
    let mut c = start_cmd();
    assert_eq!(c.launch_args(), vec!["app"]);
    c.trace_warnings = true;
    c.interactive = true;
    assert_eq!(c.launch_args(), vec!["--trace-warnings", "--interactive", "app"]);
    c.electron_version = true;
    assert_eq!(c.launch_args(), vec!["--version"]);
    c.abi = true;
    assert_eq!(c.launch_args(), vec!["--abi"]);
}

#[test]
fn start_options_and_result() {
    let c = start_cmd();
    let opts = c.electron_opts().unwrap();
    assert_eq!(opts.token().map(|t| t.as_str()), Some("example-token"));
    let mut bad = start_cmd();
    bad.using = "not a range".to_string();
    assert!(matches!(bad.electron_opts(), Err(StartError::SemverError(_))));
    assert!(StartCmd::exit_result(true).is_ok());
    assert!(matches!(StartCmd::exit_result(false), Err(StartError::ElectronFailed)));
    assert!(c.announces_start());
}

fn files(layers: &[ConfigSource]) -> Vec<String> {
    layers
        .iter()
        .map(|l| match l {
            ConfigSource::File(p) => format!("file:{}", p),
            ConfigSource::Environment(p) => format!("env:{}", p),
        })
        .collect()
}

#[test]
fn config_layers_in_order() {
    let o = ColliderConfigOptions::new()
        .global_config_file(Some("/home/u/colliderrc.toml".to_string()))
        .pkg_root(Some("/proj".to_string()));
    assert_eq!(
        files(&o.layers()),
        vec![
            "file:/home/u/colliderrc.toml",
            "env:collider_config",
            "file:/proj/colliderrc",
            "file:/proj/.colliderrc",
            "file:/proj/colliderrc.toml",
            "file:/proj/.colliderrc.toml",
        ]
    );
    let o = ColliderConfigOptions::new().global(false).env(false);
    assert!(o.layers().is_empty());
}

#[test]
fn explicit_config_file_replaces_defaults() {
    let mut c = Collider {
        root: Some("/proj".to_string()),
        config: Some("/etc/c.toml".to_string()),
        verbosity: "warn".to_string(),
        quiet: false,
        json: false,
        subcommand: ColliderCmd::New(NewCmd { path: "x".to_string(), quiet: false, json: false }),
    };
    assert_eq!(files(&c.config_options(Some("/home/u/rc.toml".to_string())).layers()),
        vec!["file:/etc/c.toml", "env:collider_config"]);
    c.config = None;
    assert_eq!(files(&c.config_options(Some("/home/u/rc.toml".to_string())).layers()).len(), 6);
    assert_eq!(c.subcommand.name(), "new");
}

#[test]
fn pack_acquires_any_version() {
    let p = PackCmd {
        path: ".".to_string(),
        output: "collider-out".to_string(),
        asar: None,
        force: true,
        include_prerelease: false,
        github_token: None,
        quiet: false,
        json: false,
    };
    let opts = p.electron_opts();
    assert!(opts.is_forced());
    assert!(opts.token().is_none());
    assert!(opts.cache_fast_path(&Some(v("1.0.0"))) == false);
}
