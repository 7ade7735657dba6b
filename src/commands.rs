//! The tool's commands and the decisions they make around an acquisition.

use vstd::prelude::*;
use vstd::string::*;
use crate::config::{opt_view, ColliderConfigOptions, ConfigOptionsModel};
use crate::electron::ElectronOpts;
use crate::version::{range_parses, range_text_supported, VersionError, VersionRange};

verus! {

/// Why `start` stopped.
#[derive(Debug)]
pub enum StartError {
    IoError(String),
    SemverError(VersionError),
    ElectronFailed,
}

/// Run an application with a matching Electron build.
#[derive(Debug)]
pub struct StartCmd {
    pub path: String,
    pub force: bool,
    pub using: String,
    pub github_token: Option<String>,
    pub interactive: bool,
    pub electron_version: bool,
    pub abi: bool,
    pub include_prerelease: bool,
    pub trace_warnings: bool,
    pub quiet: bool,
    pub json: bool,
}

/// The arguments that `start` passes to the Electron executable.
pub open spec fn start_args(c: &StartCmd) -> Seq<Seq<char>> {
    if c.abi {
        seq!["--abi"@]
    } else if c.electron_version {
        seq!["--version"@]
    } else {
        (if c.trace_warnings { seq!["--trace-warnings"@] } else { Seq::empty() })
            + (if c.interactive { seq!["--interactive"@] } else { Seq::empty() })
            + seq![c.path@]
    }
}

impl StartCmd {
    /// The acquisition that `start` asks for: the range in `using`, and the
    /// command's force, prerelease and token settings.
    pub fn electron_opts(&self) -> (r: Result<ElectronOpts, StartError>)
        ensures
            r is Ok <==> range_text_supported(self.using@) && range_parses(self.using@),
            r matches Ok(o) ==> {
                &&& !o@.range.any && o@.range.expr == self.using@
                &&& o@.force == self.force
                &&& o@.include_prerelease == self.include_prerelease
                &&& o@.github_token == opt_view(self.github_token)
            },
            r matches Err(e) ==> e matches StartError::SemverError(VersionError::InvalidRange { input })
                && input@ == self.using@,
    {
        let range = match VersionRange::parse(self.using.as_str()) {
            Ok(r) => r,
            Err(e) => return Err(StartError::SemverError(e)),
        };
        let opts = ElectronOpts::new().range(range).force(self.force).include_prerelease(self.include_prerelease);
        match &self.github_token {
            Some(t) => Ok(opts.github_token(t.clone())),
            None => Ok(opts),
        }
    }

    /// The arguments for the Electron executable: only `--abi` or only
    /// `--version` when those are asked for, else the optional flags and then
    /// the application's path.
    pub fn launch_args(&self) -> (r: Vec<String>)
        ensures
            r@.map_values(|a: String| a@) == start_args(self),
    {
        proof {
            reveal_strlit("--abi"); reveal_strlit("--version");
            reveal_strlit("--trace-warnings"); reveal_strlit("--interactive");
        }
        let mut out: Vec<String> = Vec::new();
        if self.abi {
            out.push(String::from_str("--abi"));
        } else if self.electron_version {
            out.push(String::from_str("--version"));
        } else {
            if self.trace_warnings {
                out.push(String::from_str("--trace-warnings"));
            }
            if self.interactive {
                out.push(String::from_str("--interactive"));
            }
            out.push(self.path.clone());
        }
        assert(out@.map_values(|a: String| a@) =~= start_args(self));
        out
    }

    /// Whether a greeting is printed before the application starts.
    pub fn announces_start(&self) -> (r: bool)
        ensures
            r == (!self.quiet && !self.json),
    {
        !self.quiet && !self.json
    }

    /// The result of `start` for the exit status of the Electron process.
    pub fn exit_result(success: bool) -> (r: Result<(), StartError>)
        ensures
            r is Ok <==> success,
            r matches Err(e) ==> e is ElectronFailed,
    {
        if success { Ok(()) } else { Err(StartError::ElectronFailed) }
    }
}

/// Scaffold a new Electron application in a directory.
#[derive(Debug)]
pub struct NewCmd {
    pub path: String,
    pub quiet: bool,
    pub json: bool,
}

/// Pack an application for release.
#[derive(Debug)]
pub struct PackCmd {
    pub path: String,
    pub output: String,
    pub asar: Option<String>,
    pub force: bool,
    pub include_prerelease: bool,
    pub github_token: Option<String>,
    pub quiet: bool,
    pub json: bool,
}

impl PackCmd {
    /// The acquisition that `pack` asks for: any version, with the command's
    /// force, prerelease and token settings.
    pub fn electron_opts(&self) -> (r: ElectronOpts)
        ensures
            r@.range == crate::electron::any_range(),
            r@.force == self.force,
            r@.include_prerelease == self.include_prerelease,
            r@.github_token == opt_view(self.github_token),
    {
        let opts = ElectronOpts::new().force(self.force).include_prerelease(self.include_prerelease);
        match &self.github_token {
            Some(t) => opts.github_token(t.clone()),
            None => opts,
        }
    }
}

/// The tool's subcommands.
#[derive(Debug)]
pub enum ColliderCmd {
    Bisect(crate::bisect::BisectCmd),
    New(NewCmd),
    Pack(PackCmd),
    Start(StartCmd),
}

impl ColliderCmd {
    /// The subcommand's name on the command line.
    pub fn name(&self) -> (r: &'static str)
        ensures
            r@ == match self {
                ColliderCmd::Bisect(_) => "bisect"@,
                ColliderCmd::New(_) => "new"@,
                ColliderCmd::Pack(_) => "pack"@,
                ColliderCmd::Start(_) => "start"@,
            },
    {
        proof { reveal_strlit("bisect"); reveal_strlit("new"); reveal_strlit("pack"); reveal_strlit("start"); }
        match self {
            ColliderCmd::Bisect(_) => "bisect",
            ColliderCmd::New(_) => "new",
            ColliderCmd::Pack(_) => "pack",
            ColliderCmd::Start(_) => "start",
        }
    }
}

/// The tool's global options and its subcommand.
#[derive(Debug)]
pub struct Collider {
    pub root: Option<String>,
    pub config: Option<String>,
    pub verbosity: String,
    pub quiet: bool,
    pub json: bool,
    pub subcommand: ColliderCmd,
}

impl Collider {
    /// What configuration to load: only the file given with `--config` when
    /// there is one; otherwise the per-user file `default_global` (if the
    /// platform has a place for it), the environment and the package root.
    pub fn config_options(&self, default_global: Option<String>) -> (r: ColliderConfigOptions)
        ensures
            self.config is Some ==> r@ == (ConfigOptionsModel {
                global: true, env: true, pkg_root: None, global_config_file: opt_view(self.config) }),
            self.config is None ==> r@ == (ConfigOptionsModel {
                global: true, env: true, pkg_root: opt_view(self.root), global_config_file: opt_view(default_global) }),
    {
        match &self.config {
            Some(file) => ColliderConfigOptions::new().global_config_file(Some(file.clone())),
            None => ColliderConfigOptions::new().global_config_file(default_global).pkg_root(self.root.clone()),
        }
    }
}

} // verus!
