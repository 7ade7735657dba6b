//! Which configuration sources are read, and in what order.

use vstd::prelude::*;
use vstd::string::*;

verus! {

/// One layer of configuration. Later layers override earlier ones.
#[derive(Debug)]
pub enum ConfigSource {
    /// A file, read if it exists, its format known by its extension.
    File(String),
    /// Environment variables that start with this prefix.
    Environment(String),
}

pub enum ConfigSourceModel {
    File(Seq<char>),
    Environment(Seq<char>),
}

impl View for ConfigSource {
    type V = ConfigSourceModel;

    open spec fn view(&self) -> ConfigSourceModel {
        match self {
            ConfigSource::File(p) => ConfigSourceModel::File(p@),
            ConfigSource::Environment(p) => ConfigSourceModel::Environment(p@),
        }
    }
}

/// What configuration to load: the global file (when `global` is set and a
/// file is given), the environment (when `env` is set), and the files at a
/// package root (when one is given).
#[derive(Debug)]
pub struct ColliderConfigOptions {
    global: bool,
    env: bool,
    pkg_root: Option<String>,
    global_config_file: Option<String>,
}

pub struct ConfigOptionsModel {
    pub global: bool,
    pub env: bool,
    pub pkg_root: Option<Seq<char>>,
    pub global_config_file: Option<Seq<char>>,
}

pub open spec fn opt_view(o: Option<String>) -> Option<Seq<char>> {
    match o {
        Some(s) => Some(s@),
        None => None,
    }
}

impl View for ColliderConfigOptions {
    type V = ConfigOptionsModel;

    closed spec fn view(&self) -> ConfigOptionsModel {
        ConfigOptionsModel {
            global: self.global,
            env: self.env,
            pkg_root: opt_view(self.pkg_root),
            global_config_file: opt_view(self.global_config_file),
        }
    }
}

/// The prefix of the environment variables that configure the tool.
pub open spec fn env_prefix() -> Seq<char> {
    "collider_config"@
}

/// The configuration files looked for at a package root, in order.
pub open spec fn root_files(root: Seq<char>) -> Seq<ConfigSourceModel> {
    seq![
        ConfigSourceModel::File(root + "/colliderrc"@),
        ConfigSourceModel::File(root + "/.colliderrc"@),
        ConfigSourceModel::File(root + "/colliderrc.toml"@),
        ConfigSourceModel::File(root + "/.colliderrc.toml"@),
    ]
}

/// The layers that options load, in order.
pub open spec fn config_layers(o: ConfigOptionsModel) -> Seq<ConfigSourceModel> {
    (if o.global && o.global_config_file is Some {
        seq![ConfigSourceModel::File(o.global_config_file.unwrap())]
    } else {
        Seq::empty()
    }) + (if o.env {
        seq![ConfigSourceModel::Environment(env_prefix())]
    } else {
        Seq::empty()
    }) + (if o.pkg_root is Some {
        root_files(o.pkg_root.unwrap())
    } else {
        Seq::empty()
    })
}

impl ColliderConfigOptions {
    /// The global file and the environment, with no file and no root given.
    pub fn new() -> (r: ColliderConfigOptions)
        ensures
            r@ == (ConfigOptionsModel { global: true, env: true, pkg_root: None, global_config_file: None }),
    {
        ColliderConfigOptions { global: true, env: true, pkg_root: None, global_config_file: None }
    }

    pub fn global(self, global: bool) -> (r: ColliderConfigOptions)
        ensures
            r@ == (ConfigOptionsModel { global, ..self@ }),
    {
        ColliderConfigOptions { global, ..self }
    }

    pub fn env(self, env: bool) -> (r: ColliderConfigOptions)
        ensures
            r@ == (ConfigOptionsModel { env, ..self@ }),
    {
        ColliderConfigOptions { env, ..self }
    }

    pub fn pkg_root(self, root: Option<String>) -> (r: ColliderConfigOptions)
        ensures
            r@ == (ConfigOptionsModel { pkg_root: opt_view(root), ..self@ }),
    {
        ColliderConfigOptions { pkg_root: root, ..self }
    }

    pub fn global_config_file(self, file: Option<String>) -> (r: ColliderConfigOptions)
        ensures
            r@ == (ConfigOptionsModel { global_config_file: opt_view(file), ..self@ }),
    {
        ColliderConfigOptions { global_config_file: file, ..self }
    }

    /// The layers to load, in order: the global file, the environment, then
    /// the four files at the package root.
    pub fn layers(&self) -> (r: Vec<ConfigSource>)
        ensures
            r@.map_values(|s: ConfigSource| s@) == config_layers(self@),
    {
        let mut out: Vec<ConfigSource> = Vec::new();
        if self.global {
            if let Some(f) = &self.global_config_file {
                out.push(ConfigSource::File(f.clone()));
            }
        }
        proof { reveal_strlit("collider_config"); }
        if self.env {
            out.push(ConfigSource::Environment(String::from_str("collider_config")));
        }
        if let Some(root) = &self.pkg_root {
            proof {
                reveal_strlit("/colliderrc"); reveal_strlit("/.colliderrc");
                reveal_strlit("/colliderrc.toml"); reveal_strlit("/.colliderrc.toml");
            }
            out.push(ConfigSource::File(root.clone().concat("/colliderrc")));
            out.push(ConfigSource::File(root.clone().concat("/.colliderrc")));
            out.push(ConfigSource::File(root.clone().concat("/colliderrc.toml")));
            out.push(ConfigSource::File(root.clone().concat("/.colliderrc.toml")));
        }
        assert(out@.map_values(|s: ConfigSource| s@) =~= config_layers(self@));
        out
    }
}

} // verus!
