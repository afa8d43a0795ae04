//! The loader: binds a file path (explicit or resolved from an
//! environment-supplied value), and turns the outcome of reading that file
//! into the typed, defaulted configuration or a descriptive error.
//!
//! Reading the file and looking up the environment are the caller's I/O; the
//! loader takes their outcomes as plain values. Past that, the result is
//! pinned to the text: the tree YAML parsing gives for the text is named,
//! and loading that tree is specified exactly in [`crate::document`].

use vstd::prelude::*;

use crate::document::{load_tree, spec_load_tree};
use crate::model::{Config, config_defaulted, lemma_set_defaults_defaulted, spec_config_from_raw};
use crate::yaml::{yaml_tree_of, yaml_wellformed};
use crate::{document, yaml};

verus! {

/// Why a load failed: the file could not be read, or its contents do not
/// form a configuration. Either way the path attempted and a message are
/// kept, so the caller can report the failure without further context.
#[derive(Clone, Debug, PartialEq)]
pub enum ConfigError {
    Io { path: String, message: String },
    Schema { path: String, message: String },
}

/// The loader's own configuration: the file path it is bound to.
#[derive(Clone, Debug, PartialEq)]
pub struct ConfigClientConfig {
    pub config_path: String,
}

impl ConfigClientConfig {
    /// Binds the given path. Infallible today; the `Result` is the seam
    /// where future path validation would reject.
    pub fn new(config_path: String) -> (r: Result<ConfigClientConfig, ConfigError>)
        ensures
            (r matches Ok(c) && c.config_path@ == config_path@),
    {
        Ok(ConfigClientConfig { config_path })
    }

    /// Resolves the path from the `CONFIG_PATH` environment value the caller
    /// looked up, falling back to `/configs/config.yaml` when it was unset.
    pub fn from_env(config_path_from_env: Option<String>) -> (r: Result<
        ConfigClientConfig,
        ConfigError,
    >)
        ensures
            (r matches Ok(c) && (match config_path_from_env {
                Some(p) => c.config_path@ == p@,
                None => c.config_path@ == "/configs/config.yaml"@,
            })),
    {
        match config_path_from_env {
            Some(p) => Self::new(p),
            None => Self::new("/configs/config.yaml".to_owned()),
        }
    }
}

/// The loader itself.
pub struct ConfigClient {
    pub config: ConfigClientConfig,
}

/// What the loader returns for text it was given: text YAML refuses is a
/// schema error; otherwise the text's tree decides — the loaded
/// configuration, or a schema error with the message [`spec_load_tree`]
/// gives. The error's path is always the bound one.
pub open spec fn parse_outcome_matches(
    r: Result<Config, ConfigError>,
    text: Seq<char>,
    path: Seq<char>,
) -> bool {
    &&& (!yaml_wellformed(text) ==> (r matches Err(e)
        && e matches ConfigError::Schema { path: p, message: _ } && p@ == path))
    &&& (yaml_wellformed(text) ==> (match spec_load_tree(yaml_tree_of(text)) {
        Ok(cm) => (r matches Ok(c) && c@ == cm),
        Err(m) => (r matches Err(e) && e matches ConfigError::Schema { path: p, message }
            && p@ == path && message@ == m),
    }))
}

impl ConfigClient {
    pub fn new(config: ConfigClientConfig) -> (r: ConfigClient)
        ensures
            r.config == config,
    {
        ConfigClient { config }
    }

    /// Turns the text of the configuration file into the typed, defaulted
    /// configuration: parse, extract, map onto the schema, fill defaults.
    pub fn parse_config(&self, contents: &str) -> (r: Result<Config, ConfigError>)
        ensures
            parse_outcome_matches(r, contents@, self.config.config_path@),
            (r matches Ok(c) ==> config_defaulted(c@)),
    {
        let tree = match yaml::parse_document(contents) {
            Ok(t) => t,
            Err(e) => {
                return Err(
                    ConfigError::Schema {
                        path: self.config.config_path.clone(),
                        message: yaml::error_message(&e),
                    },
                );
            },
        };
        match load_tree(&tree) {
            Ok(c) => {
                proof {
                    match document::spec_extract_config(tree@) {
                        Ok(raw) => {
                            match spec_config_from_raw(raw) {
                                Ok(cm) => {
                                    lemma_set_defaults_defaulted(cm);
                                },
                                Err(_) => {},
                            }
                        },
                        Err(_) => {},
                    }
                }
                Ok(c)
            },
            Err(message) => Err(
                ConfigError::Schema { path: self.config.config_path.clone(), message },
            ),
        }
    }

    /// The load pipeline, given the outcome of reading the bound file: a
    /// failed read is an I/O error carrying the read's own message, never
    /// anything else; text that was read decides the rest, exactly as
    /// [`parse_outcome_matches`] says; and a configuration that comes back
    /// is defaulted.
    pub fn read_config(&self, read_result: Result<String, String>) -> (r: Result<
        Config,
        ConfigError,
    >)
        ensures
            (read_result matches Err(m) ==> r matches Err(e)
                && e matches ConfigError::Io { path, message }
                && path@ == self.config.config_path@
                && message@ == m@),
            (read_result matches Ok(text) ==> parse_outcome_matches(
                r,
                text@,
                self.config.config_path@,
            )),
            (r matches Ok(c) ==> config_defaulted(c@)),
    {
        match read_result {
            Err(m) => Err(
                ConfigError::Io { path: self.config.config_path.clone(), message: m },
            ),
            Ok(text) => self.parse_config(text.as_str()),
        }
    }
}

} // verus!
