//! Load-or-create: the decisions of loading a configuration file, apart from
//! the file system. The caller reads the file if it exists, and writes what
//! this decides to write.
use vstd::prelude::*;
use crate::codec::{config_of_text, config_tree, decode, materialize_defaults};
use crate::config::{Config, ConfigError, default_view};
use crate::json::pretty_text;

verus! {

/// The configuration to use, and the text to write to the file, if any.
pub struct LoadOutcome {
    pub config: Config,
    pub write: Option<String>,
}

/// Resolves a configuration from the file's text, `None` where there is no
/// file. A missing file always gives the defaults, and their text to be written
/// (after the directories above the file are created). An existing file is
/// only parsed: nothing is written, and a text that does not hold a
/// configuration is a `Parse` error.
pub fn resolve_config(existing: Option<&str>) -> (r: Result<LoadOutcome, ConfigError>)
    ensures
        match existing {
            None => match r {
                Ok(o) => o.config@ == default_view() && o.write is Some
                    && o.write->Some_0@ == pretty_text(config_tree(default_view())),
                Err(_) => false,
            },
            Some(text) => match config_of_text(text@) {
                Some(cv) => r is Ok && r->Ok_0.config@ == cv && r->Ok_0.write is None,
                None => r is Err && r->Err_0 == ConfigError::Parse,
            },
        },
{
    match existing {
        None => match materialize_defaults() {
            Ok((config, text)) => Ok(LoadOutcome { config, write: Some(text) }),
            Err(e) => Err(e),
        },
        Some(text) => match decode(text) {
            Ok(config) => Ok(LoadOutcome { config, write: None }),
            Err(e) => Err(e),
        },
    }
}

} // verus!
