//! The `config` command's arguments: checking the configuration file,
//! optionally requiring one profile to exist. The command's file reading
//! and printing live with the caller; the checking itself is
//! [`crate::config::validate_config`].

use vstd::prelude::*;

verus! {

/// Arguments of the `config` command.
#[derive(Debug)]
pub struct ConfigArgs {
    pub command: ConfigSubcommand,
}

/// The `config` command's subcommands.
#[derive(Debug)]
pub enum ConfigSubcommand {
    /// Validate the configuration file, and the named profile if one is
    /// given.
    Check { profile: Option<String> },
}

} // verus!
