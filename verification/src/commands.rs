//! The decision-relevant part of the CLI surface: the flags of the `tv`
//! subcommand and how they override the configured retention settings, and
//! the `version` subcommand marker.

use vstd::prelude::*;

use crate::config::RetentionSettings;

verus! {

/// `tv` subcommand: run over the managed TV library, find the
/// fully-downloaded, entirely watched seasons, and delete them if they are
/// past the retention period.
#[derive(Clone, Copy, Debug, PartialEq, Eq, Structural, Default)]
pub struct TVCommand {
    /// Whether to actually delete files (otherwise: dry run).
    pub delete_files: bool,
    /// How long, in seconds, a fully-watched season is retained after
    /// airing. If unset, the configured duration stands.
    pub retain_for_secs: Option<u64>,
}

impl TVCommand {
    /// Applies the command-line override to the configured settings.
    pub fn override_config(&self, config: &RetentionSettings) -> (r: RetentionSettings)
        ensures
            r.retain_tag == config.retain_tag,
            r.retain_duration_secs == (match self.retain_for_secs {
                Some(d) => d,
                None => config.retain_duration_secs,
            }),
    {
        config.override_duration(self.retain_for_secs)
    }
}

/// `version` subcommand.
#[derive(Clone, Copy, Debug, PartialEq, Eq, Structural, Default)]
pub struct VersionCommand {}

} // verus!
