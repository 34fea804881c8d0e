//! Planning and decision logic for editing, decrypting and rekeying
//! age-encrypted secrets whose recipients are declared in a Nix rules file.
//!
//! Nothing in this crate touches the file system or starts a process. Each
//! operation is a small state machine: it hands its caller one action at a
//! time and is resumed with the action's outcome.
//!
//! - [`lifecycle`] is the edit of one secret: decrypt into a private
//!   workspace, edit, and encrypt again only where the plaintext changed.
//! - [`rekey`] sends every declared secret through that lifecycle, in order,
//!   and stops at the first failure.
//! - [`laws`] states and proves what holds of every run of the two.
//! - [`nix`] asks the rules file and reads its answers; [`crypto`] plans the
//!   calls to age and compares plaintexts.
//! - [`editor`], [`app`], [`cli`] and [`config`] start the operations from a
//!   command line and its settings.
//! - [`process`] and [`text`] hold the plain data and the path helpers that
//!   the others share.

pub mod app;
pub mod cli;
pub mod config;
pub mod crypto;
pub mod editor;
pub mod laws;
pub mod lifecycle;
pub mod nix;
pub mod process;
pub mod rekey;
pub mod text;

pub use app::AgenixApp;
pub use cli::Args;
pub use config::Config;

use vstd::prelude::*;
use crate::cli::{selected_operation, Operation};
use crate::config::{default_config, missing_dependencies, ConfigView};
use crate::text::texts;

verus! {

/// The settings that a command line runs with: the defaults, with the rules
/// file that the command line names.
pub open spec fn settings_of(rules: Seq<char>) -> ConfigView {
    ConfigView { rules_path: rules, ..default_config() }
}

/// Decides what a command line starts, with the default programs and the
/// rules file it names, given which of the two programs answered their
/// version probe. Nothing starts unless both answered: the error then lists
/// the missing ones.
pub fn run(args: &Args, age_answered: bool, nix_answered: bool) -> (decision: Result<
    Operation,
    Vec<String>,
>)
    ensures
        decision is Ok <==> age_answered && nix_answered,
        decision matches Ok(operation) ==> operation@ == selected_operation(
            args.rekey,
            match args.decrypt {
                Some(file) => Some(file@),
                None => None,
            },
            match args.edit {
                Some(file) => Some(file@),
                None => None,
            },
        ),
        decision matches Err(missing) ==> texts(missing@) == missing_dependencies(
            settings_of(args.rules@),
            age_answered,
            nix_answered,
        ),
{
    let config = Config::new().with_rules_path(args.rules.as_str());
    AgenixApp::with_config(config).run(args, age_answered, nix_answered)
}

} // verus!
