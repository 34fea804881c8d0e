//! The application: which operation a command line starts, and with what.

use vstd::prelude::*;
use crate::cli::{selected_operation, Args, Operation};
use crate::config::{default_config, missing_dependencies, Config, ConfigView};
use crate::crypto::{CryptoManager, CryptoManagerView};
use crate::editor::{decrypt_file_plan, EditorManager};
use crate::lifecycle::{edit_start, Action, EditError, EditSession, EditorChoice};
use crate::process::{Invocation, InvocationView, ProcessReply};
use crate::rekey::{rekey_start, RekeyAction, RekeySession};
use crate::text::texts;

verus! {

/// Ties the settings to the operations.
pub struct AgenixApp {
    config: Config,
}

impl View for AgenixApp {
    type V = ConfigView;

    closed spec fn view(&self) -> ConfigView {
        self.config@
    }
}

/// The identities a command line names: the one given, or none.
pub open spec fn named_identities(identity: Option<Seq<char>>) -> Seq<Seq<char>> {
    match identity {
        Some(path) => seq![path],
        None => Seq::empty(),
    }
}

impl Default for AgenixApp {
    fn default() -> (app: AgenixApp)
        ensures
            app@ == default_config(),
    {
        AgenixApp { config: Config::new() }
    }
}

impl AgenixApp {
    /// An application with the default settings.
    pub fn new() -> (app: AgenixApp)
        ensures
            app@ == default_config(),
    {
        AgenixApp { config: Config::new() }
    }

    /// An application with the given settings.
    pub fn with_config(config: Config) -> (app: AgenixApp)
        ensures
            app@ == config@,
    {
        AgenixApp { config }
    }

    /// The settings of this application.
    pub fn config(&self) -> (config: &Config)
        ensures
            config@ == self@,
    {
        &self.config
    }

    /// Decides what a command line starts, given which of the two programs
    /// answered their version probe. Nothing starts unless both answered:
    /// the error then lists the missing ones. Otherwise the operation is
    /// rekeying where it is asked for, else decrypting, else editing, and
    /// help where none is.
    pub fn run(&self, args: &Args, age_answered: bool, nix_answered: bool) -> (decision: Result<
        Operation,
        Vec<String>,
    >)
        ensures
            decision is Ok <==> age_answered && nix_answered,
            decision matches Ok(operation) ==> operation@ == selected_operation(
                args.rekey,
                match args.decrypt {
                    Some(file) => Some(file@),
                    None => None,
                },
                match args.edit {
                    Some(file) => Some(file@),
                    None => None,
                },
            ),
            decision matches Err(missing) ==> texts(missing@) == missing_dependencies(
                self@,
                age_answered,
                nix_answered,
            ),
    {
        match self.config.validate_dependencies(age_answered, nix_answered) {
            Err(missing) => Err(missing),
            Ok(_) => Ok(args.operation()),
        }
    }

    /// The crypto manager for a command line: it holds the identity the
    /// operator named, and no other.
    pub fn crypto_manager(&self, args: &Args) -> (manager: CryptoManager)
        ensures
            manager@ == (CryptoManagerView {
                config: self@,
                identities: named_identities(
                    match args.identity {
                        Some(path) => Some(path@),
                        None => None,
                    },
                ),
            }),
    {
        let mut manager = CryptoManager::new(self.config.clone());
        match &args.identity {
            Some(path) => {
                manager.add_identity(path.as_str());
            },
            None => {},
        }
        manager
    }

    /// Begins a rekeying pass.
    pub fn handle_rekey(
        &self,
        editor_manager: &EditorManager,
        crypto_manager: &CryptoManager,
        defaults: &Vec<String>,
    ) -> (begun: (RekeySession, RekeyAction))
        ensures
            (begun.0@, begun.1@) == rekey_start(
                editor_manager@,
                crypto_manager@,
                texts(defaults@),
            ),
    {
        editor_manager.rekey_all_files(crypto_manager, defaults)
    }

    /// Plans the decryption of `file` to standard output.
    pub fn handle_decrypt(
        &self,
        file: &str,
        editor_manager: &EditorManager,
        crypto_manager: &CryptoManager,
        keys: &ProcessReply,
        file_exists: bool,
        defaults: &Vec<String>,
    ) -> (plan: Result<Invocation, EditError>)
        ensures
            match plan {
                Ok(call) => decrypt_file_plan(
                    crypto_manager@,
                    file@,
                    None,
                    keys@,
                    file_exists,
                    texts(defaults@),
                ) == Ok::<InvocationView, EditError>(call@),
                Err(e) => decrypt_file_plan(
                    crypto_manager@,
                    file@,
                    None,
                    keys@,
                    file_exists,
                    texts(defaults@),
                ) == Err::<InvocationView, EditError>(e),
            },
    {
        editor_manager.decrypt_file(file, None, crypto_manager, keys, file_exists, defaults)
    }

    /// Begins the edit of `file`.
    pub fn handle_edit(
        &self,
        file: &str,
        editor_manager: &EditorManager,
        crypto_manager: &CryptoManager,
        defaults: &Vec<String>,
        editor: EditorChoice,
    ) -> (begun: (EditSession, Action))
        ensures
            (begun.0@, begun.1@) == edit_start(
                file@,
                editor_manager@,
                crypto_manager@,
                texts(defaults@),
                editor@,
            ),
    {
        editor_manager.edit_file(file, crypto_manager, defaults, editor)
    }
}

} // verus!
