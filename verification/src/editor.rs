//! The operations on secrets: editing one, decrypting one, rekeying all.

use vstd::prelude::*;
use crate::cli::{default_editor, editor_for, editor_when};
use crate::config::{Config, ConfigView};
use crate::crypto::{decrypt_plan, CryptoManager, CryptoManagerView};
use crate::lifecycle::{
    crypto_error, crypto_failure, edit_start, Action, EditError, EditSession, EditorChoice,
};
use crate::nix::{get_public_keys, string_list_in};
use crate::process::{Invocation, InvocationView, ProcessReply, ProcessReplyView};
use crate::rekey::{rekey_start, RekeyAction, RekeySession};
use crate::text::texts;

verus! {

/// Starts the operations on secrets for one rules file.
#[derive(Debug)]
pub struct EditorManager {
    config: Config,
}

impl View for EditorManager {
    type V = ConfigView;

    closed spec fn view(&self) -> ConfigView {
        self.config@
    }
}

/// The editor command to use: the one the operator named, or else the one
/// that fits the kind of standard input.
pub open spec fn editor_resolved(named: Option<Seq<char>>, interactive: bool) -> Seq<char> {
    match named {
        Some(command) => command,
        None => editor_when(interactive),
    }
}

/// Whether a file with these declared recipients may be decrypted, and with
/// which call: there must be a recipient, the file must exist, and there
/// must be an identity.
pub open spec fn declared_decrypt_plan(
    manager: CryptoManagerView,
    file: Seq<char>,
    output: Option<Seq<char>>,
    recipients: Seq<Seq<char>>,
    file_exists: bool,
    defaults: Seq<Seq<char>>,
) -> Result<InvocationView, EditError> {
    if recipients.len() == 0 {
        Err(EditError::NoRuleForTarget)
    } else {
        match decrypt_plan(manager, file, output, file_exists, defaults) {
            Ok(call) => Ok(call),
            Err(e) => Err(crypto_failure(e)),
        }
    }
}

/// Whether a file may be decrypted, and with which call, given the answer to
/// the question for its recipients.
pub open spec fn decrypt_file_plan(
    manager: CryptoManagerView,
    file: Seq<char>,
    output: Option<Seq<char>>,
    keys: ProcessReplyView,
    file_exists: bool,
    defaults: Seq<Seq<char>>,
) -> Result<InvocationView, EditError> {
    match string_list_in(keys) {
        Err(e) => Err(EditError::Resolve(e)),
        Ok(recipients) => declared_decrypt_plan(
            manager,
            file,
            output,
            recipients,
            file_exists,
            defaults,
        ),
    }
}

/// The editor command to use, given whether standard input is a terminal.
pub fn resolve_editor(named: Option<&str>, interactive: bool) -> (command: String)
    ensures
        command@ == editor_resolved(
            match named {
                Some(text) => Some(text@),
                None => None,
            },
            interactive,
        ),
{
    match named {
        Some(text) => text.to_owned(),
        None => editor_for(interactive),
    }
}

impl EditorManager {
    /// A manager for the rules file and programs of `config`.
    pub fn new(config: Config) -> (manager: EditorManager)
        ensures
            manager@ == config@,
    {
        EditorManager { config }
    }

    /// The settings this manager was made with.
    pub fn config(&self) -> (config: &Config)
        ensures
            config@ == self@,
    {
        &self.config
    }

    /// The editor command to use: the one the operator named, or else the
    /// default for the standard input this process has.
    pub fn get_editor_command(&self, named: Option<&str>) -> (command: String)
        ensures
            match named {
                Some(text) => command@ == text@,
                None => command@ == editor_when(true) || command@ == editor_when(false),
            },
    {
        match named {
            Some(text) => text.to_owned(),
            None => default_editor(),
        }
    }

    /// Begins the edit of `file`: its lifecycle, and the first action to
    /// carry out. Decryption uses the identities that `crypto_manager`
    /// holds, or `defaults` where it holds none.
    pub fn edit_file(
        &self,
        file: &str,
        crypto_manager: &CryptoManager,
        defaults: &Vec<String>,
        editor: EditorChoice,
    ) -> (begun: (EditSession, Action))
        ensures
            (begun.0@, begun.1@) == edit_start(
                file@,
                self@,
                crypto_manager@,
                texts(defaults@),
                editor@,
            ),
    {
        EditSession::start(file, &self.config, crypto_manager, defaults, editor)
    }

    /// Begins a rekeying pass over all declared files: the pass, and the
    /// first action to carry out.
    pub fn rekey_all_files(&self, crypto_manager: &CryptoManager, defaults: &Vec<String>) -> (begun:
        (RekeySession, RekeyAction))
        ensures
            (begun.0@, begun.1@) == rekey_start(self@, crypto_manager@, texts(defaults@)),
    {
        RekeySession::start(&self.config, crypto_manager, defaults)
    }

    /// Plans the decryption of `file` to `output`, or to standard output
    /// where there is none. `keys` is the answer to the question for the
    /// file's recipients: only a declared secret is decrypted. Decryption
    /// uses the identities that `crypto_manager` holds, or `defaults` where
    /// it holds none.
    pub fn decrypt_file(
        &self,
        file: &str,
        output: Option<&str>,
        crypto_manager: &CryptoManager,
        keys: &ProcessReply,
        file_exists: bool,
        defaults: &Vec<String>,
    ) -> (plan: Result<Invocation, EditError>)
        ensures
            match plan {
                Ok(call) => decrypt_file_plan(
                    crypto_manager@,
                    file@,
                    match output {
                        Some(path) => Some(path@),
                        None => None,
                    },
                    keys@,
                    file_exists,
                    texts(defaults@),
                ) == Ok::<InvocationView, EditError>(call@),
                Err(e) => decrypt_file_plan(
                    crypto_manager@,
                    file@,
                    match output {
                        Some(path) => Some(path@),
                        None => None,
                    },
                    keys@,
                    file_exists,
                    texts(defaults@),
                ) == Err::<InvocationView, EditError>(e),
            },
    {
        match get_public_keys(keys) {
            Err(e) => Err(EditError::Resolve(e)),
            Ok(recipients) => self.decrypt_declared(
                file,
                output,
                crypto_manager,
                &recipients,
                file_exists,
                defaults,
            ),
        }
    }

    /// Plans the decryption of a file for which the rules declare
    /// `recipients`: only a declared secret is decrypted, so an empty list
    /// is refused, whatever else holds.
    pub fn decrypt_declared(
        &self,
        file: &str,
        output: Option<&str>,
        crypto_manager: &CryptoManager,
        recipients: &Vec<String>,
        file_exists: bool,
        defaults: &Vec<String>,
    ) -> (plan: Result<Invocation, EditError>)
        ensures
            match plan {
                Ok(call) => declared_decrypt_plan(
                    crypto_manager@,
                    file@,
                    match output {
                        Some(path) => Some(path@),
                        None => None,
                    },
                    texts(recipients@),
                    file_exists,
                    texts(defaults@),
                ) == Ok::<InvocationView, EditError>(call@),
                Err(e) => declared_decrypt_plan(
                    crypto_manager@,
                    file@,
                    match output {
                        Some(path) => Some(path@),
                        None => None,
                    },
                    texts(recipients@),
                    file_exists,
                    texts(defaults@),
                ) == Err::<InvocationView, EditError>(e),
            },
    {
        if recipients.len() == 0 {
            return Err(EditError::NoRuleForTarget);
        }
        match crypto_manager.decrypt(file, output, file_exists, defaults) {
            Ok(call) => Ok(call),
            Err(e) => Err(crypto_error(e)),
        }
    }
}

} // verus!
