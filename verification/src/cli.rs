//! What the operator asked for, and the editor used where none was named.

use vstd::prelude::*;

verus! {

/// The command line, already taken apart.
#[derive(Debug)]
pub struct Args {
    /// Edit this file with the editor.
    pub edit: Option<String>,
    /// Identity to use when decrypting.
    pub identity: Option<String>,
    /// Re-encrypt all secrets to their declared recipients.
    pub rekey: bool,
    /// Decrypt this file to standard output.
    pub decrypt: Option<String>,
    /// Path of the rules file.
    pub rules: String,
    /// Editor command.
    pub editor: String,
    /// Verbose output.
    pub verbose: bool,
}

/// The one thing a command line asks to be done.
#[derive(Debug, PartialEq, Eq)]
pub enum Operation {
    /// Encrypt every declared secret anew.
    Rekey,
    /// Decrypt this file to standard output.
    Decrypt(String),
    /// Edit this file.
    Edit(String),
    /// Nothing was asked for: show how to ask.
    Help,
}

/// The mathematical content of an [`Operation`].
pub enum OperationView {
    Rekey,
    Decrypt(Seq<char>),
    Edit(Seq<char>),
    Help,
}

impl View for Operation {
    type V = OperationView;

    open spec fn view(&self) -> OperationView {
        match self {
            Operation::Rekey => OperationView::Rekey,
            Operation::Decrypt(file) => OperationView::Decrypt(file@),
            Operation::Edit(file) => OperationView::Edit(file@),
            Operation::Help => OperationView::Help,
        }
    }
}

/// Which operation wins where several are asked for: rekeying before
/// decrypting, decrypting before editing; help where none is.
pub open spec fn selected_operation(
    rekey: bool,
    decrypt: Option<Seq<char>>,
    edit: Option<Seq<char>>,
) -> OperationView {
    if rekey {
        OperationView::Rekey
    } else if decrypt is Some {
        OperationView::Decrypt(decrypt->0)
    } else if edit is Some {
        OperationView::Edit(edit->0)
    } else {
        OperationView::Help
    }
}

/// The editor used where none is named: an interactive one at a terminal,
/// otherwise a copy of standard input over the file.
pub open spec fn editor_when(interactive: bool) -> Seq<char> {
    if interactive {
        "vi"@
    } else {
        "cp -- /dev/stdin"@
    }
}

/// Asks `isatty::stdin_isatty` whether standard input is a terminal. The
/// answer depends on how the process was started, so nothing is claimed of it.
#[verifier::external_body]
fn stdin_is_terminal() -> bool {
    isatty::stdin_isatty()
}

/// The editor used where none is named, given whether standard input is a
/// terminal.
pub fn editor_for(interactive: bool) -> (editor: String)
    ensures
        editor@ == editor_when(interactive),
{
    if interactive {
        "vi".to_owned()
    } else {
        "cp -- /dev/stdin".to_owned()
    }
}

/// The editor used where none is named, for the standard input this process
/// has.
pub fn default_editor() -> (editor: String)
    ensures
        editor@ == editor_when(true) || editor@ == editor_when(false),
{
    editor_for(stdin_is_terminal())
}

impl Args {
    /// The operation this command line asks for.
    pub fn operation(&self) -> (operation: Operation)
        ensures
            operation@ == selected_operation(
                self.rekey,
                match self.decrypt {
                    Some(file) => Some(file@),
                    None => None,
                },
                match self.edit {
                    Some(file) => Some(file@),
                    None => None,
                },
            ),
    {
        if self.rekey {
            return Operation::Rekey;
        }
        match &self.decrypt {
            Some(file) => {
                return Operation::Decrypt(file.clone());
            },
            None => {},
        }
        match &self.edit {
            Some(file) => Operation::Edit(file.clone()),
            None => Operation::Help,
        }
    }
}

} // verus!
