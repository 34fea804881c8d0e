//! Calls to age, and the comparison that tells whether an edit changed
//! anything.

use vstd::prelude::*;
use crate::config::{Config, ConfigView};
use crate::process::{Invocation, InvocationView, ProcessReply, ProcessReplyView};
use crate::text::{clone_bytes, clone_strings, texts};

verus! {

/// Why age was not called, or what became of the call.
#[derive(Clone, Copy, Debug, PartialEq, Eq, Structural)]
pub enum CryptoError {
    /// The file to decrypt does not exist.
    InputMissing,
    /// There is no identity to decrypt with.
    NoIdentity,
    /// There is no recipient to encrypt to.
    NoRecipients,
    /// age could not be started.
    NotStarted,
    /// age reported failure while decrypting.
    DecryptFailed,
    /// age reported failure while encrypting.
    EncryptFailed,
}

/// Plans the calls to age with the identities the operator named.
#[derive(Debug)]
pub struct CryptoManager {
    config: Config,
    identities: Vec<String>,
}

/// The mathematical content of a [`CryptoManager`].
pub struct CryptoManagerView {
    pub config: ConfigView,
    pub identities: Seq<Seq<char>>,
}

impl View for CryptoManager {
    type V = CryptoManagerView;

    closed spec fn view(&self) -> CryptoManagerView {
        CryptoManagerView { config: self.config@, identities: texts(self.identities@) }
    }
}

/// `flag` before each of `values`, in order.
pub open spec fn flagged(flag: Seq<char>, values: Seq<Seq<char>>) -> Seq<Seq<char>>
    decreases values.len(),
{
    if values.len() == 0 {
        Seq::empty()
    } else {
        flagged(flag, values.drop_last()).push(flag).push(values.last())
    }
}

/// `--recipient` before each recipient that is not the empty string.
pub open spec fn recipient_args(recipients: Seq<Seq<char>>) -> Seq<Seq<char>>
    decreases recipients.len(),
{
    if recipients.len() == 0 {
        Seq::empty()
    } else {
        let front = recipient_args(recipients.drop_last());
        if recipients.last().len() == 0 {
            front
        } else {
            front.push("--recipient"@).push(recipients.last())
        }
    }
}

/// The identities a decryption tries: those the operator named, and the
/// defaults only where the operator named none.
pub open spec fn identities_in_use(named: Seq<Seq<char>>, defaults: Seq<Seq<char>>) -> Seq<
    Seq<char>,
> {
    if named.len() == 0 {
        defaults
    } else {
        named
    }
}

/// Where a decryption writes: the given path, or `-` for standard output.
pub open spec fn output_or_stdout(output: Option<Seq<char>>) -> Seq<char> {
    match output {
        Some(path) => path,
        None => "-"@,
    }
}

/// The call that decrypts `input` with `identities`.
pub open spec fn decrypt_invocation(
    age_bin: Seq<char>,
    identities: Seq<Seq<char>>,
    input: Seq<char>,
    output: Option<Seq<char>>,
) -> InvocationView {
    InvocationView {
        program: age_bin,
        args: seq!["--decrypt"@] + flagged("--identity"@, identities) + seq![
            "-o"@,
            output_or_stdout(output),
            "--"@,
            input,
        ],
        input: None,
        capture: false,
    }
}

/// The call that encrypts `data` to `recipients` and writes to `output`.
pub open spec fn encrypt_invocation(
    age_bin: Seq<char>,
    data: Seq<u8>,
    output: Seq<char>,
    recipients: Seq<Seq<char>>,
    armor: bool,
) -> InvocationView {
    InvocationView {
        program: age_bin,
        args: (if armor {
            seq!["--armor"@]
        } else {
            Seq::empty()
        }) + recipient_args(recipients) + seq!["-o"@, output],
        input: Some(data),
        capture: false,
    }
}

/// Whether a decryption goes ahead, and with which call.
pub open spec fn decrypt_plan(
    manager: CryptoManagerView,
    input: Seq<char>,
    output: Option<Seq<char>>,
    input_exists: bool,
    defaults: Seq<Seq<char>>,
) -> Result<InvocationView, CryptoError> {
    let identities = identities_in_use(manager.identities, defaults);
    if !input_exists {
        Err(CryptoError::InputMissing)
    } else if identities.len() == 0 {
        Err(CryptoError::NoIdentity)
    } else {
        Ok(decrypt_invocation(manager.config.age_bin, identities, input, output))
    }
}

/// Whether an encryption goes ahead, and with which call.
pub open spec fn encrypt_plan(
    manager: CryptoManagerView,
    data: Seq<u8>,
    output: Seq<char>,
    recipients: Seq<Seq<char>>,
    armor: bool,
) -> Result<InvocationView, CryptoError> {
    if recipients.len() == 0 {
        Err(CryptoError::NoRecipients)
    } else {
        Ok(encrypt_invocation(manager.config.age_bin, data, output, recipients, armor))
    }
}

/// How the end of a call to age is judged; `failure` is what a run that
/// ended badly counts as.
pub open spec fn exit_verdict(started: bool, success: bool, failure: CryptoError) -> Result<
    (),
    CryptoError,
> {
    if !started {
        Err(CryptoError::NotStarted)
    } else if !success {
        Err(failure)
    } else {
        Ok(())
    }
}

/// How a finished call to age is judged.
pub open spec fn age_verdict(reply: ProcessReplyView, failure: CryptoError) -> Result<
    (),
    CryptoError,
> {
    exit_verdict(reply.started, reply.success, failure)
}

/// Two files are equal where both exist and hold the same bytes.
pub open spec fn same_contents(a: Option<Seq<u8>>, b: Option<Seq<u8>>) -> bool {
    a is Some && b is Some && a->0 == b->0
}

/// What a failure reads like; `path` is the file the call was about.
pub open spec fn crypto_error_text(error: CryptoError, path: Seq<char>) -> Seq<char> {
    match error {
        CryptoError::InputMissing => "Input file does not exist: "@ + path,
        CryptoError::NoIdentity => "No identity found to decrypt "@ + path
            + ". Try adding an SSH key at $HOME/.ssh/id_rsa or $HOME/.ssh/id_ed25519 or using the --identity flag to specify a file."@,
        CryptoError::NoRecipients => "No recipients specified for encryption"@,
        CryptoError::NotStarted => "Failed to run age"@,
        CryptoError::DecryptFailed => "Failed to decrypt "@ + path,
        CryptoError::EncryptFailed => "Failed to encrypt to "@ + path,
    }
}

impl CryptoError {
    /// A line for the operator that says what went wrong with `path`.
    pub fn message(&self, path: &str) -> (line: String)
        ensures
            line@ == crypto_error_text(*self, path@),
    {
        match self {
            CryptoError::InputMissing => {
                let mut line: String = "Input file does not exist: ".to_owned();
                line.append(path);
                line
            },
            CryptoError::NoIdentity => {
                let mut line: String = "No identity found to decrypt ".to_owned();
                line.append(path);
                line.append(
                    ". Try adding an SSH key at $HOME/.ssh/id_rsa or $HOME/.ssh/id_ed25519 or using the --identity flag to specify a file.",
                );
                line
            },
            CryptoError::NoRecipients => "No recipients specified for encryption".to_owned(),
            CryptoError::NotStarted => "Failed to run age".to_owned(),
            CryptoError::DecryptFailed => {
                let mut line: String = "Failed to decrypt ".to_owned();
                line.append(path);
                line
            },
            CryptoError::EncryptFailed => {
                let mut line: String = "Failed to encrypt to ".to_owned();
                line.append(path);
                line
            },
        }
    }
}

proof fn lemma_flagged_step(flag: Seq<char>, values: Seq<Seq<char>>, i: int)
    requires
        0 <= i < values.len(),
    ensures
        flagged(flag, values.subrange(0, i + 1)) == flagged(flag, values.subrange(0, i)).push(
            flag,
        ).push(values[i]),
{
    let upto = values.subrange(0, i + 1);
    assert(upto.drop_last() =~= values.subrange(0, i));
}

proof fn lemma_recipient_args_step(recipients: Seq<Seq<char>>, i: int)
    requires
        0 <= i < recipients.len(),
    ensures
        recipient_args(recipients.subrange(0, i + 1)) == if recipients[i].len() == 0 {
            recipient_args(recipients.subrange(0, i))
        } else {
            recipient_args(recipients.subrange(0, i)).push("--recipient"@).push(recipients[i])
        },
{
    let upto = recipients.subrange(0, i + 1);
    assert(upto.drop_last() =~= recipients.subrange(0, i));
}

/// The call to age that decrypts `input` with each of `identities`, to
/// `output` or, without one, to standard output.
pub fn decrypt_call(
    age_bin: &str,
    identities: &Vec<String>,
    input: &str,
    output: Option<&str>,
) -> (call: Invocation)
    ensures
        call@ == decrypt_invocation(
            age_bin@,
            texts(identities@),
            input@,
            match output {
                Some(path) => Some(path@),
                None => None,
            },
        ),
{
    let ghost ids = texts(identities@);
    let mut args: Vec<String> = Vec::new();
    args.push("--decrypt".to_owned());
    let mut i: usize = 0;
    while i < identities.len()
        invariant
            i <= identities.len(),
            ids == texts(identities@),
            texts(args@) == seq!["--decrypt"@] + flagged("--identity"@, ids.subrange(0, i as int)),
        decreases identities.len() - i,
    {
        proof {
            lemma_flagged_step("--identity"@, ids, i as int);
        }
        let ghost before = texts(args@);
        args.push("--identity".to_owned());
        args.push(identities[i].clone());
        assert(texts(args@) =~= before.push("--identity"@).push(ids[i as int]));
        i = i + 1;
    }
    assert(ids.subrange(0, identities.len() as int) =~= ids);
    let ghost before = texts(args@);
    args.push("-o".to_owned());
    match output {
        Some(path) => args.push(path.to_owned()),
        None => args.push("-".to_owned()),
    }
    args.push("--".to_owned());
    args.push(input.to_owned());
    let ghost out = match output {
        Some(path) => Some(path@),
        None => None,
    };
    assert(texts(args@) =~= before + seq!["-o"@, output_or_stdout(out), "--"@, input@]);
    Invocation { program: age_bin.to_owned(), args, input: None, capture: false }
}

/// The call to age that encrypts `data` to every recipient that is not the
/// empty string and writes the result to `output`, armored on request.
pub fn encrypt_call(
    age_bin: &str,
    data: &Vec<u8>,
    output: &str,
    recipients: &Vec<String>,
    armor: bool,
) -> (call: Invocation)
    ensures
        call@ == encrypt_invocation(age_bin@, data@, output@, texts(recipients@), armor),
{
    let ghost rs = texts(recipients@);
    let ghost head: Seq<Seq<char>> = if armor {
        seq!["--armor"@]
    } else {
        Seq::empty()
    };
    let mut args: Vec<String> = Vec::new();
    if armor {
        args.push("--armor".to_owned());
    }
    let mut i: usize = 0;
    while i < recipients.len()
        invariant
            i <= recipients.len(),
            rs == texts(recipients@),
            texts(args@) == head + recipient_args(rs.subrange(0, i as int)),
        decreases recipients.len() - i,
    {
        proof {
            lemma_recipient_args_step(rs, i as int);
        }
        let ghost before = texts(args@);
        if !recipients[i].as_str().is_empty() {
            args.push("--recipient".to_owned());
            args.push(recipients[i].clone());
            assert(texts(args@) =~= before.push("--recipient"@).push(rs[i as int]));
        }
        i = i + 1;
    }
    assert(rs.subrange(0, recipients.len() as int) =~= rs);
    let ghost before = texts(args@);
    args.push("-o".to_owned());
    args.push(output.to_owned());
    assert(texts(args@) =~= before + seq!["-o"@, output@]);
    Invocation {
        program: age_bin.to_owned(),
        args,
        input: Some(clone_bytes(data)),
        capture: false,
    }
}

/// Judges the end of a call to age: it must have started and succeeded;
/// `failure` is what a run that ended badly counts as.
pub fn judge_exit(started: bool, success: bool, failure: CryptoError) -> (verdict: Result<
    (),
    CryptoError,
>)
    ensures
        verdict == exit_verdict(started, success, failure),
{
    if !started {
        Err(CryptoError::NotStarted)
    } else if !success {
        Err(failure)
    } else {
        Ok(())
    }
}

/// Whether two byte strings are the same, byte for byte.
pub fn same_bytes(a: &Vec<u8>, b: &Vec<u8>) -> (same: bool)
    ensures
        same == (a@ == b@),
{
    if a.len() != b.len() {
        return false;
    }
    let mut i: usize = 0;
    while i < a.len()
        invariant
            i <= a.len(),
            a.len() == b.len(),
            forall|k: int| 0 <= k < i ==> a[k] == b[k],
        decreases a.len() - i,
    {
        if a[i] != b[i] {
            return false;
        }
        i = i + 1;
    }
    assert(a@ =~= b@);
    true
}

impl CryptoManager {
    /// A manager for which the operator has named no identity yet.
    pub fn new(config: Config) -> (manager: CryptoManager)
        ensures
            manager@ == (CryptoManagerView { config: config@, identities: Seq::empty() }),
    {
        let manager = CryptoManager { config, identities: Vec::new() };
        assert(texts(manager.identities@) =~= Seq::<Seq<char>>::empty());
        manager
    }

    /// A manager with the same settings and identities.
    pub fn duplicate(&self) -> (copy: CryptoManager)
        ensures
            copy@ == self@,
    {
        CryptoManager { config: self.config.clone(), identities: clone_strings(&self.identities) }
    }

    /// Adds an identity named by the operator, behind those named before.
    pub fn add_identity(&mut self, identity_path: &str)
        ensures
            final(self)@ == (CryptoManagerView {
                identities: old(self)@.identities.push(identity_path@),
                ..old(self)@
            }),
    {
        let ghost before = texts(self.identities@);
        self.identities.push(identity_path.to_owned());
        assert(texts(self.identities@) =~= before.push(identity_path@));
    }

    /// The settings this manager was made with.
    pub fn config(&self) -> (config: &Config)
        ensures
            config@ == self@.config,
    {
        &self.config
    }

    /// The identities the operator named, in the order given.
    pub fn identities(&self) -> (named: &Vec<String>)
        ensures
            texts(named@) == self@.identities,
    {
        &self.identities
    }

    /// The identities to decrypt with: those the operator named, exclusively;
    /// `defaults` only where the operator named none.
    pub fn get_identities(&self, defaults: &Vec<String>) -> (identities: Vec<String>)
        ensures
            texts(identities@) == identities_in_use(self@.identities, texts(defaults@)),
    {
        if self.identities.len() == 0 {
            clone_strings(defaults)
        } else {
            clone_strings(&self.identities)
        }
    }

    /// Plans the decryption of `input_file` to `output_path`, or to standard
    /// output where there is none. The caller says whether the input exists
    /// and which default identities it found. Nothing is planned for a
    /// missing input, nor where no identity is left to try.
    pub fn decrypt(
        &self,
        input_file: &str,
        output_path: Option<&str>,
        input_exists: bool,
        defaults: &Vec<String>,
    ) -> (plan: Result<Invocation, CryptoError>)
        ensures
            match plan {
                Ok(call) => decrypt_plan(
                    self@,
                    input_file@,
                    match output_path {
                        Some(path) => Some(path@),
                        None => None,
                    },
                    input_exists,
                    texts(defaults@),
                ) == Ok::<InvocationView, CryptoError>(call@),
                Err(e) => decrypt_plan(
                    self@,
                    input_file@,
                    match output_path {
                        Some(path) => Some(path@),
                        None => None,
                    },
                    input_exists,
                    texts(defaults@),
                ) == Err::<InvocationView, CryptoError>(e),
            },
    {
        if !input_exists {
            return Err(CryptoError::InputMissing);
        }
        let identities = self.get_identities(defaults);
        if identities.len() == 0 {
            return Err(CryptoError::NoIdentity);
        }
        Ok(decrypt_call(self.config.age_bin.as_str(), &identities, input_file, output_path))
    }

    /// Judges a finished decryption.
    pub fn decrypt_finished(reply: &ProcessReply) -> (verdict: Result<(), CryptoError>)
        ensures
            verdict == age_verdict(reply@, CryptoError::DecryptFailed),
    {
        judge_exit(reply.started, reply.success, CryptoError::DecryptFailed)
    }

    /// Plans the encryption of `input_data` to `recipients`, written to
    /// `output_file`. Nothing is planned for an empty list of recipients.
    pub fn encrypt(
        &self,
        input_data: &Vec<u8>,
        output_file: &str,
        recipients: &Vec<String>,
        armor: bool,
    ) -> (plan: Result<Invocation, CryptoError>)
        ensures
            match plan {
                Ok(call) => encrypt_plan(
                    self@,
                    input_data@,
                    output_file@,
                    texts(recipients@),
                    armor,
                ) == Ok::<InvocationView, CryptoError>(call@),
                Err(e) => encrypt_plan(
                    self@,
                    input_data@,
                    output_file@,
                    texts(recipients@),
                    armor,
                ) == Err::<InvocationView, CryptoError>(e),
            },
    {
        if recipients.len() == 0 {
            return Err(CryptoError::NoRecipients);
        }
        Ok(encrypt_call(self.config.age_bin.as_str(), input_data, output_file, recipients, armor))
    }

    /// Judges a finished encryption.
    pub fn encrypt_finished(reply: &ProcessReply) -> (verdict: Result<(), CryptoError>)
        ensures
            verdict == age_verdict(reply@, CryptoError::EncryptFailed),
    {
        judge_exit(reply.started, reply.success, CryptoError::EncryptFailed)
    }

    /// Whether two files have the same content. Each argument is a file's
    /// bytes, or `None` where the file does not exist; a missing file equals
    /// nothing. Only the bytes count.
    pub fn files_equal(&self, file1: Option<&Vec<u8>>, file2: Option<&Vec<u8>>) -> (equal: bool)
        ensures
            equal == same_contents(
                match file1 {
                    Some(bytes) => Some(bytes@),
                    None => None,
                },
                match file2 {
                    Some(bytes) => Some(bytes@),
                    None => None,
                },
            ),
    {
        match (file1, file2) {
            (Some(a), Some(b)) => same_bytes(a, b),
            _ => false,
        }
    }
}

} // verus!
