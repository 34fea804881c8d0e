//! Questions put to the rules file through nix-instantiate, and how its
//! answers are read.
//!
//! Each question is an [`Invocation`] for the caller to run; the functions
//! that read an answer take the [`ProcessReply`] that came back.

use serde_json::Value;
use vstd::prelude::*;
use vstd::utf8::{decode_utf8, valid_utf8};
use crate::config::Config;
use crate::process::{Invocation, InvocationView, ProcessReply, ProcessReplyView};
use crate::text::texts;

verus! {

/// Why a question to the rules file got no usable answer.
#[derive(Clone, Copy, Debug, PartialEq, Eq, Structural)]
pub enum NixError {
    /// nix-instantiate could not be started.
    NotStarted,
    /// nix-instantiate reported failure.
    EvalFailed,
    /// The answer is not UTF-8.
    InvalidUtf8,
    /// The answer is not JSON.
    InvalidJson,
    /// The answer is JSON, but not an array.
    NotAnArray,
    /// There is no rules file at the configured path.
    RulesFileMissing,
}

/// One element of a JSON array, as far as answers are read: its text where
/// it is a string.
#[derive(Debug, PartialEq, Eq)]
pub enum JsonItem {
    /// A string, with its text.
    Text(String),
    /// Anything that is not a string.
    Other,
}

/// A JSON document, as far as answers are read: its elements where it is an
/// array.
#[derive(Debug, PartialEq, Eq)]
pub enum JsonDoc {
    /// An array, with its elements in order.
    Array(Vec<JsonItem>),
    /// Any value that is not an array.
    Other,
}

/// The mathematical content of a [`JsonDoc`].
pub enum JsonShape {
    Array(Seq<Option<Seq<char>>>),
    Other,
}

impl View for JsonItem {
    type V = Option<Seq<char>>;

    open spec fn view(&self) -> Option<Seq<char>> {
        match self {
            JsonItem::Text(text) => Some(text@),
            JsonItem::Other => None,
        }
    }
}

/// The contents of a list of elements, in order.
pub open spec fn item_shapes(items: Seq<JsonItem>) -> Seq<Option<Seq<char>>> {
    Seq::new(items.len(), |i: int| items[i]@)
}

impl View for JsonDoc {
    type V = JsonShape;

    open spec fn view(&self) -> JsonShape {
        match self {
            JsonDoc::Array(items) => JsonShape::Array(item_shapes(items@)),
            JsonDoc::Other => JsonShape::Other,
        }
    }
}

/// The document that `text` holds when read as JSON, or `None` where `text`
/// is not one JSON value.
pub uninterp spec fn json_document(text: Seq<char>) -> Option<JsonShape>;

/// `text` without its leading and trailing white space.
pub uninterp spec fn trimmed(text: Seq<char>) -> Seq<char>;

/// `serde_json::Error`: why `serde_json::from_str` rejected a text. It is
/// carried from the parser to the place where it becomes
/// [`NixError::InvalidJson`]; nothing is known of what it holds.
#[verifier::external_type_specification]
#[verifier::external_body]
pub struct ExJsonError(serde_json::Error);

/// Reads `text` with `serde_json::from_str` as a `serde_json::Value`. The
/// outcome depends on `text` alone and is named [`json_document`]: whether
/// `text` is one JSON value and, if so, what that value looks like. Nothing
/// more is claimed of it. An array is handed on element by element, each
/// string element with its text; of any other value only that it is no
/// array, and of any other element only that it is no string.
#[verifier::external_body]
fn parse_json(text: &str) -> (parsed: Result<JsonDoc, serde_json::Error>)
    ensures
        parsed matches Ok(doc) ==> json_document(text@) == Some(doc@),
        parsed is Err ==> json_document(text@) is None,
{
    Ok(match serde_json::from_str::<Value>(text)? {
        Value::Array(items) => JsonDoc::Array(
            items.into_iter().map(|item| match item {
                Value::String(text) => JsonItem::Text(text),
                Value::Null | Value::Bool(_) | Value::Number(_) => JsonItem::Other,
                Value::Array(_) | Value::Object(_) => JsonItem::Other,
            }).collect(),
        ),
        Value::Null | Value::Bool(_) | Value::Number(_) => JsonDoc::Other,
        Value::String(_) | Value::Object(_) => JsonDoc::Other,
    })
}

/// Decodes `bytes` with `std::str::from_utf8`, which accepts exactly the
/// well-formed UTF-8 byte strings and yields the text they encode.
#[verifier::external_body]
fn utf8_text(bytes: &Vec<u8>) -> (text: Option<String>)
    ensures
        text is Some <==> valid_utf8(bytes@),
        text matches Some(s) ==> s@ == decode_utf8(bytes@),
{
    match std::str::from_utf8(bytes) {
        Ok(text) => Some(text.to_owned()),
        Err(_) => None,
    }
}

/// Strips white space from both ends of `text` with `str::trim`. The result
/// depends on `text` alone and is named [`trimmed`].
#[verifier::external_body]
fn trim(text: &str) -> (core: &str)
    ensures
        core@ == trimmed(text@),
{
    text.trim()
}

/// The expression that yields the recipients declared for `file`.
pub open spec fn keys_expression(rules: Seq<char>, file: Seq<char>) -> Seq<char> {
    "(let rules = import "@ + rules + "; in rules.\""@ + file + "\".publicKeys)"@
}

/// The expression that yields whether `file` is declared to be armored.
pub open spec fn armor_expression(rules: Seq<char>, file: Seq<char>) -> Seq<char> {
    "(let rules = import "@ + rules + "; in (builtins.hasAttr \"armor\" rules.\""@ + file
        + "\" && rules.\""@ + file + "\".armor))"@
}

/// The expression that yields the names of all declared files.
pub open spec fn files_expression(rules: Seq<char>) -> Seq<char> {
    "(let rules = import "@ + rules + "; in builtins.attrNames rules)"@
}

/// The arguments with which nix-instantiate evaluates `expr` to JSON.
pub open spec fn eval_args(expr: Seq<char>, strict: bool) -> Seq<Seq<char>> {
    if strict {
        seq!["--json"@, "--eval"@, "--strict"@, "-E"@, expr]
    } else {
        seq!["--json"@, "--eval"@, "-E"@, expr]
    }
}

/// The call that evaluates `expr`, its output collected.
pub open spec fn eval_invocation(program: Seq<char>, expr: Seq<char>, strict: bool)
    -> InvocationView {
    InvocationView { program, args: eval_args(expr, strict), input: None, capture: true }
}

/// The texts of the elements that are strings, in order.
pub open spec fn texts_in(items: Seq<Option<Seq<char>>>) -> Seq<Seq<char>>
    decreases items.len(),
{
    if items.len() == 0 {
        Seq::empty()
    } else {
        let front = texts_in(items.drop_last());
        match items.last() {
            Some(text) => front.push(text),
            None => front,
        }
    }
}

/// The list of strings that a document stands for.
pub open spec fn string_list_of(shape: JsonShape) -> Result<Seq<Seq<char>>, NixError> {
    match shape {
        JsonShape::Array(items) => Ok(texts_in(items)),
        JsonShape::Other => Err(NixError::NotAnArray),
    }
}

/// The document that an answer holds.
pub open spec fn document_of(reply: ProcessReplyView) -> Result<JsonShape, NixError> {
    if !reply.started {
        Err(NixError::NotStarted)
    } else if !reply.success {
        Err(NixError::EvalFailed)
    } else if !valid_utf8(reply.stdout) {
        Err(NixError::InvalidUtf8)
    } else {
        match json_document(decode_utf8(reply.stdout)) {
            Some(shape) => Ok(shape),
            None => Err(NixError::InvalidJson),
        }
    }
}

/// The list of strings that an answer holds.
pub open spec fn string_list_in(reply: ProcessReplyView) -> Result<Seq<Seq<char>>, NixError> {
    match document_of(reply) {
        Ok(shape) => string_list_of(shape),
        Err(e) => Err(e),
    }
}

/// Whether an answer says `true`. An answer that is missing, failed or not
/// text says no.
pub open spec fn armor_in(reply: ProcessReplyView) -> bool {
    reply.started && reply.success && valid_utf8(reply.stdout) && trimmed(
        decode_utf8(reply.stdout),
    ) == "true"@
}

/// How a rules file and a trial evaluation are judged.
pub open spec fn rules_file_verdict(rules_exists: bool, probe: ProcessReplyView) -> Result<
    (),
    NixError,
> {
    if !rules_exists {
        Err(NixError::RulesFileMissing)
    } else if !probe.started {
        Err(NixError::NotStarted)
    } else if !probe.success {
        Err(NixError::EvalFailed)
    } else {
        Ok(())
    }
}

/// What a failure reads like. The path of the rules file is named where the
/// file is what is missing.
pub open spec fn nix_error_text(error: NixError, rules_path: Seq<char>) -> Seq<char> {
    match error {
        NixError::NotStarted => "Failed to run nix-instantiate"@,
        NixError::EvalFailed => "nix-instantiate failed to evaluate the rules"@,
        NixError::InvalidUtf8 => "Failed to parse nix output as UTF-8"@,
        NixError::InvalidJson => "Failed to parse nix output as JSON"@,
        NixError::NotAnArray => "Expected JSON array in nix output"@,
        NixError::RulesFileMissing => "Rules file does not exist: "@ + rules_path,
    }
}

impl NixError {
    /// A line for the operator that says what went wrong.
    pub fn message(&self, rules_path: &str) -> (line: String)
        ensures
            line@ == nix_error_text(*self, rules_path@),
    {
        match self {
            NixError::NotStarted => "Failed to run nix-instantiate".to_owned(),
            NixError::EvalFailed => "nix-instantiate failed to evaluate the rules".to_owned(),
            NixError::InvalidUtf8 => "Failed to parse nix output as UTF-8".to_owned(),
            NixError::InvalidJson => "Failed to parse nix output as JSON".to_owned(),
            NixError::NotAnArray => "Expected JSON array in nix output".to_owned(),
            NixError::RulesFileMissing => {
                let mut line: String = "Rules file does not exist: ".to_owned();
                line.append(rules_path);
                line
            },
        }
    }
}

proof fn lemma_texts_in_step(items: Seq<Option<Seq<char>>>, i: int)
    requires
        0 <= i < items.len(),
    ensures
        texts_in(items.subrange(0, i + 1)) == match items[i] {
            Some(text) => texts_in(items.subrange(0, i)).push(text),
            None => texts_in(items.subrange(0, i)),
        },
{
    let upto = items.subrange(0, i + 1);
    assert(upto.drop_last() =~= items.subrange(0, i));
}

/// The call that evaluates `expr` with the configured nix-instantiate.
pub fn eval_query(config: &Config, expr: &str, strict: bool) -> (query: Invocation)
    ensures
        query@ == eval_invocation(config@.nix_instantiate, expr@, strict),
{
    let mut args: Vec<String> = Vec::new();
    args.push("--json".to_owned());
    args.push("--eval".to_owned());
    if strict {
        args.push("--strict".to_owned());
    }
    args.push("-E".to_owned());
    args.push(expr.to_owned());
    assert(texts(args@) =~= eval_args(expr@, strict));
    Invocation { program: config.nix_instantiate.clone(), args, input: None, capture: true }
}

/// The question for the recipients declared for `file`.
pub fn public_keys_query(config: &Config, file: &str) -> (query: Invocation)
    ensures
        query@ == eval_invocation(
            config@.nix_instantiate,
            keys_expression(config@.rules_path, file@),
            true,
        ),
{
    let mut expr: String = "(let rules = import ".to_owned();
    expr.append(config.rules_path.as_str());
    expr.append("; in rules.\"");
    expr.append(file);
    expr.append("\".publicKeys)");
    eval_query(config, expr.as_str(), true)
}

/// The question whether `file` is declared to be armored.
pub fn armor_query(config: &Config, file: &str) -> (query: Invocation)
    ensures
        query@ == eval_invocation(
            config@.nix_instantiate,
            armor_expression(config@.rules_path, file@),
            true,
        ),
{
    let mut expr: String = "(let rules = import ".to_owned();
    expr.append(config.rules_path.as_str());
    expr.append("; in (builtins.hasAttr \"armor\" rules.\"");
    expr.append(file);
    expr.append("\" && rules.\"");
    expr.append(file);
    expr.append("\".armor))");
    eval_query(config, expr.as_str(), true)
}

/// The question for the names of all declared files.
pub fn all_files_query(config: &Config) -> (query: Invocation)
    ensures
        query@ == eval_invocation(
            config@.nix_instantiate,
            files_expression(config@.rules_path),
            false,
        ),
{
    let mut expr: String = "(let rules = import ".to_owned();
    expr.append(config.rules_path.as_str());
    expr.append("; in builtins.attrNames rules)");
    eval_query(config, expr.as_str(), false)
}

/// The trial evaluation that shows whether nix-instantiate works at all.
pub fn rules_probe(config: &Config) -> (query: Invocation)
    ensures
        query@ == eval_invocation(config@.nix_instantiate, "builtins.attrNames {}"@, false),
{
    eval_query(config, "builtins.attrNames {}", false)
}

/// The strings of a document: the texts of its string elements, in order,
/// where it is an array. Elements that are not strings are passed over.
pub fn string_list(doc: JsonDoc) -> (list: Result<Vec<String>, NixError>)
    ensures
        match list {
            Ok(strings) => string_list_of(doc@) == Ok::<Seq<Seq<char>>, NixError>(texts(strings@)),
            Err(e) => string_list_of(doc@) == Err::<Seq<Seq<char>>, NixError>(e),
        },
{
    match doc {
        JsonDoc::Other => Err(NixError::NotAnArray),
        JsonDoc::Array(items) => {
            let ghost shapes = item_shapes(items@);
            let mut strings: Vec<String> = Vec::new();
            let mut i: usize = 0;
            while i < items.len()
                invariant
                    i <= items.len(),
                    shapes == item_shapes(items@),
                    texts(strings@) == texts_in(shapes.subrange(0, i as int)),
                decreases items.len() - i,
            {
                proof {
                    lemma_texts_in_step(shapes, i as int);
                }
                match &items[i] {
                    JsonItem::Text(text) => strings.push(text.clone()),
                    JsonItem::Other => {},
                }
                i = i + 1;
            }
            assert(shapes.subrange(0, items.len() as int) =~= shapes);
            Ok(strings)
        },
    }
}

/// Reads the answer to an evaluation as a JSON document.
pub fn eval_json(reply: &ProcessReply) -> (doc: Result<JsonDoc, NixError>)
    ensures
        match doc {
            Ok(d) => document_of(reply@) == Ok::<JsonShape, NixError>(d@),
            Err(e) => document_of(reply@) == Err::<JsonShape, NixError>(e),
        },
{
    if !reply.started {
        return Err(NixError::NotStarted);
    }
    if !reply.success {
        return Err(NixError::EvalFailed);
    }
    match utf8_text(&reply.stdout) {
        None => Err(NixError::InvalidUtf8),
        Some(text) => match parse_json(text.as_str()) {
            Ok(doc) => Ok(doc),
            Err(_) => Err(NixError::InvalidJson),
        },
    }
}

/// Reads an answer as a list of strings.
fn read_string_list(reply: &ProcessReply) -> (list: Result<Vec<String>, NixError>)
    ensures
        match list {
            Ok(strings) => string_list_in(reply@) == Ok::<Seq<Seq<char>>, NixError>(
                texts(strings@),
            ),
            Err(e) => string_list_in(reply@) == Err::<Seq<Seq<char>>, NixError>(e),
        },
{
    match eval_json(reply) {
        Ok(doc) => string_list(doc),
        Err(e) => Err(e),
    }
}

/// Reads the answer to [`public_keys_query`]: the recipients declared for
/// the file, in the order of the rules file.
pub fn get_public_keys(reply: &ProcessReply) -> (keys: Result<Vec<String>, NixError>)
    ensures
        match keys {
            Ok(strings) => string_list_in(reply@) == Ok::<Seq<Seq<char>>, NixError>(
                texts(strings@),
            ),
            Err(e) => string_list_in(reply@) == Err::<Seq<Seq<char>>, NixError>(e),
        },
{
    read_string_list(reply)
}

/// Reads the answer to [`all_files_query`]: the names of the declared files,
/// in the order of the answer.
pub fn get_all_files(reply: &ProcessReply) -> (files: Result<Vec<String>, NixError>)
    ensures
        match files {
            Ok(strings) => string_list_in(reply@) == Ok::<Seq<Seq<char>>, NixError>(
                texts(strings@),
            ),
            Err(e) => string_list_in(reply@) == Err::<Seq<Seq<char>>, NixError>(e),
        },
{
    read_string_list(reply)
}

/// Whether trimmed output says that a file is armored.
pub fn armor_flag(answer: &str) -> (armor: bool)
    ensures
        armor == (answer@ == "true"@),
{
    let expected: String = "true".to_owned();
    let given: String = answer.to_owned();
    given == expected
}

/// Reads the answer to [`armor_query`]. Any failure to answer counts as
/// "not armored".
pub fn should_armor(reply: &ProcessReply) -> (armor: bool)
    ensures
        armor == armor_in(reply@),
{
    if !reply.started || !reply.success {
        return false;
    }
    match utf8_text(&reply.stdout) {
        None => false,
        Some(text) => armor_flag(trim(text.as_str())),
    }
}

/// Judges whether the rules file can be used: it must exist, and the trial
/// evaluation of [`rules_probe`] must have succeeded.
pub fn validate_rules_file(rules_exists: bool, probe: &ProcessReply) -> (verdict: Result<
    (),
    NixError,
>)
    ensures
        verdict == rules_file_verdict(rules_exists, probe@),
{
    if !rules_exists {
        Err(NixError::RulesFileMissing)
    } else if !probe.started {
        Err(NixError::NotStarted)
    } else if !probe.success {
        Err(NixError::EvalFailed)
    } else {
        Ok(())
    }
}

} // verus!
