//! The response model: raw suggestions, their classified forms, and the
//! confidence-based classifier.

use vstd::prelude::*;
use vstd::string::StringExecFns;

verus! {

/// A single suggestion parsed out of a model reply.
///
/// `confidence` is the model's self-reported confidence, kept in hundredths:
/// `95` stands for a reported confidence of 0.95.
#[derive(Debug, Clone)]
pub struct CommandOption {
    pub command: String,
    pub explanation: String,
    pub confidence: u32,
}

/// Ghost mirror of [`CommandOption`], with the text fields as sequences.
pub ghost struct OptionModel {
    pub command: Seq<char>,
    pub explanation: Seq<char>,
    pub confidence: u32,
}

impl View for CommandOption {
    type V = OptionModel;

    open spec fn view(&self) -> OptionModel {
        OptionModel {
            command: self.command@,
            explanation: self.explanation@,
            confidence: self.confidence,
        }
    }
}

/// One classified outcome.  Only `Command` and `ScriptRecommended` may ever be
/// offered for execution; `Uncertain` carries advisory text and nothing else.
#[derive(Debug, Clone)]
pub enum ResponseType {
    Command(CommandOption),
    ScriptRecommended(String),
    Uncertain(String),
}

/// Confidences at or above this bound (in hundredths) classify as `Command`.
pub const COMMAND_THRESHOLD: u32 = 80;

/// Confidences in `SCRIPT_THRESHOLD..COMMAND_THRESHOLD` classify as
/// `ScriptRecommended`; anything lower is `Uncertain`.
pub const SCRIPT_THRESHOLD: u32 = 50;

/// Text put in front of the command when a suggestion classifies as uncertain.
pub open spec fn uncertain_prefix() -> Seq<char> {
    "Uncertain about command: "@
}

/// What it means for `r` to be the classification of the raw suggestion `m`.
pub open spec fn classifies(m: OptionModel, r: ResponseType) -> bool {
    if m.confidence >= COMMAND_THRESHOLD {
        r matches ResponseType::Command(o) && o@ == m
    } else if m.confidence >= SCRIPT_THRESHOLD {
        r matches ResponseType::ScriptRecommended(c) && c@ == m.command
    } else {
        r matches ResponseType::Uncertain(msg) && msg@ == uncertain_prefix() + m.command
    }
}

/// Maps a raw suggestion to its response variant by its confidence band.
///
/// The bands partition the whole range: `Command` exactly at or above 0.80,
/// `ScriptRecommended` exactly in [0.50, 0.80), `Uncertain` exactly below
/// 0.50.  A `Command` keeps the suggestion verbatim; a `ScriptRecommended`
/// keeps only the command text; an `Uncertain` keeps an advisory message.
pub fn classify(option: CommandOption) -> (r: ResponseType)
    ensures
        classifies(option@, r),
        r is Command <==> option.confidence >= COMMAND_THRESHOLD,
        r is ScriptRecommended <==> SCRIPT_THRESHOLD <= option.confidence < COMMAND_THRESHOLD,
        r is Uncertain <==> option.confidence < SCRIPT_THRESHOLD,
{
    if option.confidence >= COMMAND_THRESHOLD {
        ResponseType::Command(option)
    } else if option.confidence >= SCRIPT_THRESHOLD {
        ResponseType::ScriptRecommended(option.command)
    } else {
        let mut message = String::from_str("Uncertain about command: ");
        message.append(option.command.as_str());
        ResponseType::Uncertain(message)
    }
}

/// Classifies a whole parsed reply, preserving the model's presentation order.
pub fn classify_all(options: Vec<CommandOption>) -> (r: Vec<ResponseType>)
    ensures
        r@.len() == options@.len(),
        forall|i: int|
            0 <= i < options@.len() ==> classifies(options@[i]@, #[trigger] r@[i]),
{
    let mut r: Vec<ResponseType> = Vec::new();
    let n = options.len();
    for i in 0..n
        invariant
            n == options@.len(),
            r@.len() == i,
            forall|j: int|
                0 <= j < i ==> classifies(options@[j]@, #[trigger] r@[j]),
    {
        let o = &options[i];
        let copy = CommandOption {
            command: o.command.clone(),
            explanation: o.explanation.clone(),
            confidence: o.confidence,
        };
        r.push(classify(copy));
    }
    r
}

/// `rs` classifies the raw suggestions `models`, element by element, in
/// order.
pub open spec fn classified_all(models: Seq<OptionModel>, rs: Seq<ResponseType>) -> bool {
    rs.len() == models.len() && forall|i: int|
        0 <= i < models.len() ==> classifies(models[i], #[trigger] rs[i])
}

/// The confidence attached to an explanation the backend itself wrote: 1.00.
pub const FULL_CONFIDENCE: u32 = 100;

/// The message begins with the advisory text that classification puts in
/// front of an uncertain suggestion's command.
pub open spec fn has_uncertain_prefix(m: Seq<char>) -> bool {
    m.len() >= uncertain_prefix().len() && m.take(uncertain_prefix().len() as int)
        == uncertain_prefix()
}

/// What any classified entry looks like: a `Command` only ever carries a
/// suggestion in the highest confidence band, and an `Uncertain` carries the
/// advisory prefix.
pub open spec fn classified_response(r: ResponseType) -> bool {
    match r {
        ResponseType::Command(o) => o.confidence >= COMMAND_THRESHOLD,
        ResponseType::ScriptRecommended(_) => true,
        ResponseType::Uncertain(m) => has_uncertain_prefix(m@),
    }
}

/// Every entry of `v` is a classified entry.
pub open spec fn all_classified(v: Seq<ResponseType>) -> bool {
    forall|i: int| 0 <= i < v.len() ==> classified_response(#[trigger] v[i])
}

/// The advisory text returned when every attempt of the retry protocol has
/// been spent.
pub open spec fn exhausted_message() -> Seq<char> {
    "Failed to generate valid command options after multiple attempts."@
}

/// The degraded result of an exhausted translation: one `Uncertain` entry
/// carrying the advisory text.
pub open spec fn exhausted_singleton(v: Seq<ResponseType>) -> bool {
    v.len() == 1 && (v[0] matches ResponseType::Uncertain(m) && m@ == exhausted_message())
}

/// A classification of anything is a classified entry.
pub proof fn lemma_classified_response(m: OptionModel, r: ResponseType)
    requires
        classifies(m, r),
    ensures
        classified_response(r),
{
    if m.confidence < SCRIPT_THRESHOLD {
        assert((uncertain_prefix() + m.command).take(uncertain_prefix().len() as int)
            =~= uncertain_prefix());
    }
}

/// Builds the degraded result of an exhausted translation.
pub fn exhausted_result() -> (v: Vec<ResponseType>)
    ensures
        exhausted_singleton(v@),
{
    let msg = String::from_str(
        "Failed to generate valid command options after multiple attempts.",
    );
    let mut v: Vec<ResponseType> = Vec::new();
    v.push(ResponseType::Uncertain(msg));
    v
}

/// Wraps an explanation the backend produced for `command` into the one
/// `Command` entry that an explanation request answers with.
pub fn explained(command: &str, explanation: String) -> (r: ResponseType)
    ensures
        r matches ResponseType::Command(o) && o.command@ == command@ && o.explanation
            == explanation && o.confidence == FULL_CONFIDENCE,
{
    ResponseType::Command(
        CommandOption {
            command: String::from_str(command),
            explanation,
            confidence: FULL_CONFIDENCE,
        },
    )
}

/// The variants the execution boundary may accept.
pub open spec fn executable(r: ResponseType) -> bool {
    r is Command || r is ScriptRecommended
}

/// When a one-based selection into `options` may be executed.
pub open spec fn selection_accepts(options: Seq<ResponseType>, selection: int) -> bool {
    1 <= selection <= options.len() && executable(options[selection - 1])
}

/// The text that execution of an accepted entry would run.
pub open spec fn command_text(r: ResponseType) -> Seq<char>
    recommends
        executable(r),
{
    match r {
        ResponseType::Command(o) => o.command@,
        ResponseType::ScriptRecommended(c) => c@,
        ResponseType::Uncertain(m) => m@,
    }
}

/// Text put in front of the advisory message when execution is refused.
pub open spec fn cannot_execute_prefix() -> Seq<char> {
    "Cannot execute uncertain command: "@
}

/// The execution gate: resolves a one-based selection to the command text to
/// run, and refuses anything but a `Command` or `ScriptRecommended` entry.
pub fn select_for_execution(options: &Vec<ResponseType>, selection: usize) -> (r: Result<
    String,
    String,
>)
    ensures
        r is Ok <==> selection_accepts(options@, selection as int),
        r matches Ok(c) ==> c@ == command_text(options@[selection as int - 1]),
        !(1 <= selection <= options@.len()) ==> (r matches Err(e) && e@
            == "Invalid selection"@),
        (1 <= selection <= options@.len() && options@[selection as int - 1] is Uncertain) ==> (
        r matches Err(e) && e@ == cannot_execute_prefix() + options@[selection as int
            - 1]->Uncertain_0@),
{
    if selection < 1 || selection > options.len() {
        return Err(String::from_str("Invalid selection"));
    }
    match &options[selection - 1] {
        ResponseType::Command(o) => Ok(o.command.clone()),
        ResponseType::ScriptRecommended(c) => Ok(c.clone()),
        ResponseType::Uncertain(m) => {
            let mut e = String::from_str("Cannot execute uncertain command: ");
            e.append(m.as_str());
            Err(e)
        },
    }
}

/// The non-execution invariant: a selection that lands on an `Uncertain`
/// entry is never accepted by the execution gate.
pub proof fn lemma_uncertain_rejected(options: Seq<ResponseType>, selection: int)
    requires
        1 <= selection <= options.len(),
        options[selection - 1] is Uncertain,
    ensures
        !selection_accepts(options, selection),
{
}

} // verus!
