//! Prompt construction.  Each backend and operation has its own template;
//! the retry protocol appends a feedback section listing every failed reply
//! verbatim, so the model sees exactly what it got wrong.

use vstd::prelude::*;
use vstd::string::StringExecFns;

use crate::protocol::MAX_ATTEMPTS;
use crate::text::string_views;

verus! {

/// The character of one decimal digit.
pub open spec fn digit_char(d: int) -> char
    recommends
        0 <= d <= 9,
{
    ((d + 48) as u8) as char
}

/// The line the feedback section devotes to the `n`-th failed reply
/// (numbered from one), quoting it verbatim.
pub open spec fn attempt_line(n: int, body: Seq<char>) -> Seq<char>
    recommends
        1 <= n <= 9,
{
    "\nAttempt "@ + seq![digit_char(n)] + ": "@ + body + "\n"@
}

/// The lines for all failed replies, oldest first.
pub open spec fn attempt_lines(failed: Seq<Seq<char>>) -> Seq<char>
    decreases failed.len(),
{
    if failed.len() == 0 {
        Seq::<char>::empty()
    } else {
        attempt_lines(failed.drop_last()) + attempt_line(failed.len() as int, failed.last())
    }
}

/// The feedback section appended to a prompt once attempts have failed:
/// empty while nothing failed, otherwise a header, one line per failed reply
/// and a closing instruction.
pub open spec fn feedback_section(failed: Seq<Seq<char>>) -> Seq<char> {
    if failed.len() == 0 {
        Seq::<char>::empty()
    } else {
        "\n\nPrevious attempts failed to generate valid JSON. Here are the failed responses:\n"@
            + attempt_lines(failed) + "\nPlease ensure your response is a valid JSON array."@
    }
}

/// Appends the feedback section for `failed`, as [`feedback_section`]
/// states.
pub fn append_feedback(out: &mut String, failed: &Vec<String>)
    requires
        failed@.len() <= MAX_ATTEMPTS,
    ensures
        final(out)@ == old(out)@ + feedback_section(string_views(failed@)),
{
    let ghost fv = string_views(failed@);
    if failed.len() == 0 {
        proof {
            assert(final(out)@ =~= old(out)@ + feedback_section(fv));
        }
        return ;
    }
    let ghost start = out@;
    out.append("\n\nPrevious attempts failed to generate valid JSON. Here are the failed responses:\n");
    let ghost mid = out@;
    let n = failed.len();
    proof {
        assert(fv.take(0) =~= Seq::<Seq<char>>::empty());
    }
    for i in 0..n
        invariant
            n == failed@.len(),
            n <= MAX_ATTEMPTS,
            fv == string_views(failed@),
            out@ == mid + attempt_lines(fv.take(i as int)),
    {
        let ghost before = out@;
        out.append("\nAttempt ");
        let digit: u8 = (i as u8) + 1;
        crate::text::push_char_string(out, (digit + 48) as char);
        out.append(": ");
        out.append(failed[i].as_str());
        out.append("\n");
        proof {
            assert(fv.take(i as int + 1).drop_last() =~= fv.take(i as int));
            assert(fv.take(i as int + 1).last() == fv[i as int]);
            assert(out@ =~= before + attempt_line(i as int + 1, fv[i as int]));
            assert(out@ =~= mid + attempt_lines(fv.take(i as int + 1)));
        }
    }
    proof {
        assert(fv.take(n as int) =~= fv);
    }
    out.append("\nPlease ensure your response is a valid JSON array.");
    proof {
        assert(out@ =~= start + feedback_section(fv));
    }
}

/// `p` occurs in `s` as a contiguous substring.
pub open spec fn contains_verbatim(s: Seq<char>, p: Seq<char>) -> bool {
    exists|i: int| 0 <= i && i + p.len() <= s.len() && #[trigger] s.subrange(i, i + p.len()) == p
}

proof fn lemma_contains_append_left(a: Seq<char>, b: Seq<char>, p: Seq<char>)
    requires
        contains_verbatim(a, p),
    ensures
        contains_verbatim(a + b, p),
{
    let i = choose|i: int|
        0 <= i && i + p.len() <= a.len() && #[trigger] a.subrange(i, i + p.len()) == p;
    assert((a + b).subrange(i, i + p.len()) =~= a.subrange(i, i + p.len()));
}

proof fn lemma_contains_append_right(a: Seq<char>, b: Seq<char>, p: Seq<char>)
    requires
        contains_verbatim(b, p),
    ensures
        contains_verbatim(a + b, p),
{
    let i = choose|i: int|
        0 <= i && i + p.len() <= b.len() && #[trigger] b.subrange(i, i + p.len()) == p;
    assert((a + b).subrange(a.len() + i, a.len() + i + p.len()) =~= b.subrange(i, i + p.len()));
}

proof fn lemma_attempt_line_quotes(n: int, body: Seq<char>)
    ensures
        contains_verbatim(attempt_line(n, body), body),
{
    let pre = "\nAttempt "@ + seq![digit_char(n)] + ": "@;
    assert(attempt_line(n, body).subrange(
        pre.len() as int,
        pre.len() as int + body.len() as int,
    ) =~= body);
}

proof fn lemma_attempt_lines_quote(failed: Seq<Seq<char>>, k: int)
    requires
        0 <= k < failed.len(),
    ensures
        contains_verbatim(attempt_lines(failed), failed[k]),
    decreases failed.len(),
{
    if k == failed.len() - 1 {
        lemma_attempt_line_quotes(failed.len() as int, failed.last());
        lemma_contains_append_right(
            attempt_lines(failed.drop_last()),
            attempt_line(failed.len() as int, failed.last()),
            failed.last(),
        );
    } else {
        lemma_attempt_lines_quote(failed.drop_last(), k);
        lemma_contains_append_left(
            attempt_lines(failed.drop_last()),
            attempt_line(failed.len() as int, failed.last()),
            failed[k],
        );
    }
}

/// The feedback section quotes every recorded failure verbatim: whatever a
/// model answered on a failed attempt stands unchanged, as a contiguous
/// substring, in the section appended to the next prompt.
pub proof fn lemma_feedback_quotes_failures(failed: Seq<Seq<char>>, k: int)
    requires
        0 <= k < failed.len(),
    ensures
        contains_verbatim(feedback_section(failed), failed[k]),
{
    let header =
        "\n\nPrevious attempts failed to generate valid JSON. Here are the failed responses:\n"@;
    let footer = "\nPlease ensure your response is a valid JSON array."@;
    lemma_attempt_lines_quote(failed, k);
    lemma_contains_append_left(attempt_lines(failed), footer, failed[k]);
    lemma_contains_append_right(header, attempt_lines(failed) + footer, failed[k]);
    assert(header + attempt_lines(failed) + footer =~= header + (attempt_lines(failed) + footer));
}

/// A retry prompt quotes every recorded failure verbatim: the prompt built
/// for the attempt after `k` failures embeds each of them unchanged.
pub proof fn lemma_translate_prompt_quotes_failures(
    ctx: Seq<char>,
    query: Seq<char>,
    failed: Seq<Seq<char>>,
    k: int,
)
    requires
        0 <= k < failed.len(),
    ensures
        contains_verbatim(generate_translate_prompt_spec(ctx, query, failed), failed[k]),
{
    let head = generate_translate_intro() + ctx + generate_translate_middle() + query;
    lemma_feedback_quotes_failures(failed, k);
    lemma_contains_append_right(head, feedback_section(failed), failed[k]);
    assert(generate_translate_prompt_spec(ctx, query, failed) =~= head + feedback_section(failed));
}

/// The opening of the local backend's translation template, before the
/// environment context.
pub open spec fn generate_translate_intro() -> Seq<char> {
    "You are a command-line assistant. Your task is to translate user queries into appropriate shell commands or recommend to use scripts for complex tasks. Details about user's environment: "@
}

/// The middle of the local backend's translation template, between the
/// environment context and the query.
pub open spec fn generate_translate_middle() -> Seq<char> {
    ". RESPOND ONLY WITH A VALID JSON ARRAY OF OPTIONS.\n\nIMPORTANT: Only suggest commands for operations that can be completed in a single shot, piping is okay. For any task requiring multiple steps, dependencies, or complex setup, recommend to use a script instead.\n\nEach command option must have these fields:\n- 'command': For single-shot tasks: the exact shell command. For complex tasks: a suggested script name\n- 'explanation': A brief description of what the command does and why it's recommended, for scripts an high level description of what it should do\n- 'confidence': A float between 0 and 1:\n  - >= 0.8 ONLY for simple, direct commands that can be executed in one shot\n  - 0.5-0.7 for tasks requiring scripts (multiple steps, dependencies, or complex setup)\n  - < 0.5 for uncertain suggestions\n\nExample response format:\n[{\"command\": \"#!/bin/bash\necho 'Installing Docker...'\nbrew install docker\nbrew install docker-compose\", \"explanation\": \"Script recommended: Docker installation requires multiple steps and dependency management\", \"confidence\": 0.6}]\n\nProvide up to 5 options. DO NOT include any text before or after the JSON array. Here's the query: "@
}

/// The local backend's translation prompt.
pub open spec fn generate_translate_prompt_spec(
    ctx: Seq<char>,
    query: Seq<char>,
    failed: Seq<Seq<char>>,
) -> Seq<char> {
    generate_translate_intro() + ctx + generate_translate_middle() + query + feedback_section(
        failed,
    )
}

/// Builds the local backend's translation prompt, as
/// [`generate_translate_prompt_spec`] states.
pub fn generate_translate_prompt(additional_context: &str, query: &str, failed: &Vec<String>) -> (p:
    String)
    requires
        failed@.len() <= MAX_ATTEMPTS,
    ensures
        p@ == generate_translate_prompt_spec(additional_context@, query@, string_views(failed@)),
{
    let mut p = String::from_str(
        "You are a command-line assistant. Your task is to translate user queries into appropriate shell commands or recommend to use scripts for complex tasks. Details about user's environment: ",
    );
    p.append(additional_context);
    p.append(
        ". RESPOND ONLY WITH A VALID JSON ARRAY OF OPTIONS.\n\nIMPORTANT: Only suggest commands for operations that can be completed in a single shot, piping is okay. For any task requiring multiple steps, dependencies, or complex setup, recommend to use a script instead.\n\nEach command option must have these fields:\n- 'command': For single-shot tasks: the exact shell command. For complex tasks: a suggested script name\n- 'explanation': A brief description of what the command does and why it's recommended, for scripts an high level description of what it should do\n- 'confidence': A float between 0 and 1:\n  - >= 0.8 ONLY for simple, direct commands that can be executed in one shot\n  - 0.5-0.7 for tasks requiring scripts (multiple steps, dependencies, or complex setup)\n  - < 0.5 for uncertain suggestions\n\nExample response format:\n[{\"command\": \"#!/bin/bash\necho 'Installing Docker...'\nbrew install docker\nbrew install docker-compose\", \"explanation\": \"Script recommended: Docker installation requires multiple steps and dependency management\", \"confidence\": 0.6}]\n\nProvide up to 5 options. DO NOT include any text before or after the JSON array. Here's the query: ",
    );
    p.append(query);
    append_feedback(&mut p, failed);
    p
}

/// The opening of the local backend's alias template, before the command.
pub open spec fn generate_alias_intro() -> Seq<char> {
    "You are a command-line expert. Only For the command '"@
}

/// The middle of the local backend's alias template, between the command and
/// the environment context.
pub open spec fn generate_alias_middle() -> Seq<char> {
    "', suggest (up to 3) useful aliases that would make working with this command more efficient.\n\nDon't suggest alias for other commands. Only the one provided earlier. Consider the following context about the user's environment, but only when applicable: "@
}

/// The close of the local backend's alias template, after the environment
/// context.
pub open spec fn generate_alias_outro() -> Seq<char> {
    ". IMPORTANT: Your response must be a valid JSON array containing objects with exactly these fields:\n- 'command' (string with alias definition)\n- 'explanation' (string describing what it does)\n- 'confidence' (number between 0 and 1)\n\nExample response: [{\"command\": \"alias ll='ls -la'\", \"explanation\": \"Lists all files in long format\", \"confidence\": 1.0}]. Ensure proper JSON escaping and shell syntax conventions. RESPOND ONLY IN JSON. DO NOT INCLUDE ANYTHING ELSE BESIDE JSON."@
}

/// The local backend's alias prompt.
pub open spec fn generate_alias_prompt_spec(
    command: Seq<char>,
    ctx: Seq<char>,
    failed: Seq<Seq<char>>,
) -> Seq<char> {
    generate_alias_intro() + command + generate_alias_middle() + ctx + generate_alias_outro()
        + feedback_section(failed)
}

/// Builds the local backend's alias prompt, as
/// [`generate_alias_prompt_spec`] states.
pub fn generate_alias_prompt(command: &str, additional_context: &str, failed: &Vec<String>) -> (p:
    String)
    requires
        failed@.len() <= MAX_ATTEMPTS,
    ensures
        p@ == generate_alias_prompt_spec(command@, additional_context@, string_views(failed@)),
{
    let mut p = String::from_str("You are a command-line expert. Only For the command '");
    p.append(command);
    p.append(
        "', suggest (up to 3) useful aliases that would make working with this command more efficient.\n\nDon't suggest alias for other commands. Only the one provided earlier. Consider the following context about the user's environment, but only when applicable: ",
    );
    p.append(additional_context);
    p.append(
        ". IMPORTANT: Your response must be a valid JSON array containing objects with exactly these fields:\n- 'command' (string with alias definition)\n- 'explanation' (string describing what it does)\n- 'confidence' (number between 0 and 1)\n\nExample response: [{\"command\": \"alias ll='ls -la'\", \"explanation\": \"Lists all files in long format\", \"confidence\": 1.0}]. Ensure proper JSON escaping and shell syntax conventions. RESPOND ONLY IN JSON. DO NOT INCLUDE ANYTHING ELSE BESIDE JSON.",
    );
    append_feedback(&mut p, failed);
    p
}

/// The local backend's explanation prompt.
pub open spec fn generate_explain_prompt_spec(command: Seq<char>, ctx: Seq<char>) -> Seq<char> {
    "You are a command-line expert. Explain briefly what this command does: '"@ + command
        + "'. Consider the following context about the user's environment: "@ + ctx
        + ". Keep it brief to a paragraph."@
}

/// Builds the local backend's explanation prompt, as
/// [`generate_explain_prompt_spec`] states.
pub fn generate_explain_prompt(command: &str, additional_context: &str) -> (p: String)
    ensures
        p@ == generate_explain_prompt_spec(command@, additional_context@),
{
    let mut p = String::from_str(
        "You are a command-line expert. Explain briefly what this command does: '",
    );
    p.append(command);
    p.append("'. Consider the following context about the user's environment: ");
    p.append(additional_context);
    p.append(". Keep it brief to a paragraph.");
    p
}

/// The opening of the hosted backend's translation system message, before
/// the environment context.
pub open spec fn chat_translate_intro() -> Seq<char> {
    "You are a helpful command-line assistant. Your task is to translate user queries into appropriate shell commands or recommend scripts for complex tasks. Details about user's environment: "@
}

/// The close of the hosted backend's translation system message, after the
/// environment context.
pub open spec fn chat_translate_outro() -> Seq<char> {
    ". RESPOND ONLY WITH A VALID JSON ARRAY OF COMMAND OPTIONS.\n\nIMPORTANT: Only suggest direct commands for operations that can be completed in a single shot. For any task requiring multiple steps, dependencies, or complex setup, recommend a script instead.\n\nEach command option must have these fields:\n- 'command': For single-shot tasks: the exact shell command. For complex tasks: a descriptive script outline\n- 'explanation': A brief description of what the command/script does and why it's recommended\n- 'confidence': A float between 0 and 1:\n  - >= 0.8 ONLY for simple, direct commands that can be executed in one shot\n  - 0.5-0.7 for tasks requiring scripts (multiple steps, dependencies, or complex setup)\n  - < 0.5 for uncertain suggestions\n\nExample response format:\n[{\"command\": \"#!/bin/bash\necho 'Installing Docker...'\nbrew install docker\nbrew install docker-compose\", \"explanation\": \"Script recommended: Docker installation requires multiple steps and dependency management\", \"confidence\": 0.6}]\n\nProvide 1-3 options. DO NOT include any text before or after the JSON array."@
}

/// The hosted backend's translation system message, with the feedback
/// section appended once attempts have failed.
pub open spec fn chat_translate_system_spec(ctx: Seq<char>, failed: Seq<Seq<char>>) -> Seq<char> {
    chat_translate_intro() + ctx + chat_translate_outro() + feedback_section(failed)
}

/// Builds the hosted backend's translation system message, as
/// [`chat_translate_system_spec`] states.
pub fn chat_translate_system(additional_context: &str, failed: &Vec<String>) -> (p: String)
    requires
        failed@.len() <= MAX_ATTEMPTS,
    ensures
        p@ == chat_translate_system_spec(additional_context@, string_views(failed@)),
{
    let mut p = String::from_str(
        "You are a helpful command-line assistant. Your task is to translate user queries into appropriate shell commands or recommend scripts for complex tasks. Details about user's environment: ",
    );
    p.append(additional_context);
    p.append(
        ". RESPOND ONLY WITH A VALID JSON ARRAY OF COMMAND OPTIONS.\n\nIMPORTANT: Only suggest direct commands for operations that can be completed in a single shot. For any task requiring multiple steps, dependencies, or complex setup, recommend a script instead.\n\nEach command option must have these fields:\n- 'command': For single-shot tasks: the exact shell command. For complex tasks: a descriptive script outline\n- 'explanation': A brief description of what the command/script does and why it's recommended\n- 'confidence': A float between 0 and 1:\n  - >= 0.8 ONLY for simple, direct commands that can be executed in one shot\n  - 0.5-0.7 for tasks requiring scripts (multiple steps, dependencies, or complex setup)\n  - < 0.5 for uncertain suggestions\n\nExample response format:\n[{\"command\": \"#!/bin/bash\necho 'Installing Docker...'\nbrew install docker\nbrew install docker-compose\", \"explanation\": \"Script recommended: Docker installation requires multiple steps and dependency management\", \"confidence\": 0.6}]\n\nProvide 1-3 options. DO NOT include any text before or after the JSON array.",
    );
    append_feedback(&mut p, failed);
    p
}

/// The hosted backend's alias system message.
pub open spec fn chat_alias_system_spec(ctx: Seq<char>) -> Seq<char> {
    "You are a command-line expert. Your task is to suggest useful aliases for shell commands. Consider the following context about the user's environment: "@
        + ctx + "."@
}

/// Builds the hosted backend's alias system message, as
/// [`chat_alias_system_spec`] states.
pub fn chat_alias_system(additional_context: &str) -> (p: String)
    ensures
        p@ == chat_alias_system_spec(additional_context@),
{
    let mut p = String::from_str(
        "You are a command-line expert. Your task is to suggest useful aliases for shell commands. Consider the following context about the user's environment: ",
    );
    p.append(additional_context);
    p.append(".");
    p
}

/// The hosted backend's alias user message, with the feedback section
/// appended once attempts have failed.
pub open spec fn chat_alias_user_spec(command: Seq<char>, failed: Seq<Seq<char>>) -> Seq<char> {
    "For the command '"@ + command
        + "', suggest up to 5 useful aliases that would make working with this command more efficient. Format your response as a valid JSON array where each item has a 'command' field with the alias definition (e.g., 'alias ll='ls -la''), an 'explanation' field describing what it does, and a 'confidence' field between 0 and 1 (1.0 for common aliases, 0.8-0.9 for useful but less common ones). Ensure they follow shell syntax conventions."@
        + feedback_section(failed)
}

/// Builds the hosted backend's alias user message, as
/// [`chat_alias_user_spec`] states.
pub fn chat_alias_user(command: &str, failed: &Vec<String>) -> (p: String)
    requires
        failed@.len() <= MAX_ATTEMPTS,
    ensures
        p@ == chat_alias_user_spec(command@, string_views(failed@)),
{
    let mut p = String::from_str("For the command '");
    p.append(command);
    p.append(
        "', suggest up to 5 useful aliases that would make working with this command more efficient. Format your response as a valid JSON array where each item has a 'command' field with the alias definition (e.g., 'alias ll='ls -la''), an 'explanation' field describing what it does, and a 'confidence' field between 0 and 1 (1.0 for common aliases, 0.8-0.9 for useful but less common ones). Ensure they follow shell syntax conventions.",
    );
    append_feedback(&mut p, failed);
    p
}

/// The hosted backend's explanation system message.
pub open spec fn chat_explain_system_spec(command: Seq<char>, ctx: Seq<char>) -> Seq<char> {
    "You are a command-line expert. Explain in detail what this command does: '"@ + command
        + "'. Consider the following context about the user's environment: "@ + ctx
        + ". Format your explanation to cover: 1) Main purpose 2) How it works 3) Important flags/options 4) Potential risks or considerations"@
}

/// Builds the hosted backend's explanation system message, as
/// [`chat_explain_system_spec`] states.
pub fn chat_explain_system(command: &str, additional_context: &str) -> (p: String)
    ensures
        p@ == chat_explain_system_spec(command@, additional_context@),
{
    let mut p = String::from_str(
        "You are a command-line expert. Explain in detail what this command does: '",
    );
    p.append(command);
    p.append("'. Consider the following context about the user's environment: ");
    p.append(additional_context);
    p.append(
        ". Format your explanation to cover: 1) Main purpose 2) How it works 3) Important flags/options 4) Potential risks or considerations",
    );
    p
}

} // verus!
