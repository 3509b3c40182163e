//! Building the JSON request bodies sent to a model endpoint, with a
//! verified JSON string encoder: every prompt is escaped exactly as
//! [`json_escape_spec`] states, so a body is well-formed JSON whatever the
//! prompt holds.

use vstd::prelude::*;
use vstd::string::StringExecFns;

use crate::text::{chars_of, push_char_string};

verus! {

/// A lower-case hexadecimal digit.
pub open spec fn hex_digit(d: int) -> char
    recommends
        0 <= d < 16,
{
    if d < 10 {
        ((d + 48) as u8) as char
    } else {
        ((d + 87) as u8) as char
    }
}

/// The JSON string encoding of one character.
pub open spec fn escape_char(c: char) -> Seq<char> {
    if c == '"' {
        seq!['\\', '"']
    } else if c == '\\' {
        seq!['\\', '\\']
    } else if c == '\n' {
        seq!['\\', 'n']
    } else if c == '\r' {
        seq!['\\', 'r']
    } else if c == '\t' {
        seq!['\\', 't']
    } else if (c as u32) < 32 {
        seq!['\\', 'u', '0', '0', hex_digit(c as u32 as int / 16), hex_digit(c as u32 as int % 16)]
    } else {
        seq![c]
    }
}

/// The JSON string encoding of `s`, character by character.
pub open spec fn json_escape_spec(s: Seq<char>) -> Seq<char>
    decreases s.len(),
{
    if s.len() == 0 {
        Seq::<char>::empty()
    } else {
        escape_char(s[0]) + json_escape_spec(s.drop_first())
    }
}

fn push_escaped(out: &mut String, c: char)
    ensures
        final(out)@ == old(out)@ + escape_char(c),
{
    let ghost start = out@;
    if c == '"' {
        push_char_string(out, '\\');
        push_char_string(out, '"');
    } else if c == '\\' {
        push_char_string(out, '\\');
        push_char_string(out, '\\');
    } else if c == '\n' {
        push_char_string(out, '\\');
        push_char_string(out, 'n');
    } else if c == '\r' {
        push_char_string(out, '\\');
        push_char_string(out, 'r');
    } else if c == '\t' {
        push_char_string(out, '\\');
        push_char_string(out, 't');
    } else if (c as u32) < 32 {
        let hi = (c as u32) / 16;
        let lo = (c as u32) % 16;
        let hi_c = if hi < 10 {
            ((hi + 48) as u8) as char
        } else {
            ((hi + 87) as u8) as char
        };
        let lo_c = if lo < 10 {
            ((lo + 48) as u8) as char
        } else {
            ((lo + 87) as u8) as char
        };
        push_char_string(out, '\\');
        push_char_string(out, 'u');
        push_char_string(out, '0');
        push_char_string(out, '0');
        push_char_string(out, hi_c);
        push_char_string(out, lo_c);
    } else {
        push_char_string(out, c);
    }
    proof {
        assert(final(out)@ =~= start + escape_char(c));
    }
}

/// Appends the JSON string encoding of `s`.
pub fn append_escaped(out: &mut String, s: &str)
    ensures
        final(out)@ == old(out)@ + json_escape_spec(s@),
{
    let v = chars_of(s);
    let ghost start = out@;
    let n = v.len();
    for i in 0..n
        invariant
            n == v@.len(),
            v@ == s@,
            out@ == start + json_escape_spec(v@.take(i as int)),
    {
        push_escaped(out, v[i]);
        proof {
            lemma_json_escape_snoc(v@.take(i as int + 1));
            assert(v@.take(i as int + 1).drop_last() =~= v@.take(i as int));
            assert(v@.take(i as int + 1).last() == v@[i as int]);
            assert(out@ =~= start + json_escape_spec(v@.take(i as int + 1)));
        }
    }
    proof {
        assert(v@.take(n as int) =~= v@);
    }
}

proof fn lemma_json_escape_snoc(s: Seq<char>)
    requires
        s.len() > 0,
    ensures
        json_escape_spec(s) == json_escape_spec(s.drop_last()) + escape_char(s.last()),
    decreases s.len(),
{
    if s.len() == 1 {
        assert(s.drop_first() =~= Seq::<char>::empty());
        assert(s.drop_last() =~= Seq::<char>::empty());
        assert(s[0] == s.last());
        assert(json_escape_spec(s) =~= json_escape_spec(s.drop_last()) + escape_char(s.last()));
    } else {
        lemma_json_escape_snoc(s.drop_first());
        assert(s.drop_first().drop_last() =~= s.drop_last().drop_first());
        assert(s.drop_first().last() == s.last());
        assert(s.drop_last()[0] == s[0]);
        assert(json_escape_spec(s) == escape_char(s[0]) + json_escape_spec(s.drop_first()));
        assert(json_escape_spec(s.drop_last()) == escape_char(s[0]) + json_escape_spec(
            s.drop_last().drop_first(),
        ));
        assert(json_escape_spec(s) =~= json_escape_spec(s.drop_last()) + escape_char(s.last()));
    }
}

/// The body of a generate call: the model, the full prompt, and streaming
/// switched off.
pub open spec fn generate_body_spec(model: Seq<char>, prompt: Seq<char>) -> Seq<char> {
    "{\"model\":\""@ + json_escape_spec(model) + "\",\"prompt\":\""@ + json_escape_spec(prompt)
        + "\",\"stream\":false}"@
}

/// Builds the generate-call body, as [`generate_body_spec`] states.
pub fn generate_body(model: &str, prompt: &str) -> (b: String)
    ensures
        b@ == generate_body_spec(model@, prompt@),
{
    let mut b = String::from_str("{\"model\":\"");
    append_escaped(&mut b, model);
    b.append("\",\"prompt\":\"");
    append_escaped(&mut b, prompt);
    b.append("\",\"stream\":false}");
    b
}

/// One chat message with the given role and content.
pub open spec fn chat_message_spec(role: Seq<char>, content: Seq<char>) -> Seq<char> {
    "{\"role\":\""@ + json_escape_spec(role) + "\",\"content\":\""@ + json_escape_spec(content)
        + "\"}"@
}

fn append_chat_message(out: &mut String, role: &str, content: &str)
    ensures
        final(out)@ == old(out)@ + chat_message_spec(role@, content@),
{
    out.append("{\"role\":\"");
    append_escaped(out, role);
    out.append("\",\"content\":\"");
    append_escaped(out, content);
    out.append("\"}");
}

/// The body of a chat call holding a single system message.
pub open spec fn chat_body_one_spec(model: Seq<char>, system: Seq<char>) -> Seq<char> {
    "{\"model\":\""@ + json_escape_spec(model) + "\",\"messages\":["@ + chat_message_spec(
        "system"@,
        system,
    ) + "]}"@
}

/// Builds a chat body with one system message.
pub fn chat_body_one(model: &str, system: &str) -> (b: String)
    ensures
        b@ == chat_body_one_spec(model@, system@),
{
    let mut b = String::from_str("{\"model\":\"");
    append_escaped(&mut b, model);
    b.append("\",\"messages\":[");
    append_chat_message(&mut b, "system", system);
    b.append("]}");
    b
}

/// The body of a chat call holding a system and a user message.
pub open spec fn chat_body_two_spec(model: Seq<char>, system: Seq<char>, user: Seq<char>) -> Seq<
    char,
> {
    "{\"model\":\""@ + json_escape_spec(model) + "\",\"messages\":["@ + chat_message_spec(
        "system"@,
        system,
    ) + ","@ + chat_message_spec("user"@, user) + "]}"@
}

/// Builds a chat body with a system and a user message.
pub fn chat_body_two(model: &str, system: &str, user: &str) -> (b: String)
    ensures
        b@ == chat_body_two_spec(model@, system@, user@),
{
    let mut b = String::from_str("{\"model\":\"");
    append_escaped(&mut b, model);
    b.append("\",\"messages\":[");
    append_chat_message(&mut b, "system", system);
    b.append(",");
    append_chat_message(&mut b, "user", user);
    b.append("]}");
    b
}

/// The body of a chat call holding a system and a user message and a fixed
/// sampling temperature of 0.7.
pub open spec fn chat_body_two_temp_spec(
    model: Seq<char>,
    system: Seq<char>,
    user: Seq<char>,
) -> Seq<char> {
    "{\"model\":\""@ + json_escape_spec(model) + "\",\"messages\":["@ + chat_message_spec(
        "system"@,
        system,
    ) + ","@ + chat_message_spec("user"@, user) + "],\"temperature\":0.7}"@
}

/// Builds a chat body with a system and a user message and the fixed
/// sampling temperature.
pub fn chat_body_two_temp(model: &str, system: &str, user: &str) -> (b: String)
    ensures
        b@ == chat_body_two_temp_spec(model@, system@, user@),
{
    let mut b = String::from_str("{\"model\":\"");
    append_escaped(&mut b, model);
    b.append("\",\"messages\":[");
    append_chat_message(&mut b, "system", system);
    b.append(",");
    append_chat_message(&mut b, "user", user);
    b.append("],\"temperature\":0.7}");
    b
}

} // verus!
