//! Decoding model replies: the trusted calls into serde_json, the conversion
//! of decoded fields into suggestion values, and the full repair pipeline
//! that takes a raw reply text to a non-empty list of suggestions or to a
//! recorded failure.

use vstd::prelude::*;

use crate::confidence::confidence_from_text;
use crate::response::{CommandOption, OptionModel};
use crate::text::{chars_of, extract_array, extract_array_spec, normalize_chars, normalize_spec,
    string_of};

verus! {

/// The string under the top-level "response" key of a JSON document, if the
/// document and the key are there: the envelope of a local generate endpoint.
pub uninterp spec fn generate_reply_text(body: Seq<char>) -> Option<Seq<char>>;

/// The string under "choices[0].message.content" of a JSON document, if that
/// path is there: the envelope of a hosted chat-completion endpoint.
pub uninterp spec fn chat_reply_text(body: Seq<char>) -> Option<Seq<char>>;

/// The decoded form of a JSON array of option objects: for each element, the
/// string under "command", the string under "explanation", and the number
/// under "confidence" as its JSON number text.  `None` when `s` is not such
/// an array.
pub uninterp spec fn raw_options_of(s: Seq<char>) -> Option<
    Seq<(Seq<char>, Seq<char>, Seq<char>)>,
>;

/// Relies on serde_json's `from_str`, `Value::get` and `Value::as_str`:
/// parses `body` as JSON and hands back the string under its top-level
/// "response" key.
#[verifier::external_body]
pub fn extract_generate_reply(body: &str) -> (r: Option<String>)
    ensures
        r matches Some(t) ==> generate_reply_text(body@) == Some(t@),
        r is None ==> generate_reply_text(body@) is None,
{
    let v: serde_json::Value = serde_json::from_str(body).ok()?;
    let t = v.get("response")?.as_str()?;
    Some(t.to_string())
}

/// Relies on serde_json's `from_str`, `Value::get` and `Value::as_str`:
/// parses `body` as JSON and hands back the string under
/// "choices[0].message.content".
#[verifier::external_body]
pub fn extract_chat_reply(body: &str) -> (r: Option<String>)
    ensures
        r matches Some(t) ==> chat_reply_text(body@) == Some(t@),
        r is None ==> chat_reply_text(body@) is None,
{
    let v: serde_json::Value = serde_json::from_str(body).ok()?;
    let t = v.get("choices")?.get(0)?.get("message")?.get("content")?.as_str()?;
    Some(t.to_string())
}

/// The views of decoded option triples.
pub open spec fn raw_views(v: Seq<(String, String, String)>) -> Seq<
    (Seq<char>, Seq<char>, Seq<char>),
> {
    v.map_values(|t: (String, String, String)| (t.0@, t.1@, t.2@))
}

/// Relies on serde_json's `from_str`, `Value::as_array`, `Value::get`,
/// `Value::as_str`, `Value::is_number` and `Value`'s display form: decodes
/// `s` as a JSON array of objects carrying a string under "command", a
/// string under "explanation" and a number under "confidence", and hands
/// each element back as plain strings, the confidence as its number text.
#[verifier::external_body]
pub fn decode_option_array(s: &str) -> (r: Option<Vec<(String, String, String)>>)
    ensures
        r matches Some(v) ==> raw_options_of(s@) == Some(raw_views(v@)),
        r is None ==> raw_options_of(s@) is None,
{
    let v: serde_json::Value = serde_json::from_str(s).ok()?;
    let arr = v.as_array()?;
    let mut out: Vec<(String, String, String)> = Vec::new();
    for item in arr {
        let c = item.get("command")?.as_str()?;
        let e = item.get("explanation")?.as_str()?;
        let n = item.get("confidence")?;
        if !n.is_number() {
            return None;
        }
        out.push((c.to_string(), e.to_string(), n.to_string()));
    }
    Some(out)
}

/// The views of finished suggestion values.
pub open spec fn option_views(v: Seq<CommandOption>) -> Seq<OptionModel> {
    v.map_values(|o: CommandOption| o@)
}

/// The suggestion models carried by decoded triples: `None` as soon as one
/// confidence text is not a plain decimal number.
pub open spec fn models_of(raw: Seq<(Seq<char>, Seq<char>, Seq<char>)>) -> Option<Seq<OptionModel>>
    decreases raw.len(),
{
    if raw.len() == 0 {
        Some(Seq::<OptionModel>::empty())
    } else {
        match (models_of(raw.drop_last()), confidence_from_text(raw.last().2)) {
            (Some(ms), Some(c)) => Some(
                ms.push(
                    OptionModel {
                        command: raw.last().0,
                        explanation: raw.last().1,
                        confidence: c,
                    },
                ),
            ),
            _ => None,
        }
    }
}

proof fn lemma_models_none_propagates(raw: Seq<(Seq<char>, Seq<char>, Seq<char>)>, k: int)
    requires
        0 <= k <= raw.len(),
        models_of(raw.take(k)) is None,
    ensures
        models_of(raw) is None,
    decreases raw.len() - k,
{
    if k < raw.len() {
        assert(raw.take(k + 1).drop_last() =~= raw.take(k));
        lemma_models_none_propagates(raw, k + 1);
    } else {
        assert(raw.take(k) =~= raw);
    }
}

/// Builds suggestion values out of decoded triples, reading each confidence
/// text; fails exactly when [`models_of`] does.
pub fn convert_options(raw: Vec<(String, String, String)>) -> (r: Option<Vec<CommandOption>>)
    ensures
        match r {
            Some(v) => models_of(raw_views(raw@)) == Some(option_views(v@)),
            None => models_of(raw_views(raw@)) is None,
        },
{
    let ghost rv = raw_views(raw@);
    proof {
        assert(rv.take(0) =~= Seq::<(Seq<char>, Seq<char>, Seq<char>)>::empty());
        assert(option_views(Seq::<CommandOption>::empty()) =~= Seq::<OptionModel>::empty());
    }
    let mut out: Vec<CommandOption> = Vec::new();
    let n = raw.len();
    for i in 0..n
        invariant
            n == raw@.len(),
            rv == raw_views(raw@),
            models_of(rv.take(i as int)) == Some(option_views(out@)),
            out@.len() == i,
    {
        proof {
            assert(rv[i as int] == (raw@[i as int].0@, raw@[i as int].1@, raw@[i as int].2@));
        }
        let c = match crate::confidence::parse_confidence(raw[i].2.as_str()) {
            Some(c) => c,
            None => {
                proof {
                    assert(rv.take(i as int + 1).drop_last() =~= rv.take(i as int));
                    assert(rv.take(i as int + 1).last() == rv[i as int]);
                    assert(models_of(rv.take(i as int + 1)) is None);
                    lemma_models_none_propagates(rv, i as int + 1);
                }
                return None;
            },
        };
        let opt = CommandOption {
            command: raw[i].0.clone(),
            explanation: raw[i].1.clone(),
            confidence: c,
        };
        out.push(opt);
        proof {
            assert(rv.take(i as int + 1).drop_last() =~= rv.take(i as int));
            assert(rv.take(i as int + 1).last() == rv[i as int]);
            assert(option_views(out@) =~= option_views(out@.drop_last()).push(opt@));
        }
    }
    proof {
        assert(rv.take(n as int) =~= rv);
    }
    Some(out)
}

/// One parse attempt on one text: decode the array, then read every
/// confidence.
pub open spec fn attempt_models(t: Seq<char>) -> Option<Seq<OptionModel>> {
    match raw_options_of(t) {
        Some(raw) => models_of(raw),
        None => None,
    }
}

/// The bracket-extraction fallback on an already-normalized text.
pub open spec fn fallback_models(n: Seq<char>) -> Option<Seq<OptionModel>> {
    match extract_array_spec(n) {
        Some(sub) => match attempt_models(sub) {
            Some(v) => if v.len() > 0 {
                Some(v)
            } else {
                None
            },
            None => None,
        },
        None => None,
    }
}

/// The whole repair pipeline on one reply text: normalize, parse, and fall
/// back to bracket extraction when parsing fails.  A parse that succeeds but
/// yields no suggestion counts as a failure without fallback.
pub open spec fn repaired_models(s: Seq<char>) -> Option<Seq<OptionModel>> {
    let n = normalize_spec(s);
    match attempt_models(n) {
        Some(v) => if v.len() > 0 {
            Some(v)
        } else {
            None
        },
        None => fallback_models(n),
    }
}

fn parse_extracted(norm: &Vec<char>) -> (r: Option<Vec<CommandOption>>)
    ensures
        match r {
            Some(v) => fallback_models(norm@) == Some(option_views(v@)) && v@.len() > 0,
            None => fallback_models(norm@) is None,
        },
{
    let sub = match extract_array(norm) {
        Some(sub) => sub,
        None => {
            return None;
        },
    };
    let sub_str = string_of(&sub);
    let raw = match decode_option_array(sub_str.as_str()) {
        Some(raw) => raw,
        None => {
            return None;
        },
    };
    match convert_options(raw) {
        Some(v) => if v.len() > 0 {
            Some(v)
        } else {
            None
        },
        None => None,
    }
}

/// Takes one raw reply text through normalization, parsing and the bracket
/// fallback, exactly as [`repaired_models`] states; `None` is the outcome
/// that the retry protocol records as a failed attempt.
pub fn parse_options(payload: &str) -> (r: Option<Vec<CommandOption>>)
    ensures
        match r {
            Some(v) => repaired_models(payload@) == Some(option_views(v@)) && v@.len() > 0,
            None => repaired_models(payload@) is None,
        },
{
    let chars = chars_of(payload);
    let norm = normalize_chars(&chars);
    let norm_str = string_of(&norm);
    match decode_option_array(norm_str.as_str()) {
        Some(raw) => match convert_options(raw) {
            Some(v) => if v.len() > 0 {
                Some(v)
            } else {
                None
            },
            None => parse_extracted(&norm),
        },
        None => parse_extracted(&norm),
    }
}

} // verus!
