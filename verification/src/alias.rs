//! Alias scoping: an alias suggestion is kept only when its command text
//! mentions the base command it was asked about, so a request about one
//! command never hands back an alias for another.

use vstd::prelude::*;

use crate::response::{CommandOption, OptionModel};
use crate::text::{chars_of, is_blank, subrange_chars, trim_chars, trim_spec};

verus! {

/// The characters a command word is made of.
pub open spec fn is_word_char(c: char) -> bool {
    ('a' as u32 <= c as u32 && c as u32 <= 'z' as u32) || ('A' as u32 <= c as u32 && c as u32
        <= 'Z' as u32) || ('0' as u32 <= c as u32 && c as u32 <= '9' as u32) || c == '_' || c == '-'
        || c == '.'
}

fn is_word_char_exec(c: char) -> (b: bool)
    ensures
        b == is_word_char(c),
{
    let u = c as u32;
    (97 <= u && u <= 122) || (65 <= u && u <= 90) || (48 <= u && u <= 57) || c == '_' || c == '-'
        || c == '.'
}

/// The word `tok` occurs in `s` at position `i`, bounded by non-word
/// characters or the ends of `s`.
pub open spec fn token_at(s: Seq<char>, i: int, tok: Seq<char>) -> bool {
    &&& 0 <= i
    &&& i + tok.len() <= s.len()
    &&& s.subrange(i, i + tok.len()) == tok
    &&& (i == 0 || !is_word_char(s[i - 1]))
    &&& (i + tok.len() == s.len() || !is_word_char(s[i + tok.len()]))
}

/// The word `tok` occurs somewhere in `s`.
pub open spec fn contains_token(s: Seq<char>, tok: Seq<char>) -> bool {
    exists|i: int| token_at(s, i, tok)
}

/// The position of the first blank in `s`, if any.
pub open spec fn first_blank(s: Seq<char>) -> Option<int>
    decreases s.len(),
{
    if s.len() == 0 {
        None
    } else if is_blank(s[0]) {
        Some(0int)
    } else {
        match first_blank(s.drop_first()) {
            Some(k) => Some(k + 1),
            None => None,
        }
    }
}

/// The base of a command line: its first whitespace-delimited word, after
/// trimming.
pub open spec fn base_token(cmd: Seq<char>) -> Seq<char> {
    let t = trim_spec(cmd);
    match first_blank(t) {
        Some(i) => t.take(i),
        None => t,
    }
}

/// An alias suggestion for `cmd` is in scope when its own command text
/// mentions the base of `cmd` as a whole word.
pub open spec fn alias_in_scope(cmd: Seq<char>, alias_cmd: Seq<char>) -> bool {
    base_token(cmd).len() > 0 && contains_token(alias_cmd, base_token(cmd))
}

proof fn lemma_first_blank_at(s: Seq<char>, i: int)
    requires
        0 <= i < s.len(),
        is_blank(s[i]),
        forall|j: int| 0 <= j < i ==> !is_blank(#[trigger] s[j]),
    ensures
        first_blank(s) == Some(i),
    decreases s.len(),
{
    if i > 0 {
        lemma_first_blank_at(s.drop_first(), i - 1);
    }
}

proof fn lemma_first_blank_none(s: Seq<char>)
    requires
        forall|j: int| 0 <= j < s.len() ==> !is_blank(#[trigger] s[j]),
    ensures
        first_blank(s) is None,
    decreases s.len(),
{
    if s.len() > 0 {
        lemma_first_blank_none(s.drop_first());
    }
}

/// The base word of a command line, as [`base_token`] states.
pub fn base_of(command: &str) -> (b: Vec<char>)
    ensures
        b@ == base_token(command@),
{
    let v = chars_of(command);
    let t = trim_chars(&v);
    let n = t.len();
    for i in 0..n
        invariant
            n == t@.len(),
            v@ == command@,
            t@ == trim_spec(v@),
            forall|j: int| 0 <= j < i ==> !is_blank(#[trigger] t@[j]),
    {
        let c = t[i];
        if c == ' ' || c == '\t' || c == '\n' || c == '\r' {
            proof {
                lemma_first_blank_at(t@, i as int);
                assert(t@.subrange(0, i as int) =~= t@.take(i as int));
            }
            return subrange_chars(&t, 0, i);
        }
    }
    proof {
        lemma_first_blank_none(t@);
        assert(t@.take(n as int) =~= t@);
    }
    t
}

fn matches_at(s: &Vec<char>, i: usize, tok: &Vec<char>) -> (b: bool)
    requires
        i + tok@.len() <= s@.len(),
    ensures
        b == (s@.subrange(i as int, i as int + tok@.len() as int) == tok@),
{
    let m = tok.len();
    let sn = s.len();
    for k in 0..m
        invariant
            i + m <= sn,
            sn == s@.len(),
            m == tok@.len(),
            forall|j: int| 0 <= j < k ==> s@[i + j] == #[trigger] tok@[j],
    {
        if s[i + k] != tok[k] {
            proof {
                assert(s@.subrange(i as int, i as int + m as int)[k as int] == s@[i + k]);
            }
            return false;
        }
    }
    proof {
        assert(s@.subrange(i as int, i as int + m as int) =~= tok@);
    }
    true
}

/// Whether `tok` occurs in `s` as a whole word, as [`contains_token`]
/// states.
pub fn has_token(s: &Vec<char>, tok: &Vec<char>) -> (b: bool)
    requires
        tok@.len() >= 1,
    ensures
        b == contains_token(s@, tok@),
{
    let n = s.len();
    let m = tok.len();
    if m > n {
        proof {
            assert forall|i: int| !token_at(s@, i, tok@) by {}
        }
        return false;
    }
    let mut i: usize = 0;
    while i <= n - m
        invariant
            1 <= m <= n,
            n == s@.len(),
            m == tok@.len(),
            i <= n - m + 1,
            forall|j: int| 0 <= j < i ==> !token_at(s@, j, tok@),
        decreases n + 1 - m - i,
    {
        let boundary_left = i == 0 || !is_word_char_exec(s[i - 1]);
        let boundary_right = i + m == n || !is_word_char_exec(s[i + m]);
        if boundary_left && boundary_right && matches_at(s, i, tok) {
            proof {
                assert(token_at(s@, i as int, tok@));
            }
            return true;
        }
        i = i + 1;
    }
    proof {
        assert forall|j: int| !token_at(s@, j, tok@) by {
            if 0 <= j < i {
            } else if j >= i {
                assert(j + tok@.len() > s@.len() || j < i);
            }
        }
    }
    false
}

/// The subsequence of `opts` whose command text keeps the base of `cmd` in
/// scope, in order.
pub open spec fn in_scope_filter(cmd: Seq<char>, opts: Seq<OptionModel>) -> Seq<OptionModel>
    decreases opts.len(),
{
    if opts.len() == 0 {
        Seq::<OptionModel>::empty()
    } else {
        let rest = in_scope_filter(cmd, opts.drop_last());
        if alias_in_scope(cmd, opts.last().command) {
            rest.push(opts.last())
        } else {
            rest
        }
    }
}

/// Everything that the scope filter keeps is in scope.
pub proof fn lemma_in_scope_filter_sound(cmd: Seq<char>, opts: Seq<OptionModel>)
    ensures
        forall|i: int|
            0 <= i < in_scope_filter(cmd, opts).len() ==> alias_in_scope(
                cmd,
                #[trigger] in_scope_filter(cmd, opts)[i].command,
            ),
    decreases opts.len(),
{
    if opts.len() > 0 {
        lemma_in_scope_filter_sound(cmd, opts.drop_last());
        let rest = in_scope_filter(cmd, opts.drop_last());
        let whole = in_scope_filter(cmd, opts);
        if alias_in_scope(cmd, opts.last().command) {
            assert(whole == rest.push(opts.last()));
            assert forall|i: int| 0 <= i < whole.len() implies alias_in_scope(
                cmd,
                whole[i].command,
            ) by {
                if i < rest.len() {
                    assert(whole[i] == rest[i]);
                } else {
                    assert(whole[i] == opts.last());
                }
            }
        } else {
            assert(whole == rest);
        }
    }
}

/// Keeps exactly the suggestions whose command text mentions the base of
/// `command`, in their original order, as [`in_scope_filter`] states.
pub fn scope_aliases(command: &str, options: Vec<CommandOption>) -> (r: Vec<CommandOption>)
    ensures
        crate::decode::option_views(r@) == in_scope_filter(
            command@,
            crate::decode::option_views(options@),
        ),
        forall|i: int|
            0 <= i < r@.len() ==> alias_in_scope(command@, #[trigger] r@[i].command@),
{
    let base = base_of(command);
    let ghost models = crate::decode::option_views(options@);
    let mut r: Vec<CommandOption> = Vec::new();
    proof {
        assert(models.take(0) =~= Seq::<OptionModel>::empty());
        assert(crate::decode::option_views(r@) =~= Seq::<OptionModel>::empty());
    }
    let n = options.len();
    for i in 0..n
        invariant
            n == options@.len(),
            models == crate::decode::option_views(options@),
            base@ == base_token(command@),
            crate::decode::option_views(r@) == in_scope_filter(command@, models.take(i as int)),
            forall|j: int|
                0 <= j < r@.len() ==> alias_in_scope(command@, #[trigger] r@[j].command@),
    {
        proof {
            assert(models.take(i as int + 1).drop_last() =~= models.take(i as int));
            assert(models.take(i as int + 1).last() == models[i as int]);
            assert(models[i as int] == options@[i as int]@);
        }
        let o = &options[i];
        let cmd_chars = chars_of(o.command.as_str());
        let keep = if base.len() > 0 {
            has_token(&cmd_chars, &base)
        } else {
            false
        };
        if keep {
            let copy = CommandOption {
                command: o.command.clone(),
                explanation: o.explanation.clone(),
                confidence: o.confidence,
            };
            r.push(copy);
            proof {
                assert(crate::decode::option_views(r@) =~= crate::decode::option_views(
                    r@.drop_last(),
                ).push(models[i as int]));
            }
        }
    }
    proof {
        assert(models.take(n as int) =~= models);
    }
    r
}

} // verus!
