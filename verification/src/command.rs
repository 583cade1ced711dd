//! Whitespace tokenization of the probe command.
//!
//! The probe command is one string, split on runs of whitespace (the
//! Unicode `White_Space` characters): the first token is the executable,
//! the rest are its arguments.  This is a documented limitation — there is
//! no shell quoting or escaping.  A command with no token at all cannot be
//! launched and is rejected.

use vstd::prelude::*;

verus! {

/// Why a probe command cannot be launched.
#[derive(Clone, Copy, Debug, PartialEq, Eq, Structural)]
pub enum LaunchError {
    /// The command string holds no token: it is empty or all whitespace.
    EmptyCommand,
}

/// The characters the tokenizer splits on: the Unicode `White_Space` set.
pub open spec fn is_space(c: char) -> bool {
    let u = c as u32;
    (0x9 <= u && u <= 0xd) || u == 0x20 || u == 0x85 || u == 0xa0 || u == 0x1680 || (0x2000 <= u
        && u <= 0x200a) || u == 0x2028 || u == 0x2029 || u == 0x202f || u == 0x205f || u == 0x3000
}

/// The whitespace-separated tokens of `s`, in order: the maximal runs of
/// non-whitespace characters.
pub open spec fn tokens_of(s: Seq<char>) -> Seq<Seq<char>>
    decreases s.len(),
{
    if s.len() == 0 {
        Seq::empty()
    } else {
        let t = tokens_of(s.drop_last());
        let c = s.last();
        if is_space(c) {
            t
        } else if s.len() > 1 && !is_space(s[s.len() - 2]) {
            t.update(t.len() - 1, t.last().push(c))
        } else {
            t.push(seq![c])
        }
    }
}

/// A string ending in a non-whitespace character has a last token, and that
/// token ends in that character.
pub proof fn lemma_tokens_nonempty(s: Seq<char>)
    requires
        s.len() > 0,
        !is_space(s.last()),
    ensures
        tokens_of(s).len() > 0,
        tokens_of(s).last().len() > 0,
        tokens_of(s).last().last() == s.last(),
    decreases s.len(),
{
    if s.len() > 1 && !is_space(s[s.len() - 2]) {
        lemma_tokens_nonempty(s.drop_last());
    }
}

/// A token is a nonempty run of non-whitespace characters.
pub open spec fn token_wf(t: Seq<char>) -> bool {
    t.len() > 0 && forall|j: int| 0 <= j < t.len() ==> !is_space(#[trigger] t[j])
}

/// Law: every token the tokenizer yields is nonempty and holds no
/// whitespace.
pub proof fn lemma_tokens_are_words(s: Seq<char>)
    ensures
        forall|k: int| 0 <= k < tokens_of(s).len() ==> token_wf(#[trigger] tokens_of(s)[k]),
    decreases s.len(),
{
    if s.len() == 0 {
    } else {
        let front = s.drop_last();
        let t = tokens_of(front);
        let c = s.last();
        lemma_tokens_are_words(front);
        if is_space(c) {
        } else if s.len() > 1 && !is_space(s[s.len() - 2]) {
            lemma_tokens_nonempty(front);
            assert(token_wf(t.last().push(c)));
        } else {
            assert(token_wf(seq![c]));
        }
    }
}

/// Whether `c` is one of the characters the tokenizer splits on.
pub fn is_space_char(c: char) -> (r: bool)
    ensures
        r == is_space(c),
{
    let u = c as u32;
    (0x9 <= u && u <= 0xd) || u == 0x20 || u == 0x85 || u == 0xa0 || u == 0x1680 || (0x2000 <= u
        && u <= 0x200a) || u == 0x2028 || u == 0x2029 || u == 0x202f || u == 0x205f || u == 0x3000
}

/// Splits `s` into its whitespace-separated tokens.
pub fn split_command(s: &str) -> (tokens: Vec<String>)
    ensures
        tokens.deep_view() == tokens_of(s@),
{
    let n = s.unicode_len();
    let mut tokens: Vec<String> = Vec::new();
    let mut cur: Option<usize> = None;
    let mut i: usize = 0;
    while i < n
        invariant
            n == s@.len(),
            i <= n,
            (match cur {
                None => tokens.deep_view() == tokens_of(s@.take(i as int)) && (i == 0 || is_space(
                    s@[i as int - 1],
                )),
                Some(st) => st < i && (st == 0 || is_space(s@[st as int - 1])) && (forall|j: int|
                    st <= j < i ==> !is_space(#[trigger] s@[j])) && tokens_of(s@.take(i as int))
                    == tokens.deep_view().push(s@.subrange(st as int, i as int)),
            }),
        decreases n - i,
    {
        let c = s.get_char(i);
        proof {
            assert(s@.take(i as int + 1).drop_last() =~= s@.take(i as int));
            assert(s@.take(i as int + 1).last() == s@[i as int]);
        }
        if is_space_char(c) {
            if let Some(st) = cur {
                let tok = s.substring_char(st, i);
                let ghost old_deep = tokens.deep_view();
                tokens.push(tok.to_owned());
                proof {
                    assert(tokens.deep_view() =~= old_deep.push(s@.subrange(
                        st as int,
                        i as int,
                    )));
                }
                cur = None;
            }
        } else {
            if cur.is_none() {
                cur = Some(i);
                proof {
                    assert(s@.subrange(i as int, i as int + 1) =~= seq![s@[i as int]]);
                }
            } else {
                proof {
                    let st = cur->Some_0 as int;
                    assert(s@.subrange(st, i as int).push(s@[i as int]) =~= s@.subrange(
                        st,
                        i as int + 1,
                    ));
                    let t = tokens_of(s@.take(i as int));
                    let deep = tokens.deep_view();
                    assert(t.update(t.len() - 1, t.last().push(s@[i as int])) =~= deep.push(
                        s@.subrange(st, i as int + 1),
                    ));
                }
            }
        }
        i = i + 1;
    }
    proof {
        assert(s@.take(n as int) =~= s@);
    }
    if let Some(st) = cur {
        let tok = s.substring_char(st, n);
        let ghost old_deep = tokens.deep_view();
        tokens.push(tok.to_owned());
        proof {
            assert(tokens.deep_view() =~= old_deep.push(s@.subrange(st as int, n as int)));
        }
    }
    tokens
}

/// Splits a probe command into its executable and its arguments, rejecting a
/// command with no token.
pub fn tokenize(s: &str) -> (r: Result<(String, Vec<String>), LaunchError>)
    ensures
        r is Err <==> tokens_of(s@).len() == 0,
        (r matches Err(e) ==> e == LaunchError::EmptyCommand),
        (r matches Ok(p) ==> p.0@ == tokens_of(s@)[0] && p.1.deep_view() == tokens_of(s@).skip(1)),
{
    let mut tokens = split_command(s);
    if tokens.len() == 0 {
        Err(LaunchError::EmptyCommand)
    } else {
        let ghost all = tokens.deep_view();
        let program = tokens.remove(0);
        proof {
            assert(program@ == all[0]);
            assert(tokens.deep_view() =~= all.skip(1));
        }
        Ok((program, tokens))
    }
}

} // verus!
