//! The environment overlay given to `Run`: assignments `KEY=VALUE` separated
//! by blanks (space, tab, line feed, carriage return). An assignment is split
//! at its first `=`; the key or the value may be empty. A token without `=`
//! makes the whole string invalid.

use vstd::prelude::*;

verus! {

/// One assignment, as the view of a `(key, value)` pair.
pub type EnvPair = (Seq<char>, Seq<char>);

/// A character that separates two assignments.
pub open spec fn is_separator(c: char) -> bool {
    c == ' ' || c == '\t' || c == '\n' || c == '\r'
}

/// End (exclusive) of the token that starts at `i`: the first separator at or
/// after `i`, or the end of `s`.
pub open spec fn token_end(s: Seq<char>, i: int) -> int
    decreases s.len() - i,
{
    if i >= s.len() || is_separator(s[i]) {
        i
    } else {
        token_end(s, i + 1)
    }
}

/// Position of the first `=` in `s` at or after `i`, if there is one.
pub open spec fn first_equals(s: Seq<char>, i: int) -> Option<int>
    decreases s.len() - i,
{
    if i >= s.len() {
        None
    } else if s[i] == '=' {
        Some(i)
    } else {
        first_equals(s, i + 1)
    }
}

/// `a` in front of the assignments `r`, or no result where `r` is none.
pub open spec fn prepend(a: Seq<EnvPair>, r: Option<Seq<EnvPair>>) -> Option<Seq<EnvPair>> {
    match r {
        Some(rest) => Some(a + rest),
        None => None,
    }
}

/// The assignments of `s` from position `i` on, in order; none where a token
/// holds no `=`.
pub open spec fn env_from(s: Seq<char>, i: int) -> Option<Seq<EnvPair>>
    decreases s.len() - i,
    via env_from_decreases
{
    if i < 0 || i >= s.len() {
        Some(Seq::empty())
    } else if is_separator(s[i]) {
        env_from(s, i + 1)
    } else {
        let j = token_end(s, i);
        let tok = s.subrange(i, j);
        match first_equals(tok, 0) {
            None => None,
            Some(k) => prepend(
                seq![(tok.subrange(0, k), tok.subrange(k + 1, tok.len() as int))],
                env_from(s, j),
            ),
        }
    }
}

/// The assignments of a whole environment string.
pub open spec fn parse_env_spec(s: Seq<char>) -> Option<Seq<EnvPair>> {
    env_from(s, 0)
}

/// The view of parsed assignments.
pub open spec fn pairs_view(v: Seq<(String, String)>) -> Seq<EnvPair> {
    v.map_values(|p: (String, String)| (p.0@, p.1@))
}

proof fn lemma_token_end(s: Seq<char>, i: int)
    requires
        0 <= i <= s.len(),
    ensures
        i <= token_end(s, i) <= s.len(),
        i < s.len() && !is_separator(s[i]) ==> token_end(s, i) > i,
    decreases s.len() - i,
{
    if i < s.len() && !is_separator(s[i]) {
        lemma_token_end(s, i + 1);
    }
}

#[via_fn]
proof fn env_from_decreases(s: Seq<char>, i: int) {
    if 0 <= i < s.len() {
        lemma_token_end(s, i);
    }
}

/// Splits `env` into its assignments, or gives `None` where a token holds no `=`.
pub fn parse_env(env: &str) -> (r: Option<Vec<(String, String)>>)
    ensures
        match r {
            Some(v) => parse_env_spec(env@) == Some(pairs_view(v@)),
            None => parse_env_spec(env@) is None,
        },
{
    let ghost s = env@;
    let n = env.unicode_len();
    let mut acc: Vec<(String, String)> = Vec::new();
    let mut i: usize = 0;
    while i < n
        invariant
            n == s.len(),
            s == env@,
            i <= n,
            env_from(s, 0) == prepend(pairs_view(acc@), env_from(s, i as int)),
        decreases n - i,
    {
        if is_blank(env.get_char(i)) {
            i = i + 1;
        } else {
            let start = i;
            let mut j: usize = i;
            while j < n && !is_blank(env.get_char(j))
                invariant
                    n == s.len(),
                    s == env@,
                    start <= j <= n,
                    token_end(s, start as int) == token_end(s, j as int),
                decreases n - j,
            {
                j = j + 1;
            }
            proof {
                lemma_token_end(s, start as int);
            }
            let tok = env.substring_char(start, j);
            let tl = j - start;
            let mut k: usize = 0;
            while k < tl && tok.get_char(k) != '='
                invariant
                    tl == tok@.len(),
                    k <= tl,
                    first_equals(tok@, 0) == first_equals(tok@, k as int),
                decreases tl - k,
            {
                k = k + 1;
            }
            if k == tl {
                return None;
            }
            let key = String::from_str(tok.substring_char(0, k));
            let value = String::from_str(tok.substring_char(k + 1, tl));
            let ghost old_acc = acc@;
            acc.push((key, value));
            proof {
                let pair = (tok@.subrange(0, k as int), tok@.subrange(k + 1, tl as int));
                assert(pairs_view(acc@) =~= pairs_view(old_acc) + seq![pair]);
                match env_from(s, j as int) {
                    Some(rest) => {
                        assert(pairs_view(old_acc) + (seq![pair] + rest) =~= pairs_view(acc@)
                            + rest);
                    },
                    None => {},
                }
            }
            i = j;
        }
    }
    proof {
        assert(pairs_view(acc@) + Seq::<EnvPair>::empty() =~= pairs_view(acc@));
    }
    Some(acc)
}

/// Executable form of `is_separator`.
fn is_blank(c: char) -> (r: bool)
    ensures
        r == is_separator(c),
{
    c == ' ' || c == '\t' || c == '\n' || c == '\r'
}

} // verus!
