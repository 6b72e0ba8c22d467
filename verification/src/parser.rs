//! The line parser: splits one control line into a command keyword and its
//! positional arguments.
//!
//! A line is split on runs of whitespace; the first token is the keyword and
//! the remaining tokens are the arguments, in order. A line with no tokens is
//! reported as such, so the caller can treat it as a peer fault.

use vstd::prelude::*;

verus! {

/// Whether a character separates tokens.
pub open spec fn is_space_char(c: char) -> bool {
    c == ' ' || c == '\t' || c == '\r' || c == '\n'
}

/// The length of the maximal separator-free prefix of `s`.
pub open spec fn token_len(s: Seq<char>) -> nat
    decreases s.len(),
{
    if s.len() == 0 || is_space_char(s[0]) {
        0
    } else {
        1 + token_len(s.drop_first())
    }
}

/// The maximal separator-free prefix of a nonempty sequence that does not
/// start with a separator has between one character and the whole sequence.
pub proof fn lemma_token_len_bounds(s: Seq<char>)
    ensures
        token_len(s) <= s.len(),
        s.len() > 0 && !is_space_char(s[0]) ==> token_len(s) >= 1,
    decreases s.len(),
{
    if s.len() > 0 && !is_space_char(s[0]) {
        lemma_token_len_bounds(s.drop_first());
    }
}

/// The maximal separator-free prefix ends exactly at the first separator
/// (or at the end of the sequence).
pub proof fn lemma_token_len_value(s: Seq<char>, k: int)
    requires
        0 <= k <= s.len(),
        forall|m: int| 0 <= m < k ==> !is_space_char(s[m]),
        k == s.len() || is_space_char(s[k]),
    ensures
        token_len(s) == k,
    decreases k,
{
    if k == 0 {
    } else {
        assert(!is_space_char(s[0]));
        lemma_token_len_value(s.drop_first(), k - 1);
    }
}

#[via_fn]
proof fn spec_tokens_decreases(s: Seq<char>) {
    if s.len() > 0 && !is_space_char(s[0]) {
        lemma_token_len_bounds(s);
    }
}

/// The tokens of a line: the separator-free runs, in order.
pub open spec fn spec_tokens(s: Seq<char>) -> Seq<Seq<char>>
    decreases s.len(),
        via spec_tokens_decreases
{
    if s.len() == 0 {
        Seq::empty()
    } else if is_space_char(s[0]) {
        spec_tokens(s.drop_first())
    } else {
        seq![s.take(token_len(s) as int)] + spec_tokens(s.skip(token_len(s) as int))
    }
}

/// The views of a sequence of owned strings.
pub open spec fn views(ts: Seq<String>) -> Seq<Seq<char>> {
    ts.map_values(|t: String| t@)
}

/// Dropping a leading separator does not change the tokens.
proof fn lemma_tokens_skip_space(s: Seq<char>, i: int)
    requires
        0 <= i < s.len(),
        is_space_char(s[i]),
    ensures
        spec_tokens(s.skip(i)) == spec_tokens(s.skip(i + 1)),
{
    assert(s.skip(i)[0] == s[i]);
    assert(s.skip(i).drop_first() =~= s.skip(i + 1));
}

/// A maximal separator-free run `s[i..j]` is the next token of `s.skip(i)`.
proof fn lemma_tokens_step(s: Seq<char>, i: int, j: int)
    requires
        0 <= i < j <= s.len(),
        forall|m: int| i <= m < j ==> !is_space_char(s[m]),
        j == s.len() || is_space_char(s[j]),
    ensures
        spec_tokens(s.skip(i)) == seq![s.subrange(i, j)] + spec_tokens(s.skip(j)),
{
    let t = s.skip(i);
    assert(forall|m: int| 0 <= m < j - i ==> t[m] == s[i + m] && !is_space_char(t[m]));
    if j < s.len() {
        assert(t[j - i] == s[j]);
    }
    lemma_token_len_value(t, j - i);
    assert(!is_space_char(t[0]));
    assert(t.take(j - i) =~= s.subrange(i, j));
    assert(t.skip(j - i) =~= s.skip(j));
}

/// Splits a line into its tokens, as owned strings.
pub fn tokenize(input: &str) -> (r: Vec<String>)
    ensures
        views(r@) == spec_tokens(input@),
{
    let n = input.unicode_len();
    let mut out: Vec<String> = Vec::new();
    let mut i: usize = 0;
    proof {
        assert(input@.skip(0) =~= input@);
        assert(views(out@) + spec_tokens(input@) =~= spec_tokens(input@));
    }
    while i < n
        invariant
            n == input@.len(),
            i <= n,
            views(out@) + spec_tokens(input@.skip(i as int)) == spec_tokens(input@),
        decreases n - i,
    {
        let c = input.get_char(i);
        if c == ' ' || c == '\t' || c == '\r' || c == '\n' {
            proof {
                lemma_tokens_skip_space(input@, i as int);
            }
            i = i + 1;
        } else {
            let start = i;
            let mut j = i + 1;
            while j < n
                invariant
                    n == input@.len(),
                    start < j <= n,
                    forall|m: int| start <= m < j ==> !is_space_char(input@[m]),
                ensures
                    start < j <= n,
                    forall|m: int| start <= m < j ==> !is_space_char(input@[m]),
                    j == n || is_space_char(input@[j as int]),
                decreases n - j,
            {
                let cj = input.get_char(j);
                if cj == ' ' || cj == '\t' || cj == '\r' || cj == '\n' {
                    break;
                }
                j = j + 1;
            }
            let tok = input.substring_char(start, j).to_owned();
            proof {
                lemma_tokens_step(input@, start as int, j as int);
                assert(views(out@.push(tok)) =~= views(out@) + seq![tok@]);
                assert(views(out@) + seq![tok@] + spec_tokens(input@.skip(j as int))
                    =~= views(out@) + (seq![tok@] + spec_tokens(input@.skip(j as int))));
            }
            out.push(tok);
            i = j;
        }
    }
    proof {
        assert(input@.skip(n as int) =~= Seq::<char>::empty());
        assert(views(out@) + spec_tokens(input@.skip(n as int)) =~= views(out@));
    }
    out
}

/// Parses one control line into its command keyword and argument list.
///
/// Returns `None` exactly when the line holds no token at all; that case is
/// the peer-fault signal the connection loop terminates on.
pub fn cmd_parser(input: &str) -> (r: Option<(String, Vec<String>)>)
    ensures
        match r {
            Some(kw_args) => {
                &&& spec_tokens(input@).len() > 0
                &&& kw_args.0@ == spec_tokens(input@)[0]
                &&& views(kw_args.1@) == spec_tokens(input@).skip(1)
            },
            None => spec_tokens(input@).len() == 0,
        },
{
    let mut toks = tokenize(input);
    if toks.len() == 0 {
        None
    } else {
        let kw = toks.remove(0);
        proof {
            assert(views(toks@) =~= spec_tokens(input@).skip(1));
        }
        Some((kw, toks))
    }
}

/// Tokens are nonempty, and tokens hold no separator.
pub open spec fn tokens_wf(ts: Seq<Seq<char>>) -> bool {
    &&& forall|k: int| 0 <= k < ts.len() ==> (#[trigger] ts[k]).len() > 0
    &&& forall|k: int, m: int|
        0 <= k < ts.len() && 0 <= m < ts[k].len() ==> !is_space_char(#[trigger] ts[k][m])
}

/// Every token of a line is nonempty and free of separators.
pub proof fn lemma_tokens_wf(s: Seq<char>)
    ensures
        tokens_wf(spec_tokens(s)),
    decreases s.len(),
{
    if s.len() == 0 {
    } else if is_space_char(s[0]) {
        lemma_tokens_wf(s.drop_first());
        assert(spec_tokens(s) == spec_tokens(s.drop_first()));
    } else {
        lemma_token_len_bounds(s);
        let n = token_len(s) as int;
        lemma_token_len_value_inverse(s);
        lemma_tokens_wf(s.skip(n));
        assert(spec_tokens(s) == seq![s.take(n)] + spec_tokens(s.skip(n)));
        assert forall|k: int| 0 <= k < spec_tokens(s).len() implies (#[trigger] spec_tokens(
            s,
        )[k]).len() > 0 by {
            if k == 0 {
                assert(spec_tokens(s)[0] == s.take(n));
            } else {
                assert(spec_tokens(s)[k] == spec_tokens(s.skip(n))[k - 1]);
            }
        }
        assert forall|k: int, m: int|
            0 <= k < spec_tokens(s).len() && 0 <= m < spec_tokens(s)[k].len()
            implies !is_space_char(#[trigger] spec_tokens(s)[k][m]) by {
            if k == 0 {
                assert(spec_tokens(s)[0] == s.take(n));
                assert(s.take(n)[m] == s[m]);
            } else {
                assert(spec_tokens(s)[k] == spec_tokens(s.skip(n))[k - 1]);
            }
        }
    }
}

/// Within the maximal separator-free prefix there is no separator.
proof fn lemma_token_len_value_inverse(s: Seq<char>)
    ensures
        forall|m: int| 0 <= m < token_len(s) ==> !is_space_char(s[m]),
    decreases s.len(),
{
    if s.len() == 0 || is_space_char(s[0]) {
    } else {
        lemma_token_len_bounds(s);
        lemma_token_len_value_inverse(s.drop_first());
        assert forall|m: int| 0 <= m < token_len(s) implies !is_space_char(s[m]) by {
            if m > 0 {
                assert(s.drop_first()[m - 1] == s[m]);
            }
        }
    }
}

/// Joins tokens back into one line with a single space between neighbours.
pub open spec fn join_tokens(ts: Seq<Seq<char>>) -> Seq<char>
    decreases ts.len(),
{
    if ts.len() == 0 {
        Seq::empty()
    } else if ts.len() == 1 {
        ts[0]
    } else {
        ts[0] + seq![' '] + join_tokens(ts.drop_first())
    }
}

/// Parsing a line joined from well-formed tokens gives back exactly those
/// tokens.
pub proof fn lemma_join_then_tokens(ts: Seq<Seq<char>>)
    requires
        tokens_wf(ts),
    ensures
        spec_tokens(join_tokens(ts)) == ts,
    decreases ts.len(),
{
    if ts.len() == 0 {
        assert(spec_tokens(join_tokens(ts)) =~= ts);
    } else if ts.len() == 1 {
        let s = ts[0];
        assert(s.len() > 0);
        assert forall|m: int| 0 <= m < s.len() implies !is_space_char(s[m]) by {
            assert(!is_space_char(ts[0][m]));
        }
        lemma_token_len_value(s, s.len() as int);
        assert(join_tokens(ts) == s);
        assert(spec_tokens(s) == seq![s.take(s.len() as int)] + spec_tokens(
            s.skip(s.len() as int),
        ));
        assert(s.take(s.len() as int) =~= s);
        assert(s.skip(s.len() as int).len() == 0);
        assert(spec_tokens(s.skip(s.len() as int)) == Seq::<Seq<char>>::empty());
        assert(spec_tokens(s) =~= ts);
    } else {
        let s = join_tokens(ts);
        let t0 = ts[0];
        let rest = join_tokens(ts.drop_first());
        assert(s == t0 + seq![' '] + rest);
        assert(t0.len() > 0);
        assert forall|m: int| 0 <= m < t0.len() implies !is_space_char(s[m]) by {
            assert(s[m] == t0[m]);
            assert(!is_space_char(ts[0][m]));
        }
        assert(s[t0.len() as int] == ' ');
        lemma_tokens_step(s, 0, t0.len() as int);
        assert(s.skip(0) =~= s);
        assert(spec_tokens(s.skip(0)) == spec_tokens(s));
        assert(s.subrange(0, t0.len() as int) =~= t0);
        assert(s.skip(t0.len() as int)[0] == ' ');
        lemma_tokens_skip_space(s, t0.len() as int);
        assert(s.skip(t0.len() as int + 1) =~= rest);
        assert forall|k: int| 0 <= k < ts.drop_first().len() implies (#[trigger] ts.drop_first()[k]).len() > 0 by {
            assert(ts.drop_first()[k] == ts[k + 1]);
        }
        assert forall|k: int, m: int|
            0 <= k < ts.drop_first().len() && 0 <= m < ts.drop_first()[k].len()
            implies !is_space_char(#[trigger] ts.drop_first()[k][m]) by {
            assert(ts.drop_first()[k] == ts[k + 1]);
            assert(!is_space_char(ts[k + 1][m]));
        }
        lemma_join_then_tokens(ts.drop_first());
        assert(spec_tokens(s) == seq![t0] + spec_tokens(rest));
        assert(seq![t0] + ts.drop_first() =~= ts);
    }
}

/// Tokenization is idempotent: re-joining the tokens of any line with single
/// spaces and tokenizing again yields the same token list.
pub proof fn lemma_tokenize_roundtrip(s: Seq<char>)
    ensures
        spec_tokens(join_tokens(spec_tokens(s))) == spec_tokens(s),
{
    lemma_tokens_wf(s);
    lemma_join_then_tokens(spec_tokens(s));
}

} // verus!
