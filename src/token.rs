//! Splitting a raw query token into its name and its `key = value`
//! parameters, as in `type(inheritanceDepth = 5)`.
use vstd::prelude::*;

use crate::text::{chars_of, find_char, find_char_in, texts_view, trim, trim_bounds};

verus! {

broadcast use vstd::string::group_string_axioms;

/// The parameters of a token as pairs of key and value, each key once, in
/// the order in which the keys first appeared.
pub type ParameterList = Seq<(Seq<char>, Seq<char>)>;

/// One `key = value` entry of a token's parenthetical.
#[derive(Debug, Clone, PartialEq, Eq)]
pub struct QueryParameter {
    pub key: String,
    pub value: String,
}

/// A raw query token, split into its name and its parameters.
#[derive(Debug, Clone, PartialEq, Eq)]
pub struct ParsedToken {
    pub name: String,
    pub parameters: Vec<QueryParameter>,
}

/// Why a raw token could not be split.
#[derive(Debug, Clone, Copy, PartialEq, Eq)]
pub enum TokenSyntaxError {
    /// The parenthetical is not closed by a final `)`.
    MissingClosingParenthesis,
    /// An entry of the parenthetical has no `=`.
    MissingParameterValue,
}

pub open spec fn parameters_view(ps: Seq<QueryParameter>) -> ParameterList {
    ps.map_values(|p: QueryParameter| (p.key@, p.value@))
}

/// The first position at or after `from` that holds the key `k`.
pub open spec fn key_position(ps: ParameterList, k: Seq<char>, from: int) -> Option<int>
    decreases ps.len() - from,
{
    if from < 0 || from >= ps.len() {
        None
    } else if ps[from].0 == k {
        Some(from)
    } else {
        key_position(ps, k, from + 1)
    }
}

/// `ps` with `k` bound to `v`: a later value for a key replaces the earlier
/// one in place.
pub open spec fn insert_parameter(ps: ParameterList, k: Seq<char>, v: Seq<char>) -> ParameterList {
    match key_position(ps, k, 0) {
        Some(i) => ps.update(i, (k, v)),
        None => ps.push((k, v)),
    }
}

/// The value bound to `k` in `ps`, and `ps` without that entry.
pub open spec fn remove_parameter(ps: ParameterList, k: Seq<char>) -> (Option<Seq<char>>, ParameterList) {
    match key_position(ps, k, 0) {
        Some(i) => (Some(ps[i].1), ps.remove(i)),
        None => (None, ps),
    }
}

proof fn lemma_find_char_bounds(s: Seq<char>, c: char, from: int)
    ensures
        find_char(s, c, from) matches Some(i) ==> from <= i < s.len() && s[i] == c,
    decreases s.len() - from,
{
    if 0 <= from < s.len() && s[from] != c {
        lemma_find_char_bounds(s, c, from + 1);
    }
}

/// The entries of the comma-separated text `s`, added to `acc` one by one;
/// `None` where an entry has no `=`.
pub open spec fn collect_parameters(acc: ParameterList, s: Seq<char>) -> Option<ParameterList>
    decreases s.len(),
    via collect_parameters_decreases
{
    let (piece, rest) = match find_char(s, ',', 0) {
        None => (s, None),
        Some(k) => (s.subrange(0, k), Some(s.subrange(k + 1, s.len() as int))),
    };
    match find_char(piece, '=', 0) {
        None => None,
        Some(j) => {
            let acc2 = insert_parameter(
                acc,
                trim(piece.subrange(0, j)),
                trim(piece.subrange(j + 1, piece.len() as int)),
            );
            match rest {
                None => Some(acc2),
                Some(r) => collect_parameters(acc2, r),
            }
        },
    }
}

#[via_fn]
proof fn collect_parameters_decreases(acc: ParameterList, s: Seq<char>) {
    lemma_find_char_bounds(s, ',', 0);
}

/// What a raw token splits into: the text before the first `(` is the name;
/// where there is a `(`, the token must end in `)`, and what stands between
/// is a comma-separated list of `key = value` entries, with white space
/// around keys and values dropped.
pub open spec fn split_token(s: Seq<char>) -> Result<(Seq<char>, ParameterList), TokenSyntaxError> {
    match find_char(s, '(', 0) {
        None => Ok((s, Seq::empty())),
        Some(i) => if s.len() < i + 2 || s.last() != ')' {
            Err(TokenSyntaxError::MissingClosingParenthesis)
        } else {
            match collect_parameters(Seq::empty(), s.subrange(i + 1, s.len() - 1)) {
                None => Err(TokenSyntaxError::MissingParameterValue),
                Some(ps) => Ok((s.subrange(0, i), ps)),
            }
        },
    }
}

fn owned_text(s: &str, from: usize, to: usize) -> (r: String)
    requires
        from <= to <= s@.len(),
    ensures
        r@ == s@.subrange(from as int, to as int),
{
    let sub = s.substring_char(from, to);
    sub.to_owned()
}

/// Binds `key` to `value` in `params`, replacing an earlier value of the key.
pub fn insert_query_parameter(params: &mut Vec<QueryParameter>, key: String, value: String)
    ensures
        parameters_view(final(params)@) == insert_parameter(
            parameters_view(old(params)@),
            key@,
            value@,
        ),
{
    let ghost ps = parameters_view(params@);
    let mut i: usize = 0;
    while i < params.len()
        invariant
            i <= params@.len(),
            params@ == old(params)@,
            ps == parameters_view(params@),
            key_position(ps, key@, 0) == key_position(ps, key@, i as int),
        decreases params@.len() - i,
    {
        if params[i].key == key {
            let ghost k = key@;
            let ghost v = value@;
            params[i] = QueryParameter { key, value };
            assert(parameters_view(params@) =~= ps.update(i as int, (k, v)));
            return;
        }
        i = i + 1;
    }
    let ghost k = key@;
    let ghost v = value@;
    params.push(QueryParameter { key, value });
    assert(parameters_view(params@) =~= ps.push((k, v)));
}

/// Takes the entry of `key` out of `params` and hands back its value.
pub fn remove_query_parameter(params: &mut Vec<QueryParameter>, key: &str) -> (r: Option<String>)
    ensures
        ({
            let (v, rest) = remove_parameter(parameters_view(old(params)@), key@);
            &&& parameters_view(final(params)@) == rest
            &&& match r {
                Some(s) => v == Some(s@),
                None => v is None,
            }
        }),
{
    let ghost ps = parameters_view(params@);
    let mut i: usize = 0;
    while i < params.len()
        invariant
            i <= params@.len(),
            params@ == old(params)@,
            ps == parameters_view(params@),
            key_position(ps, key@, 0) == key_position(ps, key@, i as int),
        decreases params@.len() - i,
    {
        if crate::text::text_eq(params[i].key.as_str(), key) {
            let p = params.remove(i);
            assert(parameters_view(params@) =~= ps.remove(i as int));
            return Some(p.value);
        }
        i = i + 1;
    }
    None
}

/// The keys of `ps`, in order.
pub open spec fn keys_of(ps: ParameterList) -> Seq<Seq<char>> {
    ps.map_values(|p: (Seq<char>, Seq<char>)| p.0)
}

/// The keys of `params`, in order.
pub fn parameter_keys(params: Vec<QueryParameter>) -> (r: Vec<String>)
    ensures
        texts_view(r@) == keys_of(parameters_view(params@)),
{
    let mut rest = params;
    let ghost all = params@;
    let mut keys: Vec<String> = Vec::new();
    while rest.len() > 0
        invariant
            keys@.len() + rest@.len() == all.len(),
            rest@ == all.subrange(keys@.len() as int, all.len() as int),
            texts_view(keys@) == keys_of(parameters_view(all.subrange(0, keys@.len() as int))),
        decreases rest@.len(),
    {
        let ghost k = keys@.len() as int;
        let p = rest.remove(0);
        assert(p == all[k]);
        let ghost old_keys = keys@;
        keys.push(p.key);
        assert(texts_view(keys@) =~= texts_view(old_keys).push(all[k].key@));
        assert(keys_of(parameters_view(all.subrange(0, k + 1))) =~= keys_of(
            parameters_view(all.subrange(0, k)),
        ).push(all[k].key@));
        assert(texts_view(keys@) =~= keys_of(parameters_view(all.subrange(0, k + 1))));
        assert(rest@ =~= all.subrange(k + 1, all.len() as int));
    }
    assert(all.subrange(0, keys@.len() as int) =~= all);
    keys
}

/// Splits a raw query token into its name and its parameters.
pub fn parse_query_token(token: &str) -> (r: Result<ParsedToken, TokenSyntaxError>)
    ensures
        match r {
            Ok(t) => split_token(token@) == Ok::<_, TokenSyntaxError>(
                (t.name@, parameters_view(t.parameters@)),
            ),
            Err(e) => split_token(token@) == Err::<(Seq<char>, ParameterList), _>(e),
        },
{
    let cs = chars_of(token);
    let n = cs.len();
    let open = match find_char_in(&cs, '(', 0, n) {
        None => {
            let name = token.to_owned();
            let parameters: Vec<QueryParameter> = Vec::new();
            assert(parameters_view(parameters@) =~= Seq::empty());
            return Ok(ParsedToken { name, parameters });
        },
        Some(i) => i,
    };
    if n - open < 2 || cs[n - 1] != ')' {
        return Err(TokenSyntaxError::MissingClosingParenthesis);
    }
    let end = n - 1;
    let ghost whole = cs@.subrange(open + 1, end as int);
    let mut parameters: Vec<QueryParameter> = Vec::new();
    let mut p = open + 1;
    assert(parameters_view(parameters@) =~= Seq::empty());
    loop
        invariant_except_break
            collect_parameters(Seq::empty(), whole) == collect_parameters(
                parameters_view(parameters@),
                cs@.subrange(p as int, end as int),
            ),
        invariant
            open + 1 <= p <= end < n == cs@.len(),
            end == n - 1,
            cs@[end as int] == ')',
            cs@ == token@,
            find_char(token@, '(', 0) == Some(open as int),
            whole == cs@.subrange(open + 1, end as int),
        ensures
            collect_parameters(Seq::empty(), whole) == Some(parameters_view(parameters@)),
        decreases end - p,
    {
        let ghost s = cs@.subrange(p as int, end as int);
        let ghost before = parameters_view(parameters@);
        let comma = find_char_in(&cs, ',', p, end);
        let piece_end = match comma {
            Some(k) => k,
            None => end,
        };
        proof {
            lemma_find_char_bounds(s, ',', 0);
        }
        assert(cs@.subrange(p as int, piece_end as int) =~= match find_char(s, ',', 0) {
            None => s,
            Some(k) => s.subrange(0, k),
        });
        let eq = find_char_in(&cs, '=', p, piece_end);
        let j = match eq {
            None => {
                assert(collect_parameters(before, s) is None);
                return Err(TokenSyntaxError::MissingParameterValue);
            },
            Some(j) => j,
        };
        let ghost piece = cs@.subrange(p as int, piece_end as int);
        assert(piece.subrange(0, j - p) =~= cs@.subrange(p as int, j as int));
        assert(piece.subrange(j + 1 - p, piece.len() as int) =~= cs@.subrange(
            j + 1,
            piece_end as int,
        ));
        let (ka, kb) = trim_bounds(&cs, p, j);
        let (va, vb) = trim_bounds(&cs, j + 1, piece_end);
        let key = owned_text(token, ka, kb);
        let value = owned_text(token, va, vb);
        insert_query_parameter(&mut parameters, key, value);
        assert(collect_parameters(before, s) == match comma {
            None => Some(parameters_view(parameters@)),
            Some(k) => collect_parameters(
                parameters_view(parameters@),
                s.subrange(k + 1 - p, s.len() as int),
            ),
        });
        match comma {
            Some(k) => {
                assert(s.subrange(k + 1 - p, s.len() as int) =~= cs@.subrange(
                    k + 1,
                    end as int,
                ));
                p = k + 1;
            },
            None => {
                break;
            },
        }
    }
    let name = owned_text(token, 0, open);
    Ok(ParsedToken { name, parameters })
}

} // verus!
