//! The addressing units of a query path: path tokens, JSON paths into a
//! property bag, edge kinds and the kinds of parameter values.
use vstd::prelude::*;

use crate::text::{decimal, push_decimal};

verus! {

broadcast use vstd::string::group_string_axioms;

/// One step into a JSON value: a named field or a position in an array.
#[derive(Debug, Clone, PartialEq, Eq, Hash)]
pub enum PathToken {
    Field(String),
    Index(usize),
}

/// What a [`PathToken`] stands for.
pub enum PathTokenView {
    Field(Seq<char>),
    Index(nat),
}

impl View for PathToken {
    type V = PathTokenView;

    open spec fn view(&self) -> PathTokenView {
        match self {
            PathToken::Field(f) => PathTokenView::Field(f@),
            PathToken::Index(i) => PathTokenView::Index(*i as nat),
        }
    }
}

pub open spec fn tokens_view(ts: Seq<PathToken>) -> Seq<PathTokenView> {
    ts.map_values(|t: PathToken| t@)
}

/// An ordered sequence of path tokens.
#[derive(Debug, Clone, PartialEq, Eq, Hash)]
pub struct JsonPath {
    path: Vec<PathToken>,
}

impl View for JsonPath {
    type V = Seq<PathTokenView>;

    closed spec fn view(&self) -> Seq<PathTokenView> {
        tokens_view(self.path@)
    }
}

/// `f` in double quotes' inner form: each `"` preceded by a backslash.
pub open spec fn escape_quotes(f: Seq<char>) -> Seq<char>
    decreases f.len(),
{
    if f.len() == 0 {
        Seq::empty()
    } else if f.last() == '"' {
        escape_quotes(f.drop_last()) + seq!['\\', '"']
    } else {
        escape_quotes(f.drop_last()).push(f.last())
    }
}

/// The canonical text of one token: `."name"` for a field, `[i]` for an index.
pub open spec fn render_token(t: PathTokenView) -> Seq<char> {
    match t {
        PathTokenView::Field(f) => seq!['.', '"'] + escape_quotes(f) + seq!['"'],
        PathTokenView::Index(i) => seq!['['] + decimal(i) + seq![']'],
    }
}

pub open spec fn render_tokens(ts: Seq<PathTokenView>) -> Seq<char>
    decreases ts.len(),
{
    if ts.len() == 0 {
        Seq::empty()
    } else {
        render_tokens(ts.drop_last()) + render_token(ts.last())
    }
}

/// The canonical text of a JSON path: `$` followed by its tokens.
pub open spec fn render_json_path(p: Seq<PathTokenView>) -> Seq<char> {
    seq!['$'] + render_tokens(p)
}

proof fn lemma_escape_plain(f: Seq<char>)
    requires
        forall|i: int| 0 <= i < f.len() ==> f[i] != '"',
    ensures
        escape_quotes(f) == f,
    decreases f.len(),
{
    if f.len() > 0 {
        lemma_escape_plain(f.drop_last());
        assert(escape_quotes(f.drop_last()).push(f.last()) =~= f);
    }
}

proof fn lemma_escape_concat(a: Seq<char>, b: Seq<char>)
    ensures
        escape_quotes(a + b) == escape_quotes(a) + escape_quotes(b),
    decreases b.len(),
{
    if b.len() == 0 {
        assert(a + b =~= a);
        assert(escape_quotes(a) + escape_quotes(b) =~= escape_quotes(a));
    } else {
        lemma_escape_concat(a, b.drop_last());
        assert((a + b).drop_last() =~= a + b.drop_last());
        assert((a + b).last() == b.last());
        if b.last() == '"' {
            assert(escape_quotes(a) + escape_quotes(b) =~= escape_quotes(a) + escape_quotes(
                b.drop_last(),
            ) + seq!['\\', '"']);
        } else {
            assert(escape_quotes(a) + escape_quotes(b) =~= (escape_quotes(a) + escape_quotes(
                b.drop_last(),
            )).push(b.last()));
        }
    }
}

/// Appends `f` to `out` with each `"` preceded by a backslash.
fn push_escaped(out: &mut String, f: &str)
    ensures
        final(out)@ == old(out)@ + escape_quotes(f@),
{
    let n = f.unicode_len();
    let mut start: usize = 0;
    let mut i: usize = 0;
    while i < n
        invariant
            n == f@.len(),
            start <= i <= n,
            out@ == old(out)@ + escape_quotes(f@.subrange(0, start as int)),
            forall|k: int| start <= k < i ==> f@[k] != '"',
        decreases n - i,
    {
        if f.get_char(i) == '"' {
            let run = f.substring_char(start, i);
            out.append(run);
            out.append("\\\"");
            proof {
                lemma_escape_plain(f@.subrange(start as int, i as int));
                lemma_escape_concat(
                    f@.subrange(0, start as int),
                    f@.subrange(start as int, i as int),
                );
                assert(f@.subrange(0, start as int) + f@.subrange(start as int, i as int)
                    =~= f@.subrange(0, i as int));
                assert(f@.subrange(0, i + 1).drop_last() =~= f@.subrange(0, i as int));
                assert(escape_quotes(f@.subrange(0, i + 1)) == escape_quotes(
                    f@.subrange(0, i as int),
                ) + seq!['\\', '"']);
                reveal_strlit("\\\"");
                assert("\\\""@ =~= seq!['\\', '"']);
            }
            start = i + 1;
        }
        i = i + 1;
    }
    let run = f.substring_char(start, n);
    out.append(run);
    proof {
        lemma_escape_plain(f@.subrange(start as int, n as int));
        lemma_escape_concat(f@.subrange(0, start as int), f@.subrange(start as int, n as int));
        assert(f@.subrange(0, start as int) + f@.subrange(start as int, n as int) =~= f@);
    }
}

impl PathToken {
    /// Appends the canonical text of this token to `out`.
    pub fn render_into(&self, out: &mut String)
        ensures
            final(out)@ == old(out)@ + render_token(self@),
    {
        proof {
            reveal_strlit(".\"");
            reveal_strlit("\"");
            reveal_strlit("[");
            reveal_strlit("]");
        }
        match self {
            PathToken::Field(f) => {
                out.append(".\"");
                push_escaped(out, f.as_str());
                out.append("\"");
            },
            PathToken::Index(i) => {
                out.append("[");
                push_decimal(out, *i as u64);
                out.append("]");
            },
        }
        assert(final(out)@ =~= old(out)@ + render_token(self@));
    }
}

impl JsonPath {
    /// The path made of `path`, in order.
    pub fn from_path_tokens(path: Vec<PathToken>) -> (r: JsonPath)
        ensures
            r@ == tokens_view(path@),
    {
        JsonPath { path }
    }

    /// The tokens of this path, in order.
    pub fn path_tokens(&self) -> (r: &[PathToken])
        ensures
            tokens_view(r@) == self@,
    {
        self.path.as_slice()
    }

    /// This path, holding no borrowed text.
    pub fn into_owned(self) -> (r: JsonPath)
        ensures
            r@ == self@,
    {
        self
    }

    /// The canonical text of this path.
    pub fn render(&self) -> (r: String)
        ensures
            r@ == render_json_path(self@),
    {
        let mut out = String::new();
        proof {
            reveal_strlit("$");
        }
        out.append("$");
        let mut i: usize = 0;
        while i < self.path.len()
            invariant
                i <= self.path@.len(),
                out@ == seq!['$'] + render_tokens(tokens_view(self.path@.subrange(0, i as int))),
            decreases self.path@.len() - i,
        {
            self.path[i].render_into(&mut out);
            assert(tokens_view(self.path@.subrange(0, i + 1)).drop_last() =~= tokens_view(
                self.path@.subrange(0, i as int),
            ));
            i = i + 1;
        }
        assert(self.path@.subrange(0, i as int) =~= self.path@);
        out
    }
}

/// The kind of value that a query path addresses.
#[derive(Debug, PartialEq, Eq, Hash)]
pub enum ParameterType {
    Uuid,
    TimeInterval,
    Vector(Box<ParameterType>),
    Any,
    Float64,
    Boolean,
    VersionedUrl,
    OntologyTypeVersion,
}

/// The edge from a record to its type.
#[derive(Debug, Clone, Copy, PartialEq, Eq, Hash, Structural)]
pub enum SharedEdgeKind {
    IsOfType,
}

/// The edges between a link record and the records at its two ends.
#[derive(Debug, Clone, Copy, PartialEq, Eq, Hash, Structural)]
pub enum KnowledgeGraphEdgeKind {
    HasLeftEntity,
    HasRightEntity,
}

/// Whether an edge is followed from its source or from its target.
#[derive(Debug, Clone, Copy, PartialEq, Eq, Hash, Structural)]
pub enum EdgeDirection {
    Outgoing,
    Incoming,
}

} // verus!
