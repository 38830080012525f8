//! The ways in which a token sequence fails to be a query path, and the text
//! that reports each of them.
use vstd::prelude::*;

use crate::text::{decimal, push_decimal, texts_view, IntErrorKind};
use crate::token::TokenSyntaxError;

verus! {

broadcast use vstd::string::group_string_axioms;

/// The set of token names that a visitor accepts at a position.
#[derive(Debug, Clone, Copy, PartialEq, Eq, Structural)]
pub enum Vocabulary {
    /// The names of entity query paths.
    Entity,
    /// The names of entity sorting paths.
    EntitySorting,
    /// The names of entity type query paths.
    EntityType,
}

impl Vocabulary {
    /// How the accepted names are listed in messages.
    pub open spec fn spec_expecting(self) -> Seq<char> {
        match self {
            Vocabulary::Entity => "one of `uuid`, `editionId`, `draftId`, `archived`, `ownedById`, `type`, `properties`, `label`, `provenance`, `editionProvenance`, `embedding`, `incomingLinks`, `outgoingLinks`, `leftEntity`, `rightEntity`"@,
            Vocabulary::EntitySorting => "one of `uuid`, `archived`, `properties`, `label`, `recordCreatedAtTransactionTime`, `recordCreatedAtDecisionTime`, `createdAtTransactionTime`, `createdAtDecisionTime`, `typeTitle`"@,
            Vocabulary::EntityType => "one of `version`, `versionedUrl`, `ownedById`, `title`"@,
        }
    }

    /// How the accepted names are listed in messages.
    pub fn expecting(&self) -> (r: &'static str)
        ensures
            r@ == self.spec_expecting(),
    {
        match self {
            Vocabulary::Entity => "one of `uuid`, `editionId`, `draftId`, `archived`, `ownedById`, `type`, `properties`, `label`, `provenance`, `editionProvenance`, `embedding`, `incomingLinks`, `outgoingLinks`, `leftEntity`, `rightEntity`",
            Vocabulary::EntitySorting => "one of `uuid`, `archived`, `properties`, `label`, `recordCreatedAtTransactionTime`, `recordCreatedAtDecisionTime`, `createdAtTransactionTime`, `createdAtDecisionTime`, `typeTitle`",
            Vocabulary::EntityType => "one of `version`, `versionedUrl`, `ownedById`, `title`",
        }
    }
}

/// Why a token sequence is no query path. Every failure is final: no part of
/// a path is handed back.
#[derive(Debug, Clone, PartialEq, Eq)]
pub enum QueryPathError {
    /// A token was required at `position`, but the sequence had ended.
    MissingToken { position: usize, expected: Vocabulary },
    /// A token's name is not in the vocabulary of its position.
    UnknownVariant { variant: String, expected: Vocabulary },
    /// Parameters that the token's variant does not take.
    UnknownParameters { keys: Vec<String> },
    /// An `inheritanceDepth` that is no unsigned 32-bit integer.
    InvalidInheritanceDepth { kind: IntErrorKind },
    /// An index token after a metadata tag in a property path.
    UnexpectedIndex,
    /// A second metadata tag in a property path.
    UnexpectedMetaTag,
    /// A property path token that is neither a base URL, an index nor a
    /// metadata tag.
    InvalidPropertyToken,
    /// The path ended after `expected` of the `given` tokens.
    TrailingTokens { given: usize, expected: usize },
    /// A token whose parenthetical is malformed.
    Syntax(TokenSyntaxError),
}

/// What a [`QueryPathError`] stands for.
pub enum QueryPathErrorView {
    MissingToken { position: nat, expected: Vocabulary },
    UnknownVariant { variant: Seq<char>, expected: Vocabulary },
    UnknownParameters { keys: Seq<Seq<char>> },
    InvalidInheritanceDepth { kind: IntErrorKind },
    UnexpectedIndex,
    UnexpectedMetaTag,
    InvalidPropertyToken,
    TrailingTokens { given: nat, expected: nat },
    Syntax(TokenSyntaxError),
}

impl View for QueryPathError {
    type V = QueryPathErrorView;

    open spec fn view(&self) -> QueryPathErrorView {
        match self {
            QueryPathError::MissingToken { position, expected } => QueryPathErrorView::MissingToken {
                position: *position as nat,
                expected: *expected,
            },
            QueryPathError::UnknownVariant { variant, expected } => QueryPathErrorView::UnknownVariant {
                variant: variant@,
                expected: *expected,
            },
            QueryPathError::UnknownParameters { keys } => QueryPathErrorView::UnknownParameters {
                keys: texts_view(keys@),
            },
            QueryPathError::InvalidInheritanceDepth { kind } => QueryPathErrorView::InvalidInheritanceDepth {
                kind: *kind,
            },
            QueryPathError::UnexpectedIndex => QueryPathErrorView::UnexpectedIndex,
            QueryPathError::UnexpectedMetaTag => QueryPathErrorView::UnexpectedMetaTag,
            QueryPathError::InvalidPropertyToken => QueryPathErrorView::InvalidPropertyToken,
            QueryPathError::TrailingTokens { given, expected } => QueryPathErrorView::TrailingTokens {
                given: *given as nat,
                expected: *expected as nat,
            },
            QueryPathError::Syntax(e) => QueryPathErrorView::Syntax(*e),
        }
    }
}

/// `ks` separated by `, `.
pub open spec fn join_keys(ks: Seq<Seq<char>>) -> Seq<char>
    decreases ks.len(),
{
    if ks.len() == 0 {
        Seq::empty()
    } else if ks.len() == 1 {
        ks[0]
    } else {
        join_keys(ks.drop_last()) + ", "@ + ks.last()
    }
}

/// How Rust reports a failed integer parse of each kind.
pub open spec fn int_error_message(k: IntErrorKind) -> Seq<char> {
    match k {
        IntErrorKind::Empty => "cannot parse integer from empty string"@,
        IntErrorKind::InvalidDigit => "invalid digit found in string"@,
        IntErrorKind::PosOverflow => "number too large to fit in target type"@,
    }
}

/// The text that reports `e`.
pub open spec fn error_message(e: QueryPathErrorView) -> Seq<char> {
    match e {
        QueryPathErrorView::MissingToken { position, expected } => "invalid length "@ + decimal(
            position,
        ) + ", expected "@ + expected.spec_expecting(),
        QueryPathErrorView::UnknownVariant { variant, expected } => "unknown variant `"@ + variant
            + "`, expected "@ + expected.spec_expecting(),
        QueryPathErrorView::UnknownParameters { keys } => "unknown parameters: "@ + join_keys(keys),
        QueryPathErrorView::InvalidInheritanceDepth { kind } => int_error_message(kind),
        QueryPathErrorView::UnexpectedIndex => "Unexpected index found in property path"@,
        QueryPathErrorView::UnexpectedMetaTag => "Unexpected meta tag found in property path"@,
        QueryPathErrorView::InvalidPropertyToken => "data did not match any variant of untagged enum PropertiesToken"@,
        QueryPathErrorView::TrailingTokens { given, expected } => "invalid length "@ + decimal(given)
            + ", expected "@ + decimal(expected) + if expected == 1 {
            " element in sequence"@
        } else {
            " elements in sequence"@
        },
        QueryPathErrorView::Syntax(TokenSyntaxError::MissingClosingParenthesis) => "missing closing parenthesis"@,
        QueryPathErrorView::Syntax(TokenSyntaxError::MissingParameterValue) => "missing parameter value, expected `key=value`"@,
    }
}

fn int_error_text(k: IntErrorKind) -> (r: &'static str)
    ensures
        r@ == int_error_message(k),
{
    match k {
        IntErrorKind::Empty => "cannot parse integer from empty string",
        IntErrorKind::InvalidDigit => "invalid digit found in string",
        IntErrorKind::PosOverflow => "number too large to fit in target type",
    }
}

fn push_joined(out: &mut String, keys: &Vec<String>)
    ensures
        final(out)@ == old(out)@ + join_keys(texts_view(keys@)),
{
    let mut i: usize = 0;
    while i < keys.len()
        invariant
            i <= keys@.len(),
            out@ == old(out)@ + join_keys(texts_view(keys@.subrange(0, i as int))),
        decreases keys@.len() - i,
    {
        let ghost before = out@;
        if i > 0 {
            out.append(", ");
        }
        out.append(keys[i].as_str());
        assert(texts_view(keys@.subrange(0, i + 1)).drop_last() =~= texts_view(
            keys@.subrange(0, i as int),
        ));
        if i == 0 {
            assert(join_keys(texts_view(keys@.subrange(0, 1))) == keys@[0]@);
            assert(out@ =~= old(out)@ + join_keys(texts_view(keys@.subrange(0, i + 1))));
        } else {
            assert(out@ =~= old(out)@ + join_keys(texts_view(keys@.subrange(0, i + 1))));
        }
        i = i + 1;
    }
    assert(keys@.subrange(0, i as int) =~= keys@);
}

impl QueryPathError {
    /// The text that reports this error.
    pub fn message(&self) -> (r: String)
        ensures
            r@ == error_message(self@),
    {
        let mut out = String::new();
        match self {
            QueryPathError::MissingToken { position, expected } => {
                out.append("invalid length ");
                push_decimal(&mut out, *position as u64);
                out.append(", expected ");
                out.append(expected.expecting());
            },
            QueryPathError::UnknownVariant { variant, expected } => {
                out.append("unknown variant `");
                out.append(variant.as_str());
                out.append("`, expected ");
                out.append(expected.expecting());
            },
            QueryPathError::UnknownParameters { keys } => {
                out.append("unknown parameters: ");
                push_joined(&mut out, keys);
            },
            QueryPathError::InvalidInheritanceDepth { kind } => {
                out.append(int_error_text(*kind));
            },
            QueryPathError::UnexpectedIndex => {
                out.append("Unexpected index found in property path");
            },
            QueryPathError::UnexpectedMetaTag => {
                out.append("Unexpected meta tag found in property path");
            },
            QueryPathError::InvalidPropertyToken => {
                out.append("data did not match any variant of untagged enum PropertiesToken");
            },
            QueryPathError::TrailingTokens { given, expected } => {
                out.append("invalid length ");
                push_decimal(&mut out, *given as u64);
                out.append(", expected ");
                push_decimal(&mut out, *expected as u64);
                if *expected == 1 {
                    out.append(" element in sequence");
                } else {
                    out.append(" elements in sequence");
                }
            },
            QueryPathError::Syntax(TokenSyntaxError::MissingClosingParenthesis) => {
                out.append("missing closing parenthesis");
            },
            QueryPathError::Syntax(TokenSyntaxError::MissingParameterValue) => {
                out.append("missing parameter value, expected `key=value`");
            },
        }
        assert(out@ =~= error_message(self@));
        out
    }
}

} // verus!
