//! Paths into the type record of an entity, as reached over the `type` edge.
use vstd::prelude::*;

use crate::error::{QueryPathError, QueryPathErrorView, Vocabulary};
use crate::path::ParameterType;
use crate::text::{text_eq, texts_view};
use crate::token::{keys_of, parameter_keys, parse_query_token, split_token};

verus! {

broadcast use vstd::string::group_string_axioms;

/// A field of an entity type record.
#[derive(Debug, Clone, Copy, PartialEq, Eq, Hash, Structural)]
pub enum EntityTypeQueryPath {
    Version,
    VersionedUrl,
    OwnedById,
    Title,
}

impl EntityTypeQueryPath {
    /// The path that the token name `s` denotes, if any.
    pub open spec fn spec_from_name(s: Seq<char>) -> Option<EntityTypeQueryPath> {
        if s == "version"@ {
            Some(EntityTypeQueryPath::Version)
        } else if s == "versionedUrl"@ {
            Some(EntityTypeQueryPath::VersionedUrl)
        } else if s == "ownedById"@ {
            Some(EntityTypeQueryPath::OwnedById)
        } else if s == "title"@ {
            Some(EntityTypeQueryPath::Title)
        } else {
            None
        }
    }

    /// The path that the token name `s` denotes, if any.
    pub fn from_name(s: &str) -> (r: Option<EntityTypeQueryPath>)
        ensures
            r == Self::spec_from_name(s@),
    {
        if text_eq(s, "version") {
            Some(EntityTypeQueryPath::Version)
        } else if text_eq(s, "versionedUrl") {
            Some(EntityTypeQueryPath::VersionedUrl)
        } else if text_eq(s, "ownedById") {
            Some(EntityTypeQueryPath::OwnedById)
        } else if text_eq(s, "title") {
            Some(EntityTypeQueryPath::Title)
        } else {
            None
        }
    }

    /// The token name of this path, which is also its canonical text.
    pub open spec fn spec_name(self) -> Seq<char> {
        match self {
            EntityTypeQueryPath::Version => "version"@,
            EntityTypeQueryPath::VersionedUrl => "versionedUrl"@,
            EntityTypeQueryPath::OwnedById => "ownedById"@,
            EntityTypeQueryPath::Title => "title"@,
        }
    }

    /// The token name of this path, which is also its canonical text.
    pub fn name(&self) -> (r: &'static str)
        ensures
            r@ == self.spec_name(),
    {
        match self {
            EntityTypeQueryPath::Version => "version",
            EntityTypeQueryPath::VersionedUrl => "versionedUrl",
            EntityTypeQueryPath::OwnedById => "ownedById",
            EntityTypeQueryPath::Title => "title",
        }
    }

    /// The kind of value that this path addresses.
    pub open spec fn spec_expected_type(self) -> ParameterType {
        match self {
            EntityTypeQueryPath::Version => ParameterType::OntologyTypeVersion,
            EntityTypeQueryPath::VersionedUrl => ParameterType::VersionedUrl,
            EntityTypeQueryPath::OwnedById => ParameterType::Uuid,
            EntityTypeQueryPath::Title => ParameterType::Any,
        }
    }

    /// The kind of value that this path addresses.
    pub fn expected_type(&self) -> (r: ParameterType)
        ensures
            r == self.spec_expected_type(),
    {
        match self {
            EntityTypeQueryPath::Version => ParameterType::OntologyTypeVersion,
            EntityTypeQueryPath::VersionedUrl => ParameterType::VersionedUrl,
            EntityTypeQueryPath::OwnedById => ParameterType::Uuid,
            EntityTypeQueryPath::Title => ParameterType::Any,
        }
    }
}

/// The entity type path that starts at position `pos` of `ts`, and the
/// position after it.
pub open spec fn parse_entity_type_at(ts: Seq<Seq<char>>, pos: int) -> Result<
    (EntityTypeQueryPath, int),
    QueryPathErrorView,
> {
    if pos < 0 || pos >= ts.len() {
        Err(QueryPathErrorView::MissingToken { position: pos as nat, expected: Vocabulary::EntityType })
    } else {
        match split_token(ts[pos]) {
            Err(e) => Err(QueryPathErrorView::Syntax(e)),
            Ok((name, params)) => match EntityTypeQueryPath::spec_from_name(name) {
                None => Err(
                    QueryPathErrorView::UnknownVariant { variant: name, expected: Vocabulary::EntityType },
                ),
                Some(p) => if params.len() > 0 {
                    Err(QueryPathErrorView::UnknownParameters { keys: keys_of(params) })
                } else {
                    Ok((p, pos + 1))
                },
            },
        }
    }
}

/// Reads an entity type path from a token sequence, starting at `position`.
pub struct EntityTypeQueryPathVisitor {
    pub position: usize,
}

impl EntityTypeQueryPathVisitor {
    pub fn new(position: usize) -> (r: Self)
        ensures
            r.position == position,
    {
        EntityTypeQueryPathVisitor { position }
    }

    /// The names that this visitor accepts, as listed in messages.
    pub fn expecting(&self) -> (r: &'static str)
        ensures
            r@ == Vocabulary::EntityType.spec_expecting(),
    {
        Vocabulary::EntityType.expecting()
    }

    /// Reads one path from `tokens` at this visitor's position; hands back
    /// the path and the position after it.
    pub fn visit_seq(self, tokens: &[String]) -> (r: Result<(EntityTypeQueryPath, usize), QueryPathError>)
        ensures
            match r {
                Ok((p, end)) => parse_entity_type_at(texts_view(tokens@), self.position as int) == Ok::<
                    _,
                    QueryPathErrorView,
                >((p, end as int)),
                Err(e) => parse_entity_type_at(texts_view(tokens@), self.position as int) == Err::<
                    (EntityTypeQueryPath, int),
                    _,
                >(e@),
            },
    {
        let pos = self.position;
        if pos >= tokens.len() {
            return Err(QueryPathError::MissingToken { position: pos, expected: Vocabulary::EntityType });
        }
        let token = match parse_query_token(tokens[pos].as_str()) {
            Ok(t) => t,
            Err(e) => {
                return Err(QueryPathError::Syntax(e));
            },
        };
        let path = match EntityTypeQueryPath::from_name(token.name.as_str()) {
            Some(p) => p,
            None => {
                return Err(
                    QueryPathError::UnknownVariant { variant: token.name, expected: Vocabulary::EntityType },
                );
            },
        };
        if token.parameters.len() > 0 {
            return Err(QueryPathError::UnknownParameters { keys: parameter_keys(token.parameters) });
        }
        Ok((path, pos + 1))
    }
}

} // verus!
