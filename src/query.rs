//! Entity query paths: what part of an entity record a filter or a sort key
//! addresses, how a token sequence denotes one, how it is written back as
//! text, and what kind of value it addresses.
use vstd::prelude::*;

use crate::base_url::{check_base_url, is_base_url};
use crate::entity_type::{
    parse_entity_type_at, EntityTypeQueryPath, EntityTypeQueryPathVisitor,
};
use crate::error::{QueryPathError, QueryPathErrorView, Vocabulary};
use crate::path::{
    render_json_path, tokens_view, EdgeDirection, JsonPath, KnowledgeGraphEdgeKind, ParameterType,
    PathToken, PathTokenView, SharedEdgeKind,
};
use crate::text::{
    chars_of, decimal, parse_u32, parse_u32_text, push_decimal, scan_decimal, scan_digits,
    text_eq, texts_view,
};
use crate::token::{
    keys_of, parameter_keys, parameters_view, parse_query_token, remove_parameter,
    remove_query_parameter, split_token, ParameterList, ParsedToken, QueryParameter,
};

verus! {

broadcast use vstd::string::group_string_axioms;

/// The part of an entity record that a query addresses.
#[derive(Debug, PartialEq, Eq, Hash)]
pub enum EntityQueryPath {
    Uuid,
    OwnedById,
    DraftId,
    EditionId,
    DecisionTime,
    TransactionTime,
    TypeBaseUrls,
    TypeVersions,
    EntityConfidence,
    LeftEntityConfidence,
    LeftEntityProvenance,
    RightEntityConfidence,
    RightEntityProvenance,
    Archived,
    /// A field of the entity's type, reached over the `IsOfType` edge.
    EntityTypeEdge {
        edge_kind: SharedEdgeKind,
        path: EntityTypeQueryPath,
        inheritance_depth: Option<u32>,
    },
    /// A path of the entity at the other end of a link relation.
    EntityEdge {
        edge_kind: KnowledgeGraphEdgeKind,
        path: Box<EntityQueryPath>,
        direction: EdgeDirection,
    },
    Properties(Option<JsonPath>),
    Label { inheritance_depth: Option<u32> },
    Provenance(Option<JsonPath>),
    EditionProvenance(Option<JsonPath>),
    PropertyMetadata(Option<JsonPath>),
    Embedding,
}

/// What an [`EntityQueryPath`] stands for.
pub enum EntityQueryPathView {
    Uuid,
    OwnedById,
    DraftId,
    EditionId,
    DecisionTime,
    TransactionTime,
    TypeBaseUrls,
    TypeVersions,
    EntityConfidence,
    LeftEntityConfidence,
    LeftEntityProvenance,
    RightEntityConfidence,
    RightEntityProvenance,
    Archived,
    EntityTypeEdge {
        edge_kind: SharedEdgeKind,
        path: EntityTypeQueryPath,
        inheritance_depth: Option<u32>,
    },
    EntityEdge {
        edge_kind: KnowledgeGraphEdgeKind,
        path: Box<EntityQueryPathView>,
        direction: EdgeDirection,
    },
    Properties(Option<Seq<PathTokenView>>),
    Label { inheritance_depth: Option<u32> },
    Provenance(Option<Seq<PathTokenView>>),
    EditionProvenance(Option<Seq<PathTokenView>>),
    PropertyMetadata(Option<Seq<PathTokenView>>),
    Embedding,
}

pub open spec fn json_view(p: Option<JsonPath>) -> Option<Seq<PathTokenView>> {
    match p {
        Some(j) => Some(j@),
        None => None,
    }
}

pub open spec fn path_view(p: EntityQueryPath) -> EntityQueryPathView
    decreases p,
{
    match p {
        EntityQueryPath::Uuid => EntityQueryPathView::Uuid,
        EntityQueryPath::OwnedById => EntityQueryPathView::OwnedById,
        EntityQueryPath::DraftId => EntityQueryPathView::DraftId,
        EntityQueryPath::EditionId => EntityQueryPathView::EditionId,
        EntityQueryPath::DecisionTime => EntityQueryPathView::DecisionTime,
        EntityQueryPath::TransactionTime => EntityQueryPathView::TransactionTime,
        EntityQueryPath::TypeBaseUrls => EntityQueryPathView::TypeBaseUrls,
        EntityQueryPath::TypeVersions => EntityQueryPathView::TypeVersions,
        EntityQueryPath::EntityConfidence => EntityQueryPathView::EntityConfidence,
        EntityQueryPath::LeftEntityConfidence => EntityQueryPathView::LeftEntityConfidence,
        EntityQueryPath::LeftEntityProvenance => EntityQueryPathView::LeftEntityProvenance,
        EntityQueryPath::RightEntityConfidence => EntityQueryPathView::RightEntityConfidence,
        EntityQueryPath::RightEntityProvenance => EntityQueryPathView::RightEntityProvenance,
        EntityQueryPath::Archived => EntityQueryPathView::Archived,
        EntityQueryPath::EntityTypeEdge { edge_kind, path, inheritance_depth } =>
            EntityQueryPathView::EntityTypeEdge { edge_kind, path, inheritance_depth },
        EntityQueryPath::EntityEdge { edge_kind, path, direction } =>
            EntityQueryPathView::EntityEdge {
                edge_kind,
                path: Box::new(path_view(*path)),
                direction,
            },
        EntityQueryPath::Properties(p) => EntityQueryPathView::Properties(json_view(p)),
        EntityQueryPath::Label { inheritance_depth } => EntityQueryPathView::Label {
            inheritance_depth,
        },
        EntityQueryPath::Provenance(p) => EntityQueryPathView::Provenance(json_view(p)),
        EntityQueryPath::EditionProvenance(p) => EntityQueryPathView::EditionProvenance(
            json_view(p),
        ),
        EntityQueryPath::PropertyMetadata(p) => EntityQueryPathView::PropertyMetadata(
            json_view(p),
        ),
        EntityQueryPath::Embedding => EntityQueryPathView::Embedding,
    }
}

impl View for EntityQueryPath {
    type V = EntityQueryPathView;

    open spec fn view(&self) -> EntityQueryPathView {
        path_view(*self)
    }
}

/// The names that start an entity query path.
#[derive(Debug, Clone, Copy, PartialEq, Eq, Structural)]
pub enum EntityQueryToken {
    Uuid,
    EditionId,
    DraftId,
    Archived,
    OwnedById,
    Type,
    Properties,
    Label,
    Provenance,
    EditionProvenance,
    Embedding,
    IncomingLinks,
    OutgoingLinks,
    LeftEntity,
    RightEntity,
}

impl EntityQueryToken {
    /// The token that the name `s` denotes, if any.
    pub open spec fn spec_from_name(s: Seq<char>) -> Option<EntityQueryToken> {
        if s == "uuid"@ {
            Some(EntityQueryToken::Uuid)
        } else if s == "editionId"@ {
            Some(EntityQueryToken::EditionId)
        } else if s == "draftId"@ {
            Some(EntityQueryToken::DraftId)
        } else if s == "archived"@ {
            Some(EntityQueryToken::Archived)
        } else if s == "ownedById"@ {
            Some(EntityQueryToken::OwnedById)
        } else if s == "type"@ {
            Some(EntityQueryToken::Type)
        } else if s == "properties"@ {
            Some(EntityQueryToken::Properties)
        } else if s == "label"@ {
            Some(EntityQueryToken::Label)
        } else if s == "provenance"@ {
            Some(EntityQueryToken::Provenance)
        } else if s == "editionProvenance"@ {
            Some(EntityQueryToken::EditionProvenance)
        } else if s == "embedding"@ {
            Some(EntityQueryToken::Embedding)
        } else if s == "incomingLinks"@ {
            Some(EntityQueryToken::IncomingLinks)
        } else if s == "outgoingLinks"@ {
            Some(EntityQueryToken::OutgoingLinks)
        } else if s == "leftEntity"@ {
            Some(EntityQueryToken::LeftEntity)
        } else if s == "rightEntity"@ {
            Some(EntityQueryToken::RightEntity)
        } else {
            None
        }
    }

    /// The token that the name `s` denotes, if any.
    pub fn from_name(s: &str) -> (r: Option<EntityQueryToken>)
        ensures
            r == Self::spec_from_name(s@),
    {
        if text_eq(s, "uuid") {
            Some(EntityQueryToken::Uuid)
        } else if text_eq(s, "editionId") {
            Some(EntityQueryToken::EditionId)
        } else if text_eq(s, "draftId") {
            Some(EntityQueryToken::DraftId)
        } else if text_eq(s, "archived") {
            Some(EntityQueryToken::Archived)
        } else if text_eq(s, "ownedById") {
            Some(EntityQueryToken::OwnedById)
        } else if text_eq(s, "type") {
            Some(EntityQueryToken::Type)
        } else if text_eq(s, "properties") {
            Some(EntityQueryToken::Properties)
        } else if text_eq(s, "label") {
            Some(EntityQueryToken::Label)
        } else if text_eq(s, "provenance") {
            Some(EntityQueryToken::Provenance)
        } else if text_eq(s, "editionProvenance") {
            Some(EntityQueryToken::EditionProvenance)
        } else if text_eq(s, "embedding") {
            Some(EntityQueryToken::Embedding)
        } else if text_eq(s, "incomingLinks") {
            Some(EntityQueryToken::IncomingLinks)
        } else if text_eq(s, "outgoingLinks") {
            Some(EntityQueryToken::OutgoingLinks)
        } else if text_eq(s, "leftEntity") {
            Some(EntityQueryToken::LeftEntity)
        } else if text_eq(s, "rightEntity") {
            Some(EntityQueryToken::RightEntity)
        } else {
            None
        }
    }

    /// The name of this token.
    pub open spec fn spec_name(self) -> Seq<char> {
        match self {
            EntityQueryToken::Uuid => "uuid"@,
            EntityQueryToken::EditionId => "editionId"@,
            EntityQueryToken::DraftId => "draftId"@,
            EntityQueryToken::Archived => "archived"@,
            EntityQueryToken::OwnedById => "ownedById"@,
            EntityQueryToken::Type => "type"@,
            EntityQueryToken::Properties => "properties"@,
            EntityQueryToken::Label => "label"@,
            EntityQueryToken::Provenance => "provenance"@,
            EntityQueryToken::EditionProvenance => "editionProvenance"@,
            EntityQueryToken::Embedding => "embedding"@,
            EntityQueryToken::IncomingLinks => "incomingLinks"@,
            EntityQueryToken::OutgoingLinks => "outgoingLinks"@,
            EntityQueryToken::LeftEntity => "leftEntity"@,
            EntityQueryToken::RightEntity => "rightEntity"@,
        }
    }

    /// The path that a token without further tokens denotes, for the tokens
    /// that take nothing else.
    pub open spec fn leaf(self) -> Option<EntityQueryPathView> {
        match self {
            EntityQueryToken::Uuid => Some(EntityQueryPathView::Uuid),
            EntityQueryToken::EditionId => Some(EntityQueryPathView::EditionId),
            EntityQueryToken::DraftId => Some(EntityQueryPathView::DraftId),
            EntityQueryToken::Archived => Some(EntityQueryPathView::Archived),
            EntityQueryToken::OwnedById => Some(EntityQueryPathView::OwnedById),
            EntityQueryToken::Embedding => Some(EntityQueryPathView::Embedding),
            _ => None,
        }
    }

    /// The edge and direction that a link token follows.
    pub open spec fn edge(self) -> Option<(KnowledgeGraphEdgeKind, EdgeDirection)> {
        match self {
            EntityQueryToken::LeftEntity => Some(
                (KnowledgeGraphEdgeKind::HasLeftEntity, EdgeDirection::Outgoing),
            ),
            EntityQueryToken::RightEntity => Some(
                (KnowledgeGraphEdgeKind::HasRightEntity, EdgeDirection::Outgoing),
            ),
            EntityQueryToken::OutgoingLinks => Some(
                (KnowledgeGraphEdgeKind::HasLeftEntity, EdgeDirection::Incoming),
            ),
            EntityQueryToken::IncomingLinks => Some(
                (KnowledgeGraphEdgeKind::HasRightEntity, EdgeDirection::Incoming),
            ),
            _ => None,
        }
    }
}

/// The names that start an entity sorting path.
#[derive(Debug, Clone, Copy, PartialEq, Eq, Structural)]
pub enum EntityQuerySortingToken {
    Uuid,
    Archived,
    Properties,
    Label,
    RecordCreatedAtTransactionTime,
    RecordCreatedAtDecisionTime,
    CreatedAtTransactionTime,
    CreatedAtDecisionTime,
    TypeTitle,
}

impl EntityQuerySortingToken {
    /// The token that the name `s` denotes, if any.
    pub open spec fn spec_from_name(s: Seq<char>) -> Option<EntityQuerySortingToken> {
        if s == "uuid"@ {
            Some(EntityQuerySortingToken::Uuid)
        } else if s == "archived"@ {
            Some(EntityQuerySortingToken::Archived)
        } else if s == "properties"@ {
            Some(EntityQuerySortingToken::Properties)
        } else if s == "label"@ {
            Some(EntityQuerySortingToken::Label)
        } else if s == "recordCreatedAtTransactionTime"@ {
            Some(EntityQuerySortingToken::RecordCreatedAtTransactionTime)
        } else if s == "recordCreatedAtDecisionTime"@ {
            Some(EntityQuerySortingToken::RecordCreatedAtDecisionTime)
        } else if s == "createdAtTransactionTime"@ {
            Some(EntityQuerySortingToken::CreatedAtTransactionTime)
        } else if s == "createdAtDecisionTime"@ {
            Some(EntityQuerySortingToken::CreatedAtDecisionTime)
        } else if s == "typeTitle"@ {
            Some(EntityQuerySortingToken::TypeTitle)
        } else {
            None
        }
    }

    /// The token that the name `s` denotes, if any.
    pub fn from_name(s: &str) -> (r: Option<EntityQuerySortingToken>)
        ensures
            r == Self::spec_from_name(s@),
    {
        if text_eq(s, "uuid") {
            Some(EntityQuerySortingToken::Uuid)
        } else if text_eq(s, "archived") {
            Some(EntityQuerySortingToken::Archived)
        } else if text_eq(s, "properties") {
            Some(EntityQuerySortingToken::Properties)
        } else if text_eq(s, "label") {
            Some(EntityQuerySortingToken::Label)
        } else if text_eq(s, "recordCreatedAtTransactionTime") {
            Some(EntityQuerySortingToken::RecordCreatedAtTransactionTime)
        } else if text_eq(s, "recordCreatedAtDecisionTime") {
            Some(EntityQuerySortingToken::RecordCreatedAtDecisionTime)
        } else if text_eq(s, "createdAtTransactionTime") {
            Some(EntityQuerySortingToken::CreatedAtTransactionTime)
        } else if text_eq(s, "createdAtDecisionTime") {
            Some(EntityQuerySortingToken::CreatedAtDecisionTime)
        } else if text_eq(s, "typeTitle") {
            Some(EntityQuerySortingToken::TypeTitle)
        } else {
            None
        }
    }
}

/// The metadata facets that a property path can address.
#[derive(Debug, Clone, Copy, PartialEq, Eq, Structural)]
pub enum MetaTag {
    /// The canonical form of the value.
    Convert,
    /// The data type of the value.
    DataTypeId,
}

/// What one token of a property path is.
pub enum PropertiesToken {
    Property(Seq<char>),
    Index(nat),
    Meta(MetaTag),
}

/// How a token of a property path is read: a base URL names a property, a
/// run of decimal digits that fits in `usize` is an index, and `convert` and
/// `dataTypeId` are metadata tags.
pub open spec fn property_token_of(s: Seq<char>) -> Option<PropertiesToken> {
    if is_base_url(s) {
        Some(PropertiesToken::Property(s))
    } else if s.len() > 0 && scan_digits(s, usize::MAX as nat) is Ok {
        Some(PropertiesToken::Index(scan_digits(s, usize::MAX as nat)->Ok_0))
    } else if s == "convert"@ {
        Some(PropertiesToken::Meta(MetaTag::Convert))
    } else if s == "dataTypeId"@ {
        Some(PropertiesToken::Meta(MetaTag::DataTypeId))
    } else {
        None
    }
}

/// The field of the value's metadata that a tag addresses.
pub open spec fn meta_field(tag: MetaTag) -> Seq<char> {
    match tag {
        MetaTag::Convert => "canonical"@,
        MetaTag::DataTypeId => "dataTypeId"@,
    }
}

/// `acc` with a `value` field before each of its tokens.
pub open spec fn value_prefixed(acc: Seq<PathTokenView>) -> Seq<PathTokenView>
    decreases acc.len(),
{
    if acc.len() == 0 {
        Seq::empty()
    } else {
        value_prefixed(acc.drop_last()) + seq![
            PathTokenView::Field("value"@),
            acc.last(),
        ]
    }
}

/// The path tokens that the property path tokens `ts` make, and whether
/// they address metadata; or the first fault among them.
pub open spec fn property_tokens(ts: Seq<Seq<char>>) -> Result<
    (Seq<PathTokenView>, bool),
    QueryPathErrorView,
>
    decreases ts.len(),
{
    if ts.len() == 0 {
        Ok((Seq::empty(), false))
    } else {
        match property_tokens(ts.drop_last()) {
            Err(e) => Err(e),
            Ok((acc, meta)) => match property_token_of(ts.last()) {
                None => Err(QueryPathErrorView::InvalidPropertyToken),
                Some(PropertiesToken::Property(url)) => Ok(
                    (acc.push(PathTokenView::Field(url)), meta),
                ),
                Some(PropertiesToken::Index(i)) => if meta {
                    Err(QueryPathErrorView::UnexpectedIndex)
                } else {
                    Ok((acc.push(PathTokenView::Index(i)), meta))
                },
                Some(PropertiesToken::Meta(tag)) => if meta {
                    Err(QueryPathErrorView::UnexpectedMetaTag)
                } else {
                    Ok(
                        (
                            value_prefixed(acc) + seq![
                                PathTokenView::Field("metadata"@),
                                PathTokenView::Field(meta_field(tag)),
                            ],
                            true,
                        ),
                    )
                },
            },
        }
    }
}

/// `acc` as an optional path: none where it is empty.
pub open spec fn optional_path(acc: Seq<PathTokenView>) -> Option<Seq<PathTokenView>> {
    if acc.len() == 0 {
        None
    } else {
        Some(acc)
    }
}

/// The property path made of all tokens of `ts` from `pos` on.
pub open spec fn parse_properties_at(ts: Seq<Seq<char>>, pos: int) -> Result<
    (EntityQueryPathView, int),
    QueryPathErrorView,
> {
    match property_tokens(ts.subrange(pos, ts.len() as int)) {
        Err(e) => Err(e),
        Ok((acc, meta)) => Ok(
            (
                if meta {
                    EntityQueryPathView::PropertyMetadata(optional_path(acc))
                } else {
                    EntityQueryPathView::Properties(optional_path(acc))
                },
                ts.len() as int,
            ),
        ),
    }
}

/// The fields named by `ts`, in order, as an optional path.
pub open spec fn field_path(ts: Seq<Seq<char>>) -> Option<Seq<PathTokenView>> {
    optional_path(ts.map_values(|t: Seq<char>| PathTokenView::Field(t)))
}

/// Takes `inheritanceDepth` out of the parameters and reads it as an
/// unsigned 32-bit integer.
pub open spec fn take_inheritance_depth(ps: ParameterList) -> Result<
    (Option<u32>, ParameterList),
    QueryPathErrorView,
> {
    let (v, rest) = remove_parameter(ps, "inheritanceDepth"@);
    match v {
        None => Ok((None, rest)),
        Some(text) => match parse_u32(text) {
            Ok(d) => Ok((Some(d), rest)),
            Err(kind) => Err(QueryPathErrorView::InvalidInheritanceDepth { kind }),
        },
    }
}

/// `p`, ending before position `end`, unless parameters are left over.
pub open spec fn claim_all(p: EntityQueryPathView, end: int, rest: ParameterList) -> Result<
    (EntityQueryPathView, int),
    QueryPathErrorView,
> {
    if rest.len() > 0 {
        Err(QueryPathErrorView::UnknownParameters { keys: keys_of(rest) })
    } else {
        Ok((p, end))
    }
}

/// The entity query path that starts at position `pos` of `ts`, and the
/// position after it.
pub open spec fn parse_entity_at(ts: Seq<Seq<char>>, pos: int) -> Result<
    (EntityQueryPathView, int),
    QueryPathErrorView,
>
    decreases ts.len() - pos,
{
    if pos < 0 || pos >= ts.len() {
        Err(QueryPathErrorView::MissingToken { position: pos as nat, expected: Vocabulary::Entity })
    } else {
        match split_token(ts[pos]) {
            Err(e) => Err(QueryPathErrorView::Syntax(e)),
            Ok((name, params)) => match EntityQueryToken::spec_from_name(name) {
                None => Err(
                    QueryPathErrorView::UnknownVariant { variant: name, expected: Vocabulary::Entity },
                ),
                Some(token) => {
                    let next = pos + 1;
                    if let Some(leaf) = token.leaf() {
                        claim_all(leaf, next, params)
                    } else if let Some((edge_kind, direction)) = token.edge() {
                        match parse_entity_at(ts, next) {
                            Err(e) => Err(e),
                            Ok((child, end)) => claim_all(
                                EntityQueryPathView::EntityEdge {
                                    edge_kind,
                                    path: Box::new(child),
                                    direction,
                                },
                                end,
                                params,
                            ),
                        }
                    } else {
                        match token {
                            EntityQueryToken::Type => match parse_entity_type_at(ts, next) {
                                Err(e) => Err(e),
                                Ok((child, end)) => match take_inheritance_depth(params) {
                                    Err(e) => Err(e),
                                    Ok((depth, rest)) => claim_all(
                                        EntityQueryPathView::EntityTypeEdge {
                                            edge_kind: SharedEdgeKind::IsOfType,
                                            path: child,
                                            inheritance_depth: depth,
                                        },
                                        end,
                                        rest,
                                    ),
                                },
                            },
                            EntityQueryToken::Properties => match parse_properties_at(ts, next) {
                                Err(e) => Err(e),
                                Ok((p, end)) => claim_all(p, end, params),
                            },
                            EntityQueryToken::Label => match take_inheritance_depth(params) {
                                Err(e) => Err(e),
                                Ok((depth, rest)) => claim_all(
                                    EntityQueryPathView::Label { inheritance_depth: depth },
                                    next,
                                    rest,
                                ),
                            },
                            EntityQueryToken::Provenance => claim_all(
                                EntityQueryPathView::Provenance(
                                    field_path(ts.subrange(next, ts.len() as int)),
                                ),
                                ts.len() as int,
                                params,
                            ),
                            _ => claim_all(
                                EntityQueryPathView::EditionProvenance(
                                    field_path(ts.subrange(next, ts.len() as int)),
                                ),
                                ts.len() as int,
                                params,
                            ),
                        }
                    }
                },
            },
        }
    }
}

/// The entity sorting path that starts at position `pos` of `ts`, and the
/// position after it.
pub open spec fn parse_sorting_at(ts: Seq<Seq<char>>, pos: int) -> Result<
    (EntityQueryPathView, int),
    QueryPathErrorView,
> {
    if pos < 0 || pos >= ts.len() {
        Err(
            QueryPathErrorView::MissingToken {
                position: pos as nat,
                expected: Vocabulary::EntitySorting,
            },
        )
    } else {
        match split_token(ts[pos]) {
            Err(e) => Err(QueryPathErrorView::Syntax(e)),
            Ok((name, params)) => match EntityQuerySortingToken::spec_from_name(name) {
                None => Err(
                    QueryPathErrorView::UnknownVariant {
                        variant: name,
                        expected: Vocabulary::EntitySorting,
                    },
                ),
                Some(token) => {
                    let next = pos + 1;
                    match token {
                        EntityQuerySortingToken::Uuid => claim_all(
                            EntityQueryPathView::Uuid,
                            next,
                            params,
                        ),
                        EntityQuerySortingToken::Archived => claim_all(
                            EntityQueryPathView::Archived,
                            next,
                            params,
                        ),
                        EntityQuerySortingToken::RecordCreatedAtTransactionTime => claim_all(
                            EntityQueryPathView::TransactionTime,
                            next,
                            params,
                        ),
                        EntityQuerySortingToken::RecordCreatedAtDecisionTime => claim_all(
                            EntityQueryPathView::DecisionTime,
                            next,
                            params,
                        ),
                        EntityQuerySortingToken::CreatedAtTransactionTime => claim_all(
                            EntityQueryPathView::Provenance(
                                Some(seq![PathTokenView::Field("createdAtTransactionTime"@)]),
                            ),
                            next,
                            params,
                        ),
                        EntityQuerySortingToken::CreatedAtDecisionTime => claim_all(
                            EntityQueryPathView::Provenance(
                                Some(seq![PathTokenView::Field("createdAtDecisionTime"@)]),
                            ),
                            next,
                            params,
                        ),
                        EntityQuerySortingToken::TypeTitle => claim_all(
                            EntityQueryPathView::EntityTypeEdge {
                                edge_kind: SharedEdgeKind::IsOfType,
                                path: EntityTypeQueryPath::Title,
                                inheritance_depth: Some(0),
                            },
                            next,
                            params,
                        ),
                        EntityQuerySortingToken::Label => match take_inheritance_depth(params) {
                            Err(e) => Err(e),
                            Ok((depth, rest)) => claim_all(
                                EntityQueryPathView::Label { inheritance_depth: depth },
                                next,
                                rest,
                            ),
                        },
                        EntityQuerySortingToken::Properties => match parse_properties_at(ts, next) {
                            Err(e) => Err(e),
                            Ok((p, end)) => claim_all(p, end, params),
                        },
                    }
                },
            },
        }
    }
}

/// The path read from the start of a sequence of `n` tokens, unless tokens
/// are left after it.
pub open spec fn whole_sequence(r: Result<(EntityQueryPathView, int), QueryPathErrorView>, n: int) -> Result<
    EntityQueryPathView,
    QueryPathErrorView,
> {
    match r {
        Err(e) => Err(e),
        Ok((p, end)) => if end < n {
            Err(QueryPathErrorView::TrailingTokens { given: n as nat, expected: end as nat })
        } else {
            Ok(p)
        },
    }
}

/// The entity query path that the whole of `ts` denotes.
pub open spec fn parse_entity_query(ts: Seq<Seq<char>>) -> Result<EntityQueryPathView, QueryPathErrorView> {
    whole_sequence(parse_entity_at(ts, 0), ts.len() as int)
}

/// The entity sorting path that the whole of `ts` denotes.
pub open spec fn parse_sorting_query(ts: Seq<Seq<char>>) -> Result<EntityQueryPathView, QueryPathErrorView> {
    whole_sequence(parse_sorting_at(ts, 0), ts.len() as int)
}

/// What a visitor's outcome stands for.
pub open spec fn visited(r: Result<(EntityQueryPath, usize), QueryPathError>) -> Result<
    (EntityQueryPathView, int),
    QueryPathErrorView,
> {
    match r {
        Ok((p, end)) => Ok((p@, end as int)),
        Err(e) => Err(e@),
    }
}

/// What a parse's outcome stands for.
pub open spec fn outcome(r: Result<EntityQueryPath, QueryPathError>) -> Result<
    EntityQueryPathView,
    QueryPathErrorView,
> {
    match r {
        Ok(p) => Ok(p@),
        Err(e) => Err(e@),
    }
}

proof fn lemma_property_error_persists(ts: Seq<Seq<char>>, k: int)
    requires
        0 <= k <= ts.len(),
        property_tokens(ts.subrange(0, k)) is Err,
    ensures
        property_tokens(ts) == property_tokens(ts.subrange(0, k)),
    decreases ts.len() - k,
{
    if k < ts.len() {
        assert(ts.subrange(0, k + 1).drop_last() =~= ts.subrange(0, k));
        lemma_property_error_persists(ts, k + 1);
    } else {
        assert(ts.subrange(0, k) =~= ts);
    }
}

/// What one token of a property path is, with a property's URL left in the
/// token itself.
enum PropertyPart {
    Property,
    Index(usize),
    Meta(MetaTag),
}

fn classify_property_token(s: &str) -> (r: Option<PropertyPart>)
    ensures
        match r {
            None => property_token_of(s@) is None,
            Some(PropertyPart::Property) => property_token_of(s@) == Some(
                PropertiesToken::Property(s@),
            ),
            Some(PropertyPart::Index(i)) => property_token_of(s@) == Some(
                PropertiesToken::Index(i as nat),
            ),
            Some(PropertyPart::Meta(t)) => property_token_of(s@) == Some(PropertiesToken::Meta(t)),
        },
{
    if check_base_url(s) {
        return Some(PropertyPart::Property);
    }
    let cs = chars_of(s);
    let n = cs.len();
    assert(cs@.subrange(0, n as int) =~= s@);
    if n > 0 {
        match scan_decimal(&cs, 0, n, usize::MAX) {
            Ok(v) => {
                return Some(PropertyPart::Index(v));
            },
            Err(_) => {},
        }
    }
    if text_eq(s, "convert") {
        Some(PropertyPart::Meta(MetaTag::Convert))
    } else if text_eq(s, "dataTypeId") {
        Some(PropertyPart::Meta(MetaTag::DataTypeId))
    } else {
        None
    }
}

fn owned_field(s: &str) -> (r: PathToken)
    ensures
        r@ == PathTokenView::Field(s@),
{
    PathToken::Field(s.to_owned())
}

/// `acc` with a `value` field before each of its tokens.
fn prefix_values(acc: Vec<PathToken>) -> (r: Vec<PathToken>)
    ensures
        tokens_view(r@) == value_prefixed(tokens_view(acc@)),
{
    let ghost all = tokens_view(acc@);
    let n = acc.len();
    let mut rest = acc;
    let mut out: Vec<PathToken> = Vec::new();
    let mut k: usize = 0;
    assert(all.subrange(0, 0) =~= Seq::<PathTokenView>::empty());
    assert(tokens_view(out@) =~= Seq::<PathTokenView>::empty());
    assert(all.subrange(0, all.len() as int) =~= all);
    while rest.len() > 0
        invariant
            n == all.len(),
            k + rest@.len() == all.len(),
            tokens_view(rest@) == all.subrange(k as int, all.len() as int),
            tokens_view(out@) == value_prefixed(all.subrange(0, k as int)),
        decreases rest@.len(),
    {
        let ghost old_out = tokens_view(out@);
        let ghost old_rest = tokens_view(rest@);
        let ghost old_rest_exec = rest@;
        let t = rest.remove(0);
        assert(rest@ =~= old_rest_exec.subrange(1, old_rest_exec.len() as int));
        assert(t@ == all[k as int]) by {
            assert(old_rest[0] == all[k as int]);
        }
        out.push(owned_field("value"));
        out.push(t);
        assert(tokens_view(out@) =~= old_out + seq![
            PathTokenView::Field("value"@),
            all[k as int],
        ]);
        assert(all.subrange(0, k + 1).drop_last() =~= all.subrange(0, k as int));
        assert(tokens_view(rest@) =~= old_rest.subrange(1, old_rest.len() as int));
        assert(old_rest.subrange(1, old_rest.len() as int) =~= all.subrange(
            k + 1,
            all.len() as int,
        ));
        k = k + 1;
    }
    assert(all.subrange(0, k as int) =~= all);
    out
}

fn meta_field_text(tag: MetaTag) -> (r: &'static str)
    ensures
        r@ == meta_field(tag),
{
    match tag {
        MetaTag::Convert => "canonical",
        MetaTag::DataTypeId => "dataTypeId",
    }
}

fn optional_json(acc: Vec<PathToken>) -> (r: Option<JsonPath>)
    ensures
        json_view(r) == optional_path(tokens_view(acc@)),
{
    if acc.len() == 0 {
        None
    } else {
        Some(JsonPath::from_path_tokens(acc))
    }
}

/// Reads a property path: all remaining tokens, from `position` on.
struct EntityPropertiesPathVisitor {
    position: usize,
}

impl EntityPropertiesPathVisitor {
    fn visit_seq(self, tokens: &[String]) -> (r: Result<(EntityQueryPath, usize), QueryPathError>)
        requires
            self.position <= tokens@.len(),
        ensures
            visited(r) == parse_properties_at(texts_view(tokens@), self.position as int),
    {
        let ghost ts = texts_view(tokens@);
        let ghost pos = self.position as int;
        let ghost sub = ts.subrange(pos, ts.len() as int);
        let mut acc: Vec<PathToken> = Vec::new();
        let mut meta = false;
        let mut i = self.position;
        assert(sub.subrange(0, 0) =~= Seq::<Seq<char>>::empty());
        assert(tokens_view(acc@) =~= Seq::<PathTokenView>::empty());
        while i < tokens.len()
            invariant
                self.position <= i <= tokens@.len(),
                ts == texts_view(tokens@),
                pos == self.position,
                sub == ts.subrange(pos, ts.len() as int),
                property_tokens(sub.subrange(0, i - pos)) == Ok::<_, QueryPathErrorView>(
                    (tokens_view(acc@), meta),
                ),
            decreases tokens@.len() - i,
        {
            let ghost prefix = sub.subrange(0, i + 1 - pos);
            assert(prefix.drop_last() =~= sub.subrange(0, i - pos));
            assert(prefix.last() == tokens@[i as int]@);
            let ghost acc_before = tokens_view(acc@);
            match classify_property_token(tokens[i].as_str()) {
                None => {
                    proof {
                        lemma_property_error_persists(sub, i + 1 - pos);
                    }
                    return Err(QueryPathError::InvalidPropertyToken);
                },
                Some(PropertyPart::Property) => {
                    acc.push(PathToken::Field(tokens[i].clone()));
                    assert(tokens_view(acc@) =~= acc_before.push(
                        PathTokenView::Field(tokens@[i as int]@),
                    ));
                },
                Some(PropertyPart::Index(k)) => {
                    if meta {
                        proof {
                            lemma_property_error_persists(sub, i + 1 - pos);
                        }
                        return Err(QueryPathError::UnexpectedIndex);
                    }
                    acc.push(PathToken::Index(k));
                    assert(tokens_view(acc@) =~= acc_before.push(PathTokenView::Index(k as nat)));
                },
                Some(PropertyPart::Meta(tag)) => {
                    if meta {
                        proof {
                            lemma_property_error_persists(sub, i + 1 - pos);
                        }
                        return Err(QueryPathError::UnexpectedMetaTag);
                    }
                    acc = prefix_values(acc);
                    let ghost prefixed = tokens_view(acc@);
                    acc.push(owned_field("metadata"));
                    acc.push(owned_field(meta_field_text(tag)));
                    assert(tokens_view(acc@) =~= prefixed + seq![
                        PathTokenView::Field("metadata"@),
                        PathTokenView::Field(meta_field(tag)),
                    ]);
                    meta = true;
                },
            }
            i = i + 1;
        }
        assert(sub.subrange(0, i - pos) =~= sub);
        let json = optional_json(acc);
        let path = if meta {
            EntityQueryPath::PropertyMetadata(json)
        } else {
            EntityQueryPath::Properties(json)
        };
        Ok((path, tokens.len()))
    }
}

/// The fields named by `tokens[from..]`, in order, as an optional path.
fn field_path_from(tokens: &[String], from: usize) -> (r: Option<JsonPath>)
    requires
        from <= tokens@.len(),
    ensures
        json_view(r) == field_path(texts_view(tokens@).subrange(from as int, tokens@.len() as int)),
{
    let ghost fields = texts_view(tokens@).subrange(from as int, tokens@.len() as int).map_values(
        |t: Seq<char>| PathTokenView::Field(t),
    );
    let mut acc: Vec<PathToken> = Vec::new();
    let mut i = from;
    assert(tokens_view(acc@) =~= fields.subrange(0, 0));
    while i < tokens.len()
        invariant
            from <= i <= tokens@.len(),
            fields == texts_view(tokens@).subrange(from as int, tokens@.len() as int).map_values(
                |t: Seq<char>| PathTokenView::Field(t),
            ),
            tokens_view(acc@) == fields.subrange(0, i - from),
        decreases tokens@.len() - i,
    {
        let ghost before = tokens_view(acc@);
        acc.push(PathToken::Field(tokens[i].clone()));
        assert(tokens_view(acc@) =~= before.push(PathTokenView::Field(tokens@[i as int]@)));
        assert(fields[i - from] == PathTokenView::Field(tokens@[i as int]@));
        assert(fields.subrange(0, i + 1 - from) =~= fields.subrange(0, i - from).push(
            fields[i - from],
        ));
        i = i + 1;
    }
    assert(fields.subrange(0, i - from) =~= fields);
    optional_json(acc)
}

/// Takes `inheritanceDepth` out of `params` and reads it.
fn remove_inheritance_depth(params: &mut Vec<QueryParameter>) -> (r: Result<
    Option<u32>,
    QueryPathError,
>)
    ensures
        match r {
            Ok(d) => take_inheritance_depth(parameters_view(old(params)@)) == Ok::<
                _,
                QueryPathErrorView,
            >((d, parameters_view(final(params)@))),
            Err(e) => take_inheritance_depth(parameters_view(old(params)@)) == Err::<
                (Option<u32>, ParameterList),
                _,
            >(e@),
        },
{
    match remove_query_parameter(params, "inheritanceDepth") {
        None => Ok(None),
        Some(text) => match parse_u32_text(text.as_str()) {
            Ok(d) => Ok(Some(d)),
            Err(kind) => Err(QueryPathError::InvalidInheritanceDepth { kind }),
        },
    }
}

/// Fails where parameters are left over.
fn claim_parameters(params: Vec<QueryParameter>) -> (r: Result<(), QueryPathError>)
    ensures
        match r {
            Ok(()) => parameters_view(params@).len() == 0,
            Err(e) => parameters_view(params@).len() > 0 && e@
                == QueryPathErrorView::UnknownParameters { keys: keys_of(parameters_view(params@)) },
        },
{
    if params.len() > 0 {
        Err(QueryPathError::UnknownParameters { keys: parameter_keys(params) })
    } else {
        Ok(())
    }
}

/// Reads an entity query path from a token sequence, starting at `position`.
pub struct EntityQueryPathVisitor {
    pub position: usize,
}

impl EntityQueryPathVisitor {
    pub fn new(position: usize) -> (r: Self)
        ensures
            r.position == position,
    {
        EntityQueryPathVisitor { position }
    }

    /// The names that this visitor accepts, as listed in messages.
    pub fn expecting(&self) -> (r: &'static str)
        ensures
            r@ == Vocabulary::Entity.spec_expecting(),
    {
        Vocabulary::Entity.expecting()
    }

    /// Reads one path from `tokens` at this visitor's position; hands back
    /// the path and the position after it.
    pub fn visit_seq(self, tokens: &[String]) -> (r: Result<(EntityQueryPath, usize), QueryPathError>)
        ensures
            visited(r) == parse_entity_at(texts_view(tokens@), self.position as int),
        decreases tokens@.len() - self.position,
    {
        let ghost ts = texts_view(tokens@);
        let pos = self.position;
        if pos >= tokens.len() {
            return Err(QueryPathError::MissingToken { position: pos, expected: Vocabulary::Entity });
        }
        assert(ts[pos as int] == tokens@[pos as int]@);
        let token = match parse_query_token(tokens[pos].as_str()) {
            Ok(t) => t,
            Err(e) => {
                return Err(QueryPathError::Syntax(e));
            },
        };
        let ParsedToken { name, mut parameters } = token;
        let kind = match EntityQueryToken::from_name(name.as_str()) {
            Some(k) => k,
            None => {
                return Err(
                    QueryPathError::UnknownVariant { variant: name, expected: Vocabulary::Entity },
                );
            },
        };
        let next = pos + 1;
        let (path, end) = match kind {
            EntityQueryToken::Uuid => (EntityQueryPath::Uuid, next),
            EntityQueryToken::EditionId => (EntityQueryPath::EditionId, next),
            EntityQueryToken::OwnedById => (EntityQueryPath::OwnedById, next),
            EntityQueryToken::DraftId => (EntityQueryPath::DraftId, next),
            EntityQueryToken::Archived => (EntityQueryPath::Archived, next),
            EntityQueryToken::Embedding => (EntityQueryPath::Embedding, next),
            EntityQueryToken::Type => {
                let (child, end) = match EntityTypeQueryPathVisitor::new(next).visit_seq(tokens) {
                    Ok(v) => v,
                    Err(e) => {
                        return Err(e);
                    },
                };
                let depth = match remove_inheritance_depth(&mut parameters) {
                    Ok(d) => d,
                    Err(e) => {
                        return Err(e);
                    },
                };
                (
                    EntityQueryPath::EntityTypeEdge {
                        edge_kind: SharedEdgeKind::IsOfType,
                        path: child,
                        inheritance_depth: depth,
                    },
                    end,
                )
            },
            EntityQueryToken::Properties => {
                match (EntityPropertiesPathVisitor { position: next }).visit_seq(tokens) {
                    Ok(v) => v,
                    Err(e) => {
                        return Err(e);
                    },
                }
            },
            EntityQueryToken::Label => {
                let depth = match remove_inheritance_depth(&mut parameters) {
                    Ok(d) => d,
                    Err(e) => {
                        return Err(e);
                    },
                };
                (EntityQueryPath::Label { inheritance_depth: depth }, next)
            },
            EntityQueryToken::Provenance => (
                EntityQueryPath::Provenance(field_path_from(tokens, next)),
                tokens.len(),
            ),
            EntityQueryToken::EditionProvenance => (
                EntityQueryPath::EditionProvenance(field_path_from(tokens, next)),
                tokens.len(),
            ),
            EntityQueryToken::LeftEntity => {
                let (child, end) = match Self::new(next).visit_seq(tokens) {
                    Ok(v) => v,
                    Err(e) => {
                        return Err(e);
                    },
                };
                (
                    EntityQueryPath::EntityEdge {
                        edge_kind: KnowledgeGraphEdgeKind::HasLeftEntity,
                        path: Box::new(child),
                        direction: EdgeDirection::Outgoing,
                    },
                    end,
                )
            },
            EntityQueryToken::RightEntity => {
                let (child, end) = match Self::new(next).visit_seq(tokens) {
                    Ok(v) => v,
                    Err(e) => {
                        return Err(e);
                    },
                };
                (
                    EntityQueryPath::EntityEdge {
                        edge_kind: KnowledgeGraphEdgeKind::HasRightEntity,
                        path: Box::new(child),
                        direction: EdgeDirection::Outgoing,
                    },
                    end,
                )
            },
            EntityQueryToken::OutgoingLinks => {
                let (child, end) = match Self::new(next).visit_seq(tokens) {
                    Ok(v) => v,
                    Err(e) => {
                        return Err(e);
                    },
                };
                (
                    EntityQueryPath::EntityEdge {
                        edge_kind: KnowledgeGraphEdgeKind::HasLeftEntity,
                        path: Box::new(child),
                        direction: EdgeDirection::Incoming,
                    },
                    end,
                )
            },
            EntityQueryToken::IncomingLinks => {
                let (child, end) = match Self::new(next).visit_seq(tokens) {
                    Ok(v) => v,
                    Err(e) => {
                        return Err(e);
                    },
                };
                (
                    EntityQueryPath::EntityEdge {
                        edge_kind: KnowledgeGraphEdgeKind::HasRightEntity,
                        path: Box::new(child),
                        direction: EdgeDirection::Incoming,
                    },
                    end,
                )
            },
        };
        match claim_parameters(parameters) {
            Ok(()) => Ok((path, end)),
            Err(e) => Err(e),
        }
    }
}

/// Reads an entity sorting path from a token sequence, starting at
/// `position`.
pub struct EntityQuerySortingVisitor {
    pub position: usize,
}

impl EntityQuerySortingVisitor {
    pub fn new(position: usize) -> (r: Self)
        ensures
            r.position == position,
    {
        EntityQuerySortingVisitor { position }
    }

    /// The names that this visitor accepts, as listed in messages.
    pub fn expecting(&self) -> (r: &'static str)
        ensures
            r@ == Vocabulary::EntitySorting.spec_expecting(),
    {
        Vocabulary::EntitySorting.expecting()
    }

    /// Reads one sorting path from `tokens` at this visitor's position;
    /// hands back the path and the position after it.
    pub fn visit_seq(self, tokens: &[String]) -> (r: Result<(EntityQueryPath, usize), QueryPathError>)
        ensures
            visited(r) == parse_sorting_at(texts_view(tokens@), self.position as int),
    {
        let ghost ts = texts_view(tokens@);
        let pos = self.position;
        if pos >= tokens.len() {
            return Err(
                QueryPathError::MissingToken { position: pos, expected: Vocabulary::EntitySorting },
            );
        }
        assert(ts[pos as int] == tokens@[pos as int]@);
        let token = match parse_query_token(tokens[pos].as_str()) {
            Ok(t) => t,
            Err(e) => {
                return Err(QueryPathError::Syntax(e));
            },
        };
        let ParsedToken { name, mut parameters } = token;
        let kind = match EntityQuerySortingToken::from_name(name.as_str()) {
            Some(k) => k,
            None => {
                return Err(
                    QueryPathError::UnknownVariant {
                        variant: name,
                        expected: Vocabulary::EntitySorting,
                    },
                );
            },
        };
        let next = pos + 1;
        let (path, end) = match kind {
            EntityQuerySortingToken::Uuid => (EntityQueryPath::Uuid, next),
            EntityQuerySortingToken::Archived => (EntityQueryPath::Archived, next),
            EntityQuerySortingToken::RecordCreatedAtTransactionTime => (
                EntityQueryPath::TransactionTime,
                next,
            ),
            EntityQuerySortingToken::RecordCreatedAtDecisionTime => (
                EntityQueryPath::DecisionTime,
                next,
            ),
            EntityQuerySortingToken::CreatedAtTransactionTime => {
                let fields = vec![owned_field("createdAtTransactionTime")];
                assert(tokens_view(fields@) =~= seq![
                    PathTokenView::Field("createdAtTransactionTime"@),
                ]);
                (EntityQueryPath::Provenance(Some(JsonPath::from_path_tokens(fields))), next)
            },
            EntityQuerySortingToken::CreatedAtDecisionTime => {
                let fields = vec![owned_field("createdAtDecisionTime")];
                assert(tokens_view(fields@) =~= seq![
                    PathTokenView::Field("createdAtDecisionTime"@),
                ]);
                (EntityQueryPath::Provenance(Some(JsonPath::from_path_tokens(fields))), next)
            },
            EntityQuerySortingToken::TypeTitle => (
                EntityQueryPath::EntityTypeEdge {
                    edge_kind: SharedEdgeKind::IsOfType,
                    path: EntityTypeQueryPath::Title,
                    inheritance_depth: Some(0),
                },
                next,
            ),
            EntityQuerySortingToken::Label => {
                let depth = match remove_inheritance_depth(&mut parameters) {
                    Ok(d) => d,
                    Err(e) => {
                        return Err(e);
                    },
                };
                (EntityQueryPath::Label { inheritance_depth: depth }, next)
            },
            EntityQuerySortingToken::Properties => {
                match (EntityPropertiesPathVisitor { position: next }).visit_seq(tokens) {
                    Ok(v) => v,
                    Err(e) => {
                        return Err(e);
                    },
                }
            },
        };
        match claim_parameters(parameters) {
            Ok(()) => Ok((path, end)),
            Err(e) => Err(e),
        }
    }
}

/// The path read from the start of `tokens`, unless tokens are left after it.
fn finish(r: Result<(EntityQueryPath, usize), QueryPathError>, n: usize) -> (res: Result<
    EntityQueryPath,
    QueryPathError,
>)
    ensures
        outcome(res) == whole_sequence(visited(r), n as int),
{
    match r {
        Err(e) => Err(e),
        Ok((p, end)) => if end < n {
            Err(QueryPathError::TrailingTokens { given: n, expected: end })
        } else {
            Ok(p)
        },
    }
}

/// `p` with a `.` and `rest` after it.
pub open spec fn dotted(p: Seq<char>, rest: Seq<char>) -> Seq<char> {
    p + "."@ + rest
}

/// The token name under which an entity edge is written.
pub open spec fn edge_name(edge_kind: KnowledgeGraphEdgeKind, direction: EdgeDirection) -> Seq<char> {
    match (edge_kind, direction) {
        (KnowledgeGraphEdgeKind::HasLeftEntity, EdgeDirection::Outgoing) => "leftEntity"@,
        (KnowledgeGraphEdgeKind::HasRightEntity, EdgeDirection::Outgoing) => "rightEntity"@,
        (KnowledgeGraphEdgeKind::HasLeftEntity, EdgeDirection::Incoming) => "outgoingLinks"@,
        (KnowledgeGraphEdgeKind::HasRightEntity, EdgeDirection::Incoming) => "incomingLinks"@,
    }
}

/// `name`, followed by `.` and the JSON path where there is one.
pub open spec fn with_json(name: Seq<char>, p: Option<Seq<PathTokenView>>) -> Seq<char> {
    match p {
        Some(j) => dotted(name, render_json_path(j)),
        None => name,
    }
}

/// The canonical text of a path.
pub open spec fn render_path(p: EntityQueryPathView) -> Seq<char>
    decreases p,
{
    match p {
        EntityQueryPathView::Uuid => "uuid"@,
        EntityQueryPathView::OwnedById => "ownedById"@,
        EntityQueryPathView::DraftId => "draftId"@,
        EntityQueryPathView::EditionId => "editionId"@,
        EntityQueryPathView::DecisionTime => "decisionTime"@,
        EntityQueryPathView::TransactionTime => "transactionTime"@,
        EntityQueryPathView::TypeBaseUrls => "typeBaseUrls"@,
        EntityQueryPathView::TypeVersions => "typeVersions"@,
        EntityQueryPathView::Archived => "archived"@,
        EntityQueryPathView::Properties(j) => with_json("properties"@, j),
        EntityQueryPathView::Provenance(j) => with_json("provenance"@, j),
        EntityQueryPathView::Label { .. } => "label"@,
        EntityQueryPathView::EditionProvenance(j) => with_json("editionProvenance"@, j),
        EntityQueryPathView::PropertyMetadata(j) => with_json("propertyMetadata"@, j),
        EntityQueryPathView::Embedding => "embedding"@,
        EntityQueryPathView::EntityTypeEdge { path, inheritance_depth, .. } => match inheritance_depth {
            Some(depth) => dotted("type("@ + decimal(depth as nat) + ")"@, path.spec_name()),
            None => dotted("type"@, path.spec_name()),
        },
        EntityQueryPathView::EntityEdge { edge_kind, path, direction } => dotted(
            edge_name(edge_kind, direction),
            render_path(*path),
        ),
        EntityQueryPathView::EntityConfidence => "entityConfidence"@,
        EntityQueryPathView::LeftEntityConfidence => "leftEntityConfidence"@,
        EntityQueryPathView::LeftEntityProvenance => "leftEntityProvenance"@,
        EntityQueryPathView::RightEntityConfidence => "rightEntityConfidence"@,
        EntityQueryPathView::RightEntityProvenance => "rightEntityProvenance"@,
    }
}

/// The kind of value that a path addresses; an edge has the kind of the path
/// at its far end.
pub open spec fn parameter_type(p: EntityQueryPathView) -> ParameterType
    decreases p,
{
    match p {
        EntityQueryPathView::EditionId
        | EntityQueryPathView::Uuid
        | EntityQueryPathView::OwnedById
        | EntityQueryPathView::DraftId => ParameterType::Uuid,
        EntityQueryPathView::DecisionTime
        | EntityQueryPathView::TransactionTime => ParameterType::TimeInterval,
        EntityQueryPathView::TypeBaseUrls => ParameterType::Vector(
            Box::new(ParameterType::VersionedUrl),
        ),
        EntityQueryPathView::TypeVersions => ParameterType::Vector(
            Box::new(ParameterType::OntologyTypeVersion),
        ),
        EntityQueryPathView::Properties(_)
        | EntityQueryPathView::Label { .. }
        | EntityQueryPathView::Provenance(_)
        | EntityQueryPathView::EditionProvenance(_)
        | EntityQueryPathView::PropertyMetadata(_)
        | EntityQueryPathView::LeftEntityProvenance
        | EntityQueryPathView::RightEntityProvenance => ParameterType::Any,
        EntityQueryPathView::EntityConfidence
        | EntityQueryPathView::LeftEntityConfidence
        | EntityQueryPathView::RightEntityConfidence => ParameterType::Float64,
        EntityQueryPathView::Embedding => ParameterType::Vector(Box::new(ParameterType::Float64)),
        EntityQueryPathView::Archived => ParameterType::Boolean,
        EntityQueryPathView::EntityTypeEdge { path, .. } => path.spec_expected_type(),
        EntityQueryPathView::EntityEdge { path, .. } => parameter_type(*path),
    }
}

fn push_with_json(out: &mut String, name: &str, p: &Option<JsonPath>)
    ensures
        final(out)@ == old(out)@ + with_json(name@, json_view(*p)),
{
    out.append(name);
    match p {
        Some(j) => {
            out.append(".");
            let text = j.render();
            out.append(text.as_str());
        },
        None => {},
    }
    assert(final(out)@ =~= old(out)@ + with_json(name@, json_view(*p)));
}

fn edge_text(edge_kind: KnowledgeGraphEdgeKind, direction: EdgeDirection) -> (r: &'static str)
    ensures
        r@ == edge_name(edge_kind, direction),
{
    match (edge_kind, direction) {
        (KnowledgeGraphEdgeKind::HasLeftEntity, EdgeDirection::Outgoing) => "leftEntity",
        (KnowledgeGraphEdgeKind::HasRightEntity, EdgeDirection::Outgoing) => "rightEntity",
        (KnowledgeGraphEdgeKind::HasLeftEntity, EdgeDirection::Incoming) => "outgoingLinks",
        (KnowledgeGraphEdgeKind::HasRightEntity, EdgeDirection::Incoming) => "incomingLinks",
    }
}

impl EntityQueryPath {
    /// The path that the whole token sequence denotes.
    pub fn deserialize(tokens: &[String]) -> (r: Result<EntityQueryPath, QueryPathError>)
        ensures
            outcome(r) == parse_entity_query(texts_view(tokens@)),
    {
        let read = EntityQueryPathVisitor::new(0).visit_seq(tokens);
        finish(read, tokens.len())
    }

    /// The sorting path that the whole token sequence denotes.
    pub fn deserialize_from_sorting_tokens(tokens: &[String]) -> (r: Result<
        EntityQueryPath,
        QueryPathError,
    >)
        ensures
            outcome(r) == parse_sorting_query(texts_view(tokens@)),
    {
        let read = EntityQuerySortingVisitor::new(0).visit_seq(tokens);
        finish(read, tokens.len())
    }

    /// This path, holding no borrowed text.
    pub fn into_owned(self) -> (r: EntityQueryPath)
        ensures
            r@ == self@,
    {
        self
    }

    /// Appends the canonical text of this path to `out`.
    pub fn render_into(&self, out: &mut String)
        ensures
            final(out)@ == old(out)@ + render_path(self@),
        decreases self,
    {
        match self {
            EntityQueryPath::Uuid => out.append("uuid"),
            EntityQueryPath::OwnedById => out.append("ownedById"),
            EntityQueryPath::DraftId => out.append("draftId"),
            EntityQueryPath::EditionId => out.append("editionId"),
            EntityQueryPath::DecisionTime => out.append("decisionTime"),
            EntityQueryPath::TransactionTime => out.append("transactionTime"),
            EntityQueryPath::TypeBaseUrls => out.append("typeBaseUrls"),
            EntityQueryPath::TypeVersions => out.append("typeVersions"),
            EntityQueryPath::Archived => out.append("archived"),
            EntityQueryPath::Properties(p) => push_with_json(out, "properties", p),
            EntityQueryPath::Provenance(p) => push_with_json(out, "provenance", p),
            EntityQueryPath::Label { .. } => out.append("label"),
            EntityQueryPath::EditionProvenance(p) => push_with_json(out, "editionProvenance", p),
            EntityQueryPath::PropertyMetadata(p) => push_with_json(out, "propertyMetadata", p),
            EntityQueryPath::Embedding => out.append("embedding"),
            EntityQueryPath::EntityTypeEdge { path, inheritance_depth, .. } => {
                match inheritance_depth {
                    Some(depth) => {
                        out.append("type(");
                        push_decimal(out, *depth as u64);
                        out.append(")");
                    },
                    None => out.append("type"),
                }
                out.append(".");
                out.append(path.name());
            },
            EntityQueryPath::EntityEdge { edge_kind, path, direction } => {
                out.append(edge_text(*edge_kind, *direction));
                out.append(".");
                path.render_into(out);
            },
            EntityQueryPath::EntityConfidence => out.append("entityConfidence"),
            EntityQueryPath::LeftEntityConfidence => out.append("leftEntityConfidence"),
            EntityQueryPath::LeftEntityProvenance => out.append("leftEntityProvenance"),
            EntityQueryPath::RightEntityConfidence => out.append("rightEntityConfidence"),
            EntityQueryPath::RightEntityProvenance => out.append("rightEntityProvenance"),
        }
        assert(final(out)@ =~= old(out)@ + render_path(self@));
    }

    /// The canonical text of this path.
    pub fn render(&self) -> (r: String)
        ensures
            r@ == render_path(self@),
    {
        let mut out = String::new();
        self.render_into(&mut out);
        assert(out@ =~= render_path(self@));
        out
    }

    /// The kind of value that this path addresses.
    pub fn expected_type(&self) -> (r: ParameterType)
        ensures
            r == parameter_type(self@),
        decreases self,
    {
        match self {
            EntityQueryPath::EditionId
            | EntityQueryPath::Uuid
            | EntityQueryPath::OwnedById
            | EntityQueryPath::DraftId => ParameterType::Uuid,
            EntityQueryPath::DecisionTime
            | EntityQueryPath::TransactionTime => ParameterType::TimeInterval,
            EntityQueryPath::TypeBaseUrls => ParameterType::Vector(
                Box::new(ParameterType::VersionedUrl),
            ),
            EntityQueryPath::TypeVersions => ParameterType::Vector(
                Box::new(ParameterType::OntologyTypeVersion),
            ),
            EntityQueryPath::Properties(_)
            | EntityQueryPath::Label { .. }
            | EntityQueryPath::Provenance(_)
            | EntityQueryPath::EditionProvenance(_)
            | EntityQueryPath::PropertyMetadata(_)
            | EntityQueryPath::LeftEntityProvenance
            | EntityQueryPath::RightEntityProvenance => ParameterType::Any,
            EntityQueryPath::EntityConfidence
            | EntityQueryPath::LeftEntityConfidence
            | EntityQueryPath::RightEntityConfidence => ParameterType::Float64,
            EntityQueryPath::Embedding => ParameterType::Vector(Box::new(ParameterType::Float64)),
            EntityQueryPath::Archived => ParameterType::Boolean,
            EntityQueryPath::EntityTypeEdge { path, .. } => path.expected_type(),
            EntityQueryPath::EntityEdge { path, .. } => path.expected_type(),
        }
    }
}

} // verus!
