//! Laws that relate the parser, the renderer and the type inference of
//! entity query paths.
use vstd::prelude::*;

use crate::error::{error_message, QueryPathErrorView, Vocabulary};
use crate::query::{
    dotted, parameter_type, parse_entity_at, parse_entity_query, parse_sorting_query,
    property_token_of, property_tokens, render_path, EntityQueryPath, EntityQueryPathView,
    EntityQuerySortingToken, EntityQueryToken, PropertiesToken,
};
use crate::text::find_char;
use crate::token::{keys_of, split_token};

verus! {

proof fn lemma_no_char(s: Seq<char>, c: char, from: int)
    requires
        forall|i: int| 0 <= i < s.len() ==> s[i] != c,
    ensures
        find_char(s, c, from) is None,
    decreases s.len() - from,
{
    if 0 <= from < s.len() {
        lemma_no_char(s, c, from + 1);
    }
}

proof fn lemma_name_of(name: Seq<char>)
    requires
        EntityQueryToken::spec_from_name(name) is Some,
    ensures
        name == EntityQueryToken::spec_from_name(name)->0.spec_name(),
{
}

/// Every entity token name is bare (it holds no `(`), and it names its token.
pub proof fn lemma_token_names(token: EntityQueryToken)
    ensures
        EntityQueryToken::spec_from_name(token.spec_name()) == Some(token),
        find_char(token.spec_name(), '(', 0) is None,
        split_token(token.spec_name()) == Ok::<_, crate::token::TokenSyntaxError>(
            (token.spec_name(), Seq::<(Seq<char>, Seq<char>)>::empty()),
        ),
{
    reveal_strlit("uuid");
    reveal_strlit("editionId");
    reveal_strlit("draftId");
    reveal_strlit("archived");
    reveal_strlit("ownedById");
    reveal_strlit("type");
    reveal_strlit("properties");
    reveal_strlit("label");
    reveal_strlit("provenance");
    reveal_strlit("editionProvenance");
    reveal_strlit("embedding");
    reveal_strlit("incomingLinks");
    reveal_strlit("outgoingLinks");
    reveal_strlit("leftEntity");
    reveal_strlit("rightEntity");
    let name = token.spec_name();
    let lits = seq![
        "uuid"@,
        "editionId"@,
        "draftId"@,
        "archived"@,
        "ownedById"@,
        "type"@,
        "properties"@,
        "label"@,
        "provenance"@,
        "editionProvenance"@,
        "embedding"@,
        "incomingLinks"@,
        "outgoingLinks"@,
        "leftEntity"@,
        "rightEntity"@,
    ];
    assert forall|i: int, j: int| 0 <= i < j < 15 implies lits[i] != lits[j] by {
        if lits[i].len() == lits[j].len() {
            assert(lits[i][0] != lits[j][0] || lits[i][1] != lits[j][1] || lits[i][2]
                != lits[j][2] || lits[i][3] != lits[j][3]);
        }
    }
    assert(forall|i: int| 0 <= i < name.len() ==> name[i] != '(');
    lemma_no_char(name, '(', 0);
}

/// A token that takes nothing else, alone in a sequence, is read as its
/// fixed path and takes exactly that one token; with any token after it the
/// sequence is rejected as one token too long.
pub proof fn lemma_leaf_token_alone(token: EntityQueryToken, extra: Seq<char>)
    requires
        token.leaf() is Some,
    ensures
        parse_entity_at(seq![token.spec_name()], 0) == Ok::<_, QueryPathErrorView>(
            (token.leaf()->0, 1int),
        ),
        parse_entity_query(seq![token.spec_name()]) == Ok::<_, QueryPathErrorView>(
            token.leaf()->0,
        ),
        parse_entity_query(seq![token.spec_name(), extra]) == Err::<EntityQueryPathView, _>(
            QueryPathErrorView::TrailingTokens { given: 2, expected: 1 },
        ),
{
    lemma_token_names(token);
    assert(parse_entity_at(seq![token.spec_name(), extra], 0) == Ok::<_, QueryPathErrorView>(
        (token.leaf()->0, 1int),
    ));
}

/// Written back as text, a path that a token without further tokens denotes
/// is that token's name.
pub proof fn lemma_leaf_round_trip(token: EntityQueryToken)
    requires
        token.leaf() is Some,
    ensures
        render_path(token.leaf()->0) == token.spec_name(),
        parse_entity_query(seq![token.spec_name()]) matches Ok(p) && render_path(p)
            == token.spec_name(),
{
    lemma_leaf_token_alone(token, Seq::empty());
}

/// An entity edge is written under the name of the link token that reads
/// it: the four link tokens and the (edge kind, direction) table are
/// inverse to each other.
pub proof fn lemma_edge_rendering_inverts_table(token: EntityQueryToken, child: EntityQueryPathView)
    requires
        token.edge() is Some,
    ensures
        token.edge() matches Some((edge_kind, direction)) && render_path(
            EntityQueryPathView::EntityEdge { edge_kind, path: Box::new(child), direction },
        ) == dotted(token.spec_name(), render_path(child)),
{
}

/// A sequence that starts with a link token and reads as a path is written
/// back as the link token's name, a `.`, and the text of the path that the
/// rest of the sequence denotes.
pub proof fn lemma_edge_round_trip(token: EntityQueryToken, ts: Seq<Seq<char>>)
    requires
        token.edge() is Some,
        ts.len() > 0,
        ts[0] == token.spec_name(),
        parse_entity_query(ts) is Ok,
    ensures
        parse_entity_at(ts, 1) matches Ok((child, _)) && render_path(parse_entity_query(ts)->Ok_0)
            == dotted(token.spec_name(), render_path(child)),
{
    lemma_token_names(token);
}

/// The kind of value that a path addresses is a function of the path alone:
/// paths that stand for the same thing have the same kind, and every path
/// has one.
pub proof fn lemma_expected_type_is_function(a: EntityQueryPath, b: EntityQueryPath)
    requires
        a@ == b@,
    ensures
        parameter_type(a@) == parameter_type(b@),
{
}

/// A name that the entity vocabulary accepts and the sorting vocabulary
/// lacks is refused by the sorting parser, whose message lists the sorting
/// vocabulary, which differs from the entity vocabulary.
pub proof fn lemma_sorting_refuses_entity_only_names(name: Seq<char>)
    requires
        EntityQueryToken::spec_from_name(name) is Some,
        EntityQuerySortingToken::spec_from_name(name) is None,
    ensures
        parse_sorting_query(seq![name]) == Err::<EntityQueryPathView, _>(
            QueryPathErrorView::UnknownVariant { variant: name, expected: Vocabulary::EntitySorting },
        ),
        error_message(
            QueryPathErrorView::UnknownVariant { variant: name, expected: Vocabulary::EntitySorting },
        ) == "unknown variant `"@ + name + "`, expected "@
            + Vocabulary::EntitySorting.spec_expecting(),
        Vocabulary::EntitySorting.spec_expecting() != Vocabulary::Entity.spec_expecting(),
{
    lemma_name_of(name);
    lemma_token_names(EntityQueryToken::spec_from_name(name)->0);
    reveal_strlit(
        "one of `uuid`, `editionId`, `draftId`, `archived`, `ownedById`, `type`, `properties`, `label`, `provenance`, `editionProvenance`, `embedding`, `incomingLinks`, `outgoingLinks`, `leftEntity`, `rightEntity`",
    );
    reveal_strlit(
        "one of `uuid`, `archived`, `properties`, `label`, `recordCreatedAtTransactionTime`, `recordCreatedAtDecisionTime`, `createdAtTransactionTime`, `createdAtDecisionTime`, `typeTitle`",
    );
}

/// `embedding` is an entity name that the sorting vocabulary lacks.
pub proof fn lemma_embedding_is_entity_only()
    ensures
        EntityQueryToken::spec_from_name("embedding"@) == Some(EntityQueryToken::Embedding),
        EntityQuerySortingToken::spec_from_name("embedding"@) is None,
{
    lemma_token_names(EntityQueryToken::Embedding);
    reveal_strlit("embedding");
    reveal_strlit("uuid");
    reveal_strlit("archived");
    reveal_strlit("properties");
    reveal_strlit("label");
    reveal_strlit("recordCreatedAtTransactionTime");
    reveal_strlit("recordCreatedAtDecisionTime");
    reveal_strlit("createdAtTransactionTime");
    reveal_strlit("createdAtDecisionTime");
    reveal_strlit("typeTitle");
}

/// Once a property path addresses metadata it stays so: a further property
/// keeps it there, and a further index or metadata tag is refused.
pub proof fn lemma_metadata_mode_is_final(ts: Seq<Seq<char>>, t: Seq<char>)
    requires
        property_tokens(ts) matches Ok((_, meta)) && meta,
    ensures
        match property_token_of(t) {
            Some(PropertiesToken::Property(_)) => property_tokens(ts.push(t)) matches Ok(
                (_, meta),
            ) && meta,
            Some(PropertiesToken::Index(_)) => property_tokens(ts.push(t)) == Err::<
                (Seq<crate::path::PathTokenView>, bool),
                _,
            >(QueryPathErrorView::UnexpectedIndex),
            Some(PropertiesToken::Meta(_)) => property_tokens(ts.push(t)) == Err::<
                (Seq<crate::path::PathTokenView>, bool),
                _,
            >(QueryPathErrorView::UnexpectedMetaTag),
            None => property_tokens(ts.push(t)) == Err::<
                (Seq<crate::path::PathTokenView>, bool),
                _,
            >(QueryPathErrorView::InvalidPropertyToken),
        },
{
    assert(ts.push(t).drop_last() =~= ts);
}

/// A token that takes nothing else takes no parameters either: with any, it
/// is refused, and the message names them.
pub proof fn lemma_leaf_tokens_take_no_parameters(
    ts: Seq<Seq<char>>,
    pos: int,
    name: Seq<char>,
    params: Seq<(Seq<char>, Seq<char>)>,
)
    requires
        0 <= pos < ts.len(),
        split_token(ts[pos]) == Ok::<_, crate::token::TokenSyntaxError>((name, params)),
        params.len() > 0,
        EntityQueryToken::spec_from_name(name) matches Some(token) && token.leaf() is Some,
    ensures
        parse_entity_at(ts, pos) == Err::<(EntityQueryPathView, int), _>(
            QueryPathErrorView::UnknownParameters { keys: keys_of(params) },
        ),
{
}

} // verus!
