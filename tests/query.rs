use hash_graph_store::entity_type::{EntityTypeQueryPath, EntityTypeQueryPathVisitor};
use hash_graph_store::error::{QueryPathError, Vocabulary};
use hash_graph_store::path::{
    EdgeDirection, JsonPath, KnowledgeGraphEdgeKind, ParameterType, PathToken, SharedEdgeKind,
};
use hash_graph_store::query::{EntityQueryPath, EntityQueryPathVisitor, EntityQuerySortingVisitor};

fn tokens(segments: &[&str]) -> Vec<String> {
    segments.iter().map(|s| s.to_string()).collect()
}

fn deserialize(segments: &[&str]) -> EntityQueryPath {
    EntityQueryPath::deserialize(&tokens(segments)).expect("could not deserialize path")
}

fn deserialize_err(segments: &[&str]) -> String {
    EntityQueryPath::deserialize(&tokens(segments))
        .expect_err("managed to convert entity query path")
        .message()
}

fn sorting(segments: &[&str]) -> Result<EntityQueryPath, QueryPathError> {
    EntityQueryPath::deserialize_from_sorting_tokens(&tokens(segments))
}

fn field(name: &str) -> PathToken {
    PathToken::Field(name.to_string())
}

const URL: &str = "https://blockprotocol.org/@alice/types/property-type/name/";

#[test]
fn sorting_path_deserialization_error() {
    assert_eq!(
        sorting(&["invalid"])
            .expect_err("managed to convert entity query sorting path")
            .message(),
        format!(
            "unknown variant `invalid`, expected {}",
            EntityQuerySortingVisitor::new(0).expecting()
        )
    );
}

#[test]
fn deserialization() {
    assert_eq!(deserialize(&["ownedById"]), EntityQueryPath::OwnedById);
    assert_eq!(
        deserialize(&["type", "version"]),
        EntityQueryPath::EntityTypeEdge {
            edge_kind: SharedEdgeKind::IsOfType,
            path: EntityTypeQueryPath::Version,
            inheritance_depth: None,
        }
    );
    assert_eq!(
        deserialize(&["type(inheritanceDepth = 5)", "version"]),
        EntityQueryPath::EntityTypeEdge {
            edge_kind: SharedEdgeKind::IsOfType,
            path: EntityTypeQueryPath::Version,
            inheritance_depth: Some(5),
        }
    );
    assert_eq!(
        deserialize(&[
            "properties",
            "https://blockprotocol.org/@alice/types/property-type/name/"
        ]),
        EntityQueryPath::Properties(Some(JsonPath::from_path_tokens(vec![PathToken::Field(
            "https://blockprotocol.org/@alice/types/property-type/name/".to_string()
        )])))
    );
    assert_eq!(
        deserialize(&["leftEntity", "uuid"]),
        EntityQueryPath::EntityEdge {
            edge_kind: KnowledgeGraphEdgeKind::HasLeftEntity,
            path: Box::new(EntityQueryPath::Uuid),
            direction: EdgeDirection::Outgoing
        }
    );

    assert_eq!(
        EntityQueryPath::deserialize(&tokens(&["invalid"]))
            .expect_err(
                "managed to convert entity query path with hidden token when it should have \
                 errored"
            )
            .message(),
        format!(
            "unknown variant `invalid`, expected {}",
            EntityQueryPathVisitor::new(0).expecting()
        )
    );

    assert_eq!(
        EntityQueryPath::deserialize(&tokens(&["editionId", "test"]))
            .expect_err(
                "managed to convert entity query path with multiple tokens when it should have \
                 errored"
            )
            .message(),
        "invalid length 2, expected 1 element in sequence"
    );
}

#[test]
fn leaf_tokens_parse_alone() {
    let leaves = [
        ("uuid", EntityQueryPath::Uuid),
        ("editionId", EntityQueryPath::EditionId),
        ("draftId", EntityQueryPath::DraftId),
        ("archived", EntityQueryPath::Archived),
        ("ownedById", EntityQueryPath::OwnedById),
        ("embedding", EntityQueryPath::Embedding),
    ];
    for (name, path) in leaves {
        let (read, end) = EntityQueryPathVisitor::new(0)
            .visit_seq(&tokens(&[name]))
            .expect("leaf token");
        assert_eq!(read, path);
        assert_eq!(end, 1);
        assert_eq!(
            EntityQueryPath::deserialize(&tokens(&[name, "uuid"])),
            Err(QueryPathError::TrailingTokens { given: 2, expected: 1 })
        );
    }
}

#[test]
fn link_tokens_follow_the_edge_table() {
    let table = [
        ("leftEntity", KnowledgeGraphEdgeKind::HasLeftEntity, EdgeDirection::Outgoing),
        ("rightEntity", KnowledgeGraphEdgeKind::HasRightEntity, EdgeDirection::Outgoing),
        ("outgoingLinks", KnowledgeGraphEdgeKind::HasLeftEntity, EdgeDirection::Incoming),
        ("incomingLinks", KnowledgeGraphEdgeKind::HasRightEntity, EdgeDirection::Incoming),
    ];
    for (name, edge_kind, direction) in table {
        let path = deserialize(&[name, "uuid"]);
        assert_eq!(
            path,
            EntityQueryPath::EntityEdge {
                edge_kind,
                path: Box::new(EntityQueryPath::Uuid),
                direction,
            }
        );
        assert_eq!(path.render(), format!("{name}.uuid"));
    }
}

#[test]
fn nested_links() {
    let path = deserialize(&["outgoingLinks", "rightEntity", "ownedById"]);
    assert_eq!(
        path,
        EntityQueryPath::EntityEdge {
            edge_kind: KnowledgeGraphEdgeKind::HasLeftEntity,
            path: Box::new(EntityQueryPath::EntityEdge {
                edge_kind: KnowledgeGraphEdgeKind::HasRightEntity,
                path: Box::new(EntityQueryPath::OwnedById),
                direction: EdgeDirection::Outgoing,
            }),
            direction: EdgeDirection::Incoming,
        }
    );
    assert_eq!(path.render(), "outgoingLinks.rightEntity.ownedById");
    assert_eq!(path.expected_type(), ParameterType::Uuid);
}

#[test]
fn property_metadata_data_type() {
    assert_eq!(
        deserialize(&["properties", URL, "dataTypeId"]),
        EntityQueryPath::PropertyMetadata(Some(JsonPath::from_path_tokens(vec![
            field("value"),
            field(URL),
            field("metadata"),
            field("dataTypeId"),
        ])))
    );
}

#[test]
fn property_metadata_convert_prefixes_each_token() {
    assert_eq!(
        deserialize(&["properties", URL, "3", "convert", URL]),
        EntityQueryPath::PropertyMetadata(Some(JsonPath::from_path_tokens(vec![
            field("value"),
            field(URL),
            field("value"),
            PathToken::Index(3),
            field("metadata"),
            field("canonical"),
            field(URL),
        ])))
    );
}

#[test]
fn property_index() {
    assert_eq!(
        deserialize(&["properties", URL, "42"]),
        EntityQueryPath::Properties(Some(JsonPath::from_path_tokens(vec![
            field(URL),
            PathToken::Index(42),
        ])))
    );
}

#[test]
fn property_index_after_metadata_fails() {
    let url2 = "https://blockprotocol.org/@alice/types/property-type/age/";
    assert_eq!(
        EntityQueryPath::deserialize(&tokens(&["properties", URL, "convert", url2, "5"])),
        Err(QueryPathError::UnexpectedIndex)
    );
    assert_eq!(
        deserialize_err(&["properties", URL, "convert", url2, "5"]),
        "Unexpected index found in property path"
    );
}

#[test]
fn second_meta_tag_fails() {
    assert_eq!(
        deserialize_err(&["properties", URL, "convert", "dataTypeId"]),
        "Unexpected meta tag found in property path"
    );
}

#[test]
fn property_token_must_be_base_url() {
    for bad in ["https://example.com/no-slash", "not a url/", "name"] {
        assert_eq!(
            EntityQueryPath::deserialize(&tokens(&["properties", bad])),
            Err(QueryPathError::InvalidPropertyToken)
        );
    }
    assert_eq!(
        deserialize_err(&["properties", "name"]),
        "data did not match any variant of untagged enum PropertiesToken"
    );
    let too_long = format!("https://example.com/{}/", "a".repeat(2048));
    assert_eq!(
        EntityQueryPath::deserialize(&tokens(&["properties", too_long.as_str()])),
        Err(QueryPathError::InvalidPropertyToken)
    );
}

#[test]
fn bare_properties() {
    assert_eq!(deserialize(&["properties"]), EntityQueryPath::Properties(None));
    assert_eq!(EntityQueryPath::Properties(None).render(), "properties");
}

#[test]
fn provenance_takes_all_remaining_tokens() {
    assert_eq!(deserialize(&["provenance"]), EntityQueryPath::Provenance(None));
    assert_eq!(
        deserialize(&["editionProvenance", "createdById", "0"]),
        EntityQueryPath::EditionProvenance(Some(JsonPath::from_path_tokens(vec![
            field("createdById"),
            field("0"),
        ])))
    );
    assert_eq!(
        deserialize(&["provenance", "a", "b"]).render(),
        "provenance.$.\"a\".\"b\""
    );
}

#[test]
fn json_path_rendering() {
    let path = JsonPath::from_path_tokens(vec![field("say \"hi\""), PathToken::Index(17)]);
    assert_eq!(path.render(), "$.\"say \\\"hi\\\"\"[17]");
    assert_eq!(
        deserialize(&["properties", URL, "0"]).render(),
        format!("properties.$.\"{URL}\"[0]")
    );
}

#[test]
fn render_round_trip() {
    assert_eq!(deserialize(&["ownedById"]).render(), "ownedById");
    assert_eq!(deserialize(&["leftEntity", "uuid"]).render(), "leftEntity.uuid");
    assert_eq!(deserialize(&["outgoingLinks", "uuid"]).render(), "outgoingLinks.uuid");
    assert_eq!(deserialize(&["type", "title"]).render(), "type.title");
    assert_eq!(
        deserialize(&["type(inheritanceDepth = 5)", "versionedUrl"]).render(),
        "type(5).versionedUrl"
    );
    assert_eq!(deserialize(&["label(inheritanceDepth=2)"]).render(), "label");
    assert_eq!(
        deserialize(&["properties", URL, "dataTypeId"]).render(),
        format!("propertyMetadata.$.\"value\".\"{URL}\".\"metadata\".\"dataTypeId\"")
    );
}

#[test]
fn expected_types() {
    assert_eq!(deserialize(&["uuid"]).expected_type(), ParameterType::Uuid);
    assert_eq!(deserialize(&["archived"]).expected_type(), ParameterType::Boolean);
    assert_eq!(
        deserialize(&["embedding"]).expected_type(),
        ParameterType::Vector(Box::new(ParameterType::Float64))
    );
    assert_eq!(
        deserialize(&["type", "version"]).expected_type(),
        ParameterType::OntologyTypeVersion
    );
    assert_eq!(
        deserialize(&["leftEntity", "properties", URL]).expected_type(),
        ParameterType::Any
    );
    assert_eq!(EntityQueryPath::DecisionTime.expected_type(), ParameterType::TimeInterval);
    assert_eq!(
        EntityQueryPath::TypeBaseUrls.expected_type(),
        ParameterType::Vector(Box::new(ParameterType::VersionedUrl))
    );
    assert_eq!(EntityQueryPath::LeftEntityConfidence.expected_type(), ParameterType::Float64);
    let path = deserialize(&["rightEntity", "type", "ownedById"]);
    assert_eq!(path.expected_type(), path.expected_type());
}

#[test]
fn sorting_refuses_entity_only_tokens() {
    let err = sorting(&["embedding"]).expect_err("embedding is no sorting key");
    assert_eq!(
        err,
        QueryPathError::UnknownVariant {
            variant: "embedding".to_string(),
            expected: Vocabulary::EntitySorting,
        }
    );
    assert_eq!(
        err.message(),
        format!(
            "unknown variant `embedding`, expected {}",
            EntityQuerySortingVisitor::new(0).expecting()
        )
    );
    assert_ne!(
        EntityQuerySortingVisitor::new(0).expecting(),
        EntityQueryPathVisitor::new(0).expecting()
    );
    assert!(sorting(&["leftEntity", "uuid"]).is_err());
}

#[test]
fn sorting_vocabulary() {
    assert_eq!(sorting(&["uuid"]), Ok(EntityQueryPath::Uuid));
    assert_eq!(sorting(&["archived"]), Ok(EntityQueryPath::Archived));
    assert_eq!(
        sorting(&["recordCreatedAtTransactionTime"]),
        Ok(EntityQueryPath::TransactionTime)
    );
    assert_eq!(sorting(&["recordCreatedAtDecisionTime"]), Ok(EntityQueryPath::DecisionTime));
    assert_eq!(
        sorting(&["createdAtTransactionTime"]),
        Ok(EntityQueryPath::Provenance(Some(JsonPath::from_path_tokens(vec![field(
            "createdAtTransactionTime"
        )]))))
    );
    assert_eq!(
        sorting(&["createdAtDecisionTime"]),
        Ok(EntityQueryPath::Provenance(Some(JsonPath::from_path_tokens(vec![field(
            "createdAtDecisionTime"
        )]))))
    );
    let title = sorting(&["typeTitle"]).expect("type title");
    assert_eq!(
        title,
        EntityQueryPath::EntityTypeEdge {
            edge_kind: SharedEdgeKind::IsOfType,
            path: EntityTypeQueryPath::Title,
            inheritance_depth: Some(0),
        }
    );
    assert_eq!(title.render(), "type(0).title");
    assert_eq!(
        sorting(&["label(inheritanceDepth = 3)"]),
        Ok(EntityQueryPath::Label { inheritance_depth: Some(3) })
    );
    assert_eq!(
        sorting(&["properties", URL]),
        Ok(EntityQueryPath::Properties(Some(JsonPath::from_path_tokens(vec![field(URL)]))))
    );
    assert_eq!(
        sorting(&["uuid", "uuid"]),
        Err(QueryPathError::TrailingTokens { given: 2, expected: 1 })
    );
}

#[test]
fn missing_tokens() {
    assert_eq!(
        deserialize_err(&[]),
        format!("invalid length 0, expected {}", EntityQueryPathVisitor::new(0).expecting())
    );
    assert_eq!(
        EntityQueryPath::deserialize(&tokens(&["rightEntity"])),
        Err(QueryPathError::MissingToken { position: 1, expected: Vocabulary::Entity })
    );
    assert_eq!(
        deserialize_err(&["type"]),
        format!("invalid length 1, expected {}", EntityTypeQueryPathVisitor::new(1).expecting())
    );
    assert_eq!(
        sorting(&[]),
        Err(QueryPathError::MissingToken { position: 0, expected: Vocabulary::EntitySorting })
    );
    assert_eq!(
        deserialize_err(&["leftEntity", "incomingLinks"]),
        "invalid length 2, expected one of `uuid`, `editionId`, `draftId`, `archived`, \
         `ownedById`, `type`, `properties`, `label`, `provenance`, `editionProvenance`, \
         `embedding`, `incomingLinks`, `outgoingLinks`, `leftEntity`, `rightEntity`"
    );
}

#[test]
fn trailing_tokens_after_nested_path() {
    assert_eq!(
        deserialize_err(&["leftEntity", "uuid", "draftId"]),
        "invalid length 3, expected 2 elements in sequence"
    );
}

#[test]
fn unknown_type_field() {
    assert_eq!(
        deserialize_err(&["type", "uuid"]),
        "unknown variant `uuid`, expected one of `version`, `versionedUrl`, `ownedById`, `title`"
    );
}

#[test]
fn parameters() {
    assert_eq!(
        deserialize(&["label(inheritanceDepth = 7)"]),
        EntityQueryPath::Label { inheritance_depth: Some(7) }
    );
    assert_eq!(
        deserialize(&["label(inheritanceDepth = +7, inheritanceDepth = 8)"]),
        EntityQueryPath::Label { inheritance_depth: Some(8) }
    );
    assert_eq!(deserialize_err(&["uuid(depth = 1)"]), "unknown parameters: depth");
    assert_eq!(
        deserialize_err(&["label(b = 1, inheritanceDepth = 2,a=3)"]),
        "unknown parameters: b, a"
    );
    assert_eq!(
        EntityQueryPath::deserialize(&tokens(&["type(x = 1)", "title"])),
        Err(QueryPathError::UnknownParameters { keys: vec!["x".to_string()] })
    );
    assert_eq!(
        deserialize_err(&["type", "title(x = 1)"]),
        "unknown parameters: x"
    );
}

#[test]
fn malformed_parameters() {
    assert_eq!(deserialize_err(&["label(inheritanceDepth = 5"]), "missing closing parenthesis");
    assert_eq!(
        deserialize_err(&["label(inheritanceDepth)"]),
        "missing parameter value, expected `key=value`"
    );
    assert_eq!(deserialize_err(&["label()"]), "missing parameter value, expected `key=value`");
    assert_eq!(
        deserialize_err(&["label(inheritanceDepth = five)"]),
        "invalid digit found in string"
    );
    assert_eq!(
        deserialize_err(&["label(inheritanceDepth = )"]),
        "cannot parse integer from empty string"
    );
    assert_eq!(
        deserialize_err(&["label(inheritanceDepth = 4294967296)"]),
        "number too large to fit in target type"
    );
    assert_eq!(
        deserialize(&["label(inheritanceDepth = 4294967295)"]),
        EntityQueryPath::Label { inheritance_depth: Some(4294967295) }
    );
    assert_eq!(
        deserialize_err(&["type(inheritanceDepth = -1)", "title"]),
        "invalid digit found in string"
    );
}

#[test]
fn into_owned_keeps_the_path() {
    let path = deserialize(&["incomingLinks", "properties", URL, "convert"]);
    let copy = deserialize(&["incomingLinks", "properties", URL, "convert"]);
    assert_eq!(path.into_owned(), copy);
    let json = JsonPath::from_path_tokens(vec![field("a"), PathToken::Index(1)]);
    assert_eq!(json.path_tokens(), &[field("a"), PathToken::Index(1)]);
    assert_eq!(json.clone().into_owned(), json);
}
