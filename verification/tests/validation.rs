use apollo_composition::javascript::SubgraphDefinition;
use apollo_composition::validation::{
    issues_of_subgraph, severity, transform_code, validate_subgraphs, SourceRange, ValidationCode,
    ValidationMessage, VALIDATION_CODES,
};
use apollo_composition::{Issue, Severity, SourcePoint, SubgraphLocation};
use apollo_federation::sources::connect::validation::Code;

const ALL_CODES: [(Code, ValidationCode, &str); 30] = [
    (Code::GraphQLError, ValidationCode::GraphQLError, "GRAPHQL_ERROR"),
    (Code::DuplicateSourceName, ValidationCode::DuplicateSourceName, "DUPLICATE_SOURCE_NAME"),
    (Code::InvalidSourceName, ValidationCode::InvalidSourceName, "INVALID_SOURCE_NAME"),
    (Code::EmptySourceName, ValidationCode::EmptySourceName, "EMPTY_SOURCE_NAME"),
    (Code::InvalidUrl, ValidationCode::InvalidUrl, "INVALID_URL"),
    (Code::SourceScheme, ValidationCode::SourceScheme, "SOURCE_SCHEME"),
    (Code::SourceNameMismatch, ValidationCode::SourceNameMismatch, "SOURCE_NAME_MISMATCH"),
    (
        Code::SubscriptionInConnectors,
        ValidationCode::SubscriptionInConnectors,
        "SUBSCRIPTION_IN_CONNECTORS",
    ),
    (
        Code::QueryFieldMissingConnect,
        ValidationCode::QueryFieldMissingConnect,
        "QUERY_FIELD_MISSING_CONNECT",
    ),
    (
        Code::MutationFieldMissingConnect,
        ValidationCode::MutationFieldMissingConnect,
        "MUTATION_FIELD_MISSING_CONNECT",
    ),
    (
        Code::AbsoluteConnectUrlWithSource,
        ValidationCode::AbsoluteConnectUrlWithSource,
        "ABSOLUTE_CONNECT_URL_WITH_SOURCE",
    ),
    (
        Code::RelativeConnectUrlWithoutSource,
        ValidationCode::RelativeConnectUrlWithoutSource,
        "RELATIVE_CONNECT_URL_WITHOUT_SOURCE",
    ),
    (Code::NoSourcesDefined, ValidationCode::NoSourcesDefined, "NO_SOURCES_DEFINED"),
    (Code::NoSourceImport, ValidationCode::NoSourceImport, "NO_SOURCE_IMPORT"),
    (Code::MultipleHttpMethods, ValidationCode::MultipleHttpMethods, "MULTIPLE_HTTP_METHODS"),
    (Code::MissingHttpMethod, ValidationCode::MissingHttpMethod, "MISSING_HTTP_METHOD"),
    (Code::EntityNotOnRootQuery, ValidationCode::EntityNotOnRootQuery, "ENTITY_NOT_ON_ROOT_QUERY"),
    (Code::EntityTypeInvalid, ValidationCode::EntityTypeInvalid, "ENTITY_TYPE_INVALID"),
    (Code::InvalidJsonSelection, ValidationCode::InvalidJsonSelection, "INVALID_JSON_SELECTION"),
    (Code::CircularReference, ValidationCode::CircularReference, "CIRCULAR_REFERENCE"),
    (Code::SelectedFieldNotFound, ValidationCode::SelectedFieldNotFound, "SELECTED_FIELD_NOT_FOUND"),
    (
        Code::GroupSelectionIsNotObject,
        ValidationCode::GroupSelectionIsNotObject,
        "GROUP_SELECTION_IS_NOT_OBJECT",
    ),
    (Code::InvalidHttpHeaderName, ValidationCode::InvalidHttpHeaderName, "INVALID_HTTP_HEADER_NAME"),
    (
        Code::InvalidHttpHeaderValue,
        ValidationCode::InvalidHttpHeaderValue,
        "INVALID_HTTP_HEADER_VALUE",
    ),
    (
        Code::HttpHeaderNameCollision,
        ValidationCode::HttpHeaderNameCollision,
        "HTTP_HEADER_NAME_COLLISION",
    ),
    (
        Code::InvalidHttpHeaderMapping,
        ValidationCode::InvalidHttpHeaderMapping,
        "INVALID_HTTP_HEADER_MAPPING",
    ),
    (
        Code::UnsupportedFederationDirective,
        ValidationCode::UnsupportedFederationDirective,
        "UNSUPPORTED_FEDERATION_DIRECTIVE",
    ),
    (
        Code::UnsupportedAbstractType,
        ValidationCode::UnsupportedAbstractType,
        "UNSUPPORTED_ABSTRACT_TYPE",
    ),
    (Code::MissingHeaderSource, ValidationCode::MissingHeaderSource, "MISSING_HEADER_SOURCE"),
    (
        Code::GroupSelectionRequiredForObject,
        ValidationCode::GroupSelectionRequiredForObject,
        "GROUP_SELECTION_REQUIRED_FOR_OBJECT",
    ),
];

const INVALID_SOURCE_NAME: &str = r#"extend schema
  @link(
    url: "https://specs.apollo.dev/connect/v0.1"
    import: ["@connect", "@source"]
  )
  @source(name: "u$ers", http: { baseURL: "http://127.0.0.1" })

type Query {
  resources: [String!]!
    @connect(source: "u$ers", http: { GET: "/resources" }, selection: "$")
}
"#;

const MISSING_SOURCE_IMPORT: &str = r#"extend schema
  @link(url: "https://specs.apollo.dev/connect/v0.1", import: ["@connect"])
  @source(name: "v2", http: { baseURL: "http://127.0.0.1" })

type Query {
  resources: [String!]!
    @connect(source: "v2", http: { GET: "/resources" }, selection: "$")
}
"#;

const VALID: &str = r#"extend schema
  @link(url: "https://specs.apollo.dev/connect/v0.1", import: ["@connect"])

type Query {
  resources: [String!]!
    @connect(http: { GET: "http://127.0.0.1:8000/resources" }, selection: "$")
}
"#;

const WITHOUT_CONNECTORS: &str = "type Query { hello: String }\n";

fn subgraph(name: &str, sdl: &str) -> SubgraphDefinition {
    SubgraphDefinition {
        name: name.to_string(),
        url: format!("http://{name}"),
        sdl: sdl.to_string(),
    }
}

fn point(line: usize, column: usize) -> SourcePoint {
    SourcePoint::new(line, column).unwrap()
}

#[test]
fn the_codes_stand_in_the_order_of_the_validator() {
    assert_eq!(ALL_CODES.len(), usize::from(VALIDATION_CODES));
    for (theirs, ours, _) in ALL_CODES {
        assert_eq!(ValidationCode::from_place(theirs as u8), Some(ours));
    }
}

#[test]
fn there_is_no_code_past_the_end_of_the_list() {
    assert_eq!(ValidationCode::from_place(29), Some(ValidationCode::GroupSelectionRequiredForObject));
    assert_eq!(ValidationCode::from_place(30), None);
    assert_eq!(ValidationCode::from_place(u8::MAX), None);
}

#[test]
fn every_code_has_its_public_name() {
    for (_, code, name) in ALL_CODES {
        assert_eq!(transform_code(code), name);
    }
}

#[test]
fn only_a_missing_import_is_a_warning() {
    for (theirs, code, _) in ALL_CODES {
        if code == ValidationCode::NoSourceImport {
            assert_eq!(severity(code), Severity::Warning);
        } else {
            assert_eq!(severity(code), Severity::Error);
        }
        let by_the_validator = match theirs.severity() {
            apollo_federation::sources::connect::validation::Severity::Error => Severity::Error,
            apollo_federation::sources::connect::validation::Severity::Warning => Severity::Warning,
        };
        assert_eq!(severity(code), by_the_validator);
    }
}

#[test]
fn a_finding_becomes_an_issue_of_its_subgraph() {
    let message = ValidationMessage {
        code: ValidationCode::SourceScheme,
        message: "must be http or https".to_string(),
        locations: vec![
            SourceRange { start: point(5, 30), end: point(5, 57) },
            SourceRange { start: point(9, 0), end: point(9, 4) },
        ],
    };
    assert_eq!(
        Issue::from_validation("products", message),
        Issue {
            code: "SOURCE_SCHEME".to_string(),
            message: "must be http or https".to_string(),
            locations: vec![
                SubgraphLocation {
                    subgraph: "products".to_string(),
                    start: point(5, 30),
                    end: point(5, 57),
                },
                SubgraphLocation {
                    subgraph: "products".to_string(),
                    start: point(9, 0),
                    end: point(9, 4),
                },
            ],
            severity: Severity::Error,
        }
    );
}

#[test]
fn findings_become_issues_one_for_one() {
    let messages = vec![
        ValidationMessage {
            code: ValidationCode::NoSourcesDefined,
            message: "first".to_string(),
            locations: vec![],
        },
        ValidationMessage {
            code: ValidationCode::NoSourceImport,
            message: "second".to_string(),
            locations: vec![],
        },
    ];
    let issues = issues_of_subgraph("a", messages);
    assert_eq!(issues.len(), 2);
    assert_eq!(issues[0].code, "NO_SOURCES_DEFINED");
    assert_eq!(issues[0].message, "first");
    assert_eq!(issues[0].severity, Severity::Error);
    assert_eq!(issues[1].code, "NO_SOURCE_IMPORT");
    assert_eq!(issues[1].message, "second");
    assert_eq!(issues[1].severity, Severity::Warning);
    assert!(issues_of_subgraph("a", vec![]).is_empty());
}

#[test]
fn an_invalid_source_name_is_found_where_it_stands() {
    let issues = validate_subgraphs(&vec![subgraph("users", INVALID_SOURCE_NAME)]);
    assert_eq!(
        issues,
        vec![Issue {
            code: "INVALID_SOURCE_NAME".to_string(),
            message: "There are invalid characters in `@source(name: \"u$ers\")`. Only alphanumeric and underscores are allowed.".to_string(),
            locations: vec![SubgraphLocation {
                subgraph: "users".to_string(),
                start: point(5, 16),
                end: point(5, 23),
            }],
            severity: Severity::Error,
        }]
    );
}

#[test]
fn a_missing_import_of_source_is_a_warning_among_errors() {
    let issues = validate_subgraphs(&vec![subgraph("a", MISSING_SOURCE_IMPORT)]);
    let found: Vec<(&str, Severity)> =
        issues.iter().map(|issue| (issue.code.as_str(), issue.severity)).collect();
    assert_eq!(
        found,
        vec![("NO_SOURCES_DEFINED", Severity::Error), ("NO_SOURCE_IMPORT", Severity::Warning)]
    );
    assert_eq!(issues[1].locations[0].start, point(1, 2));
    assert_eq!(issues[1].locations[0].end, point(1, 75));
}

#[test]
fn valid_subgraphs_give_no_issues() {
    let subgraphs = vec![subgraph("a", VALID), subgraph("b", WITHOUT_CONNECTORS)];
    assert!(validate_subgraphs(&subgraphs).is_empty());
    assert!(validate_subgraphs(&vec![]).is_empty());
}

#[test]
fn text_that_does_not_parse_is_validated_as_far_as_it_parses() {
    let broken = format!("{INVALID_SOURCE_NAME}\ntype Broken {{");
    let issues = validate_subgraphs(&vec![subgraph("users", &broken)]);
    assert_eq!(issues.len(), 1);
    assert_eq!(issues[0].code, "INVALID_SOURCE_NAME");
}

#[test]
fn issues_come_subgraph_by_subgraph() {
    let subgraphs = vec![
        subgraph("first", MISSING_SOURCE_IMPORT),
        subgraph("second", VALID),
        subgraph("third", INVALID_SOURCE_NAME),
    ];
    let issues = validate_subgraphs(&subgraphs);
    let found: Vec<(&str, &str)> = issues
        .iter()
        .map(|issue| (issue.locations[0].subgraph.as_str(), issue.code.as_str()))
        .collect();
    assert_eq!(
        found,
        vec![
            ("first", "NO_SOURCES_DEFINED"),
            ("first", "NO_SOURCE_IMPORT"),
            ("third", "INVALID_SOURCE_NAME"),
        ]
    );
}

const SOURCE_NAMES_TWICE: &str = r#"extend schema
  @link(
    url: "https://specs.apollo.dev/connect/v0.1"
    import: ["@connect", "@source"]
  )
  @source(name: "v1", http: { baseURL: "http://127.0.0.1" })
  @source(name: "v1", http: { baseURL: "http://localhost" })
  @source(name: "v2", http: { baseURL: "http://127.0.0.1" })
  @source(name: "v2", http: { baseURL: "http://localhost" })

type Query {
  resources: [String!]!
    @connect(source: "v1", http: { GET: "/resources" }, selection: "$")
}
"#;

#[test]
fn the_same_is_found_whenever_the_validator_is_asked() {
    let subgraphs = vec![subgraph("a", SOURCE_NAMES_TWICE), subgraph("b", MISSING_SOURCE_IMPORT)];
    let mut first = validate_subgraphs(&subgraphs);
    assert_eq!(first.len(), 4);
    assert_eq!(
        first.iter().filter(|issue| issue.code == "DUPLICATE_SOURCE_NAME").count(),
        2
    );
    first.sort_by(|one, other| one.message.cmp(&other.message));
    for _ in 0..8 {
        let mut again = validate_subgraphs(&subgraphs);
        again.sort_by(|one, other| one.message.cmp(&other.message));
        assert_eq!(again, first);
    }
}
