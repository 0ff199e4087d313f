use apollo_composition::build_plugin::{
    BuildMessage, BuildMessageLevel, BuildMessageLocation, BuildMessagePoint,
};
use apollo_composition::javascript::{
    satisfiability_result_into_issues, CompositionHint, GraphQLError, GraphQLErrorExtensions,
    HintCodeDefinition, Location, SatisfiabilityResult, SubgraphASTNode, Token,
};
use apollo_composition::{Issue, Severity, SourcePoint, SubgraphLocation};

fn token(line: usize, column: usize) -> Token {
    Token::new(Some(line), Some(column)).unwrap()
}

fn node(subgraph: Option<&str>, start: Token, end: Token) -> SubgraphASTNode {
    SubgraphASTNode {
        loc: Some(Location { start_token: start, end_token: end }),
        subgraph: subgraph.map(|name| name.to_string()),
    }
}

fn point(line: usize, column: usize) -> SourcePoint {
    SourcePoint::new(line, column).unwrap()
}

#[test]
fn a_point_keeps_its_line_and_column() {
    let p = point(3, 7);
    assert_eq!(p.line(), 3);
    assert_eq!(p.column(), 7);
}

#[test]
fn the_largest_line_has_no_point() {
    assert_eq!(SourcePoint::new(usize::MAX, 0), None);
    assert_eq!(SourcePoint::new(0, usize::MAX), None);
    assert!(SourcePoint::new(usize::MAX - 1, usize::MAX - 1).is_some());
}

#[test]
fn shifting_in_subtracts_one() {
    let p = SourcePoint::from_one_indexed(1, 1).unwrap();
    assert_eq!((p.line(), p.column()), (0, 0));
    let q = SourcePoint::from_one_indexed(12, 40).unwrap();
    assert_eq!((q.line(), q.column()), (11, 39));
}

#[test]
fn zero_is_not_one_indexed() {
    assert_eq!(SourcePoint::from_one_indexed(0, 5), None);
    assert_eq!(SourcePoint::from_one_indexed(5, 0), None);
    assert_eq!(SourcePoint::from_one_indexed(0, 0), None);
}

#[test]
fn shifting_out_adds_one() {
    assert_eq!(point(0, 0).to_one_indexed(), (1, 1));
    assert_eq!(point(11, 39).to_one_indexed(), (12, 40));
}

#[test]
fn in_then_out_is_unchanged() {
    for (line, column) in [(1, 1), (1, 9), (6, 17), (usize::MAX, usize::MAX), (2, usize::MAX)] {
        let p = SourcePoint::from_one_indexed(line, column).unwrap();
        assert_eq!(p.to_one_indexed(), (line, column));
    }
}

#[test]
fn out_then_in_is_unchanged() {
    for (line, column) in [(0, 0), (5, 3), (usize::MAX - 1, usize::MAX - 1)] {
        let p = point(line, column);
        let (one_line, one_column) = p.to_one_indexed();
        assert_eq!(SourcePoint::from_one_indexed(one_line, one_column), Some(p));
    }
}

#[test]
fn a_token_holds_what_it_was_given() {
    let t = Token::new(Some(4), None).unwrap();
    assert_eq!(t.line(), Some(4));
    assert_eq!(t.column(), None);
    assert_eq!(t.to_point(), None);
    let u = token(4, 2);
    assert_eq!(u.to_point(), Some(point(3, 1)));
}

#[test]
fn a_token_cannot_hold_zero() {
    assert_eq!(Token::new(Some(0), Some(1)), None);
    assert_eq!(Token::new(Some(1), Some(0)), None);
    assert_eq!(Token::new(Some(0), None), None);
    assert!(Token::new(None, None).is_some());
}

#[test]
fn a_node_gives_its_location_shifted_in() {
    let location = SubgraphLocation::from_ast(node(Some("users"), token(6, 17), token(6, 24)));
    assert_eq!(
        location,
        Some(SubgraphLocation { subgraph: "users".to_string(), start: point(5, 16), end: point(5, 23) })
    );
}

#[test]
fn a_node_without_a_subgraph_gives_the_empty_name() {
    let location = SubgraphLocation::from_ast(node(None, token(1, 1), token(2, 1))).unwrap();
    assert_eq!(location.subgraph, "");
    assert_eq!(location.start, point(0, 0));
    assert_eq!(location.end, point(1, 0));
}

#[test]
fn a_node_with_a_missing_position_gives_no_location() {
    let whole = token(3, 3);
    let no_line = Token::new(None, Some(3)).unwrap();
    let no_column = Token::new(Some(3), None).unwrap();
    assert_eq!(SubgraphLocation::from_ast(node(Some("a"), no_line, whole)), None);
    assert_eq!(SubgraphLocation::from_ast(node(Some("a"), no_column, whole)), None);
    assert_eq!(SubgraphLocation::from_ast(node(Some("a"), whole, no_line)), None);
    assert_eq!(SubgraphLocation::from_ast(node(Some("a"), whole, no_column)), None);
    assert_eq!(SubgraphLocation::from_ast_ref(&node(Some("a"), whole, no_column)), None);
}

#[test]
fn nodes_without_positions_are_left_out_and_the_rest_keep_their_order() {
    let missing = Token::new(None, None).unwrap();
    let nodes = vec![
        node(Some("a"), token(1, 2), token(1, 5)),
        node(Some("b"), missing, token(9, 9)),
        node(Some("c"), token(4, 1), token(5, 1)),
    ];
    assert_eq!(
        SubgraphLocation::from_ast_nodes(&nodes),
        vec![
            SubgraphLocation { subgraph: "a".to_string(), start: point(0, 1), end: point(0, 4) },
            SubgraphLocation { subgraph: "c".to_string(), start: point(3, 0), end: point(4, 0) },
        ]
    );
}

#[test]
fn an_error_becomes_an_error_issue() {
    let error = GraphQLError {
        message: "cannot satisfy".to_string(),
        nodes: vec![node(Some("a"), token(2, 3), token(2, 8))],
        extensions: Some(GraphQLErrorExtensions { code: "SATISFIABILITY_ERROR".to_string() }),
    };
    assert_eq!(
        Issue::from(error),
        Issue {
            code: "SATISFIABILITY_ERROR".to_string(),
            message: "cannot satisfy".to_string(),
            locations: vec![SubgraphLocation {
                subgraph: "a".to_string(),
                start: point(1, 2),
                end: point(1, 7),
            }],
            severity: Severity::Error,
        }
    );
}

#[test]
fn an_error_without_extensions_has_the_empty_code() {
    let error = GraphQLError { message: "m".to_string(), nodes: vec![], extensions: None };
    let issue = Issue::from(error);
    assert_eq!(issue.code, "");
    assert_eq!(issue.severity, Severity::Error);
    assert!(issue.locations.is_empty());
    assert!(issue.is_error());
}

#[test]
fn an_error_is_reported_even_if_no_node_has_a_position() {
    let missing = Token::new(None, None).unwrap();
    let error = GraphQLError {
        message: "m".to_string(),
        nodes: vec![node(Some("a"), missing, missing), node(None, token(1, 1), missing)],
        extensions: None,
    };
    let issue = Issue::from(error);
    assert_eq!(issue.message, "m");
    assert!(issue.locations.is_empty());
}

#[test]
fn a_hint_becomes_a_warning_issue() {
    let hint = CompositionHint {
        message: "inconsistent description".to_string(),
        nodes: Some(vec![
            node(Some("a"), token(1, 1), token(1, 4)),
            node(Some("b"), token(7, 2), Token::new(Some(7), None).unwrap()),
        ]),
        definition: HintCodeDefinition { code: "INCONSISTENT_DESCRIPTION".to_string() },
    };
    let issue = Issue::from(hint);
    assert_eq!(
        issue,
        Issue {
            code: "INCONSISTENT_DESCRIPTION".to_string(),
            message: "inconsistent description".to_string(),
            locations: vec![SubgraphLocation {
                subgraph: "a".to_string(),
                start: point(0, 0),
                end: point(0, 3),
            }],
            severity: Severity::Warning,
        }
    );
    assert!(!issue.is_error());
}

fn error(message: &str) -> GraphQLError {
    GraphQLError { message: message.to_string(), nodes: vec![], extensions: None }
}

fn hint(message: &str) -> CompositionHint {
    CompositionHint {
        message: message.to_string(),
        nodes: None,
        definition: HintCodeDefinition { code: "HINT".to_string() },
    }
}

#[test]
fn errors_come_before_hints() {
    let result = SatisfiabilityResult {
        errors: Some(vec![error("e1"), error("e2")]),
        hints: Some(vec![hint("h1"), hint("h2"), hint("h3")]),
    };
    let issues = satisfiability_result_into_issues(Ok(result));
    let messages: Vec<&str> = issues.iter().map(|issue| issue.message.as_str()).collect();
    assert_eq!(messages, vec!["e1", "e2", "h1", "h2", "h3"]);
    let severities: Vec<Severity> = issues.iter().map(|issue| issue.severity).collect();
    assert_eq!(
        severities,
        vec![
            Severity::Error,
            Severity::Error,
            Severity::Warning,
            Severity::Warning,
            Severity::Warning
        ]
    );
}

#[test]
fn missing_errors_and_hints_give_no_issues() {
    let nothing = SatisfiabilityResult { errors: None, hints: None };
    assert!(satisfiability_result_into_issues(Ok(nothing)).is_empty());
    let only_hints = SatisfiabilityResult { errors: None, hints: Some(vec![hint("h")]) };
    assert_eq!(satisfiability_result_into_issues(Ok(only_hints)).len(), 1);
    let only_errors = SatisfiabilityResult { errors: Some(vec![error("e")]), hints: None };
    assert_eq!(satisfiability_result_into_issues(Ok(only_errors)).len(), 1);
}

#[test]
fn a_check_that_could_not_run_gives_its_one_issue() {
    let why = Issue {
        code: "SATISFIABILITY_FAILED".to_string(),
        message: "the engine crashed".to_string(),
        locations: vec![],
        severity: Severity::Error,
    };
    assert_eq!(satisfiability_result_into_issues(Err(why.clone())), vec![why]);
}

#[test]
fn severities_become_levels() {
    assert_eq!(BuildMessageLevel::from(Severity::Error), BuildMessageLevel::Error);
    assert_eq!(BuildMessageLevel::from(Severity::Warning), BuildMessageLevel::Warn);
}

#[test]
fn a_point_goes_out_one_indexed() {
    assert_eq!(
        BuildMessagePoint::from(point(5, 16)),
        BuildMessagePoint { start: None, end: None, column: Some(17), line: Some(6) }
    );
}

#[test]
fn a_location_goes_out_with_both_ends() {
    let location =
        SubgraphLocation { subgraph: "users".to_string(), start: point(0, 0), end: point(2, 4) };
    assert_eq!(
        BuildMessageLocation::from(location),
        BuildMessageLocation {
            subgraph: Some("users".to_string()),
            source: None,
            start: Some(BuildMessagePoint { start: None, end: None, column: Some(1), line: Some(1) }),
            end: Some(BuildMessagePoint { start: None, end: None, column: Some(5), line: Some(3) }),
        }
    );
}

#[test]
fn an_issue_becomes_a_build_message() {
    let issue = Issue {
        code: "INVALID_SOURCE_NAME".to_string(),
        message: "bad name".to_string(),
        locations: vec![
            SubgraphLocation { subgraph: "a".to_string(), start: point(5, 16), end: point(5, 23) },
            SubgraphLocation { subgraph: "b".to_string(), start: point(0, 0), end: point(0, 1) },
        ],
        severity: Severity::Warning,
    };
    let message = BuildMessage::from(issue);
    assert_eq!(message.level, BuildMessageLevel::Warn);
    assert_eq!(message.message, "bad name");
    assert_eq!(message.code, Some("INVALID_SOURCE_NAME".to_string()));
    assert_eq!(message.step, None);
    assert_eq!(message.schema_coordinate, None);
    assert_eq!(message.locations.len(), 2);
    assert_eq!(message.locations[0].subgraph, Some("a".to_string()));
    assert_eq!(message.locations[0].start.unwrap().line, Some(6));
    assert_eq!(message.locations[0].start.unwrap().column, Some(17));
    assert_eq!(message.locations[0].end.unwrap().column, Some(24));
    assert_eq!(message.locations[1].subgraph, Some("b".to_string()));
    assert_eq!(message.locations[1].end.unwrap().column, Some(2));
}

#[test]
fn positions_of_the_engine_come_out_as_they_went_in() {
    let error = GraphQLError {
        message: "m".to_string(),
        nodes: vec![node(Some("a"), token(6, 17), token(8, 1))],
        extensions: None,
    };
    let message = BuildMessage::from(Issue::from(error));
    let location = &message.locations[0];
    assert_eq!(location.start.unwrap().line, Some(6));
    assert_eq!(location.start.unwrap().column, Some(17));
    assert_eq!(location.end.unwrap().line, Some(8));
    assert_eq!(location.end.unwrap().column, Some(1));
}

#[test]
fn a_node_without_a_place_gives_no_location() {
    let nowhere = SubgraphASTNode { loc: None, subgraph: Some("a".to_string()) };
    assert_eq!(SubgraphLocation::from_ast(nowhere.clone()), None);
    let nodes = vec![nowhere, node(Some("b"), token(2, 1), token(2, 9))];
    assert_eq!(
        SubgraphLocation::from_ast_nodes(&nodes),
        vec![SubgraphLocation { subgraph: "b".to_string(), start: point(1, 0), end: point(1, 8) }]
    );
    let error = GraphQLError { message: "m".to_string(), nodes, extensions: None };
    assert_eq!(Issue::from_graphql_error(error).locations.len(), 1);
}

#[test]
fn a_hint_without_nodes_has_no_locations() {
    let issue = Issue::from(hint("h"));
    assert!(issue.locations.is_empty());
    let with_an_empty_list = CompositionHint {
        message: "h".to_string(),
        nodes: Some(vec![]),
        definition: HintCodeDefinition { code: "HINT".to_string() },
    };
    assert_eq!(Issue::from_composition_hint(with_an_empty_list), issue);
}

#[test]
fn the_conversions_by_name_agree_with_those_by_trait() {
    let error = GraphQLError {
        message: "m".to_string(),
        nodes: vec![node(Some("a"), token(2, 3), token(2, 8))],
        extensions: Some(GraphQLErrorExtensions { code: "C".to_string() }),
    };
    let issue = Issue::from_graphql_error(error.clone());
    assert_eq!(issue, Issue::from(error));
    assert_eq!(BuildMessage::from_issue(issue.clone()), BuildMessage::from(issue.clone()));
    let location = issue.locations[0].clone();
    assert_eq!(
        BuildMessageLocation::from_location(location.clone()),
        BuildMessageLocation::from(location)
    );
    assert_eq!(BuildMessagePoint::from_point(point(0, 4)), BuildMessagePoint::from(point(0, 4)));
    assert_eq!(BuildMessagePoint::from_point(point(0, 4)).column, Some(5));
    assert_eq!(BuildMessageLevel::from_severity(Severity::Warning), BuildMessageLevel::Warn);
    assert_eq!(BuildMessageLevel::from_severity(Severity::Error), BuildMessageLevel::Error);
}
