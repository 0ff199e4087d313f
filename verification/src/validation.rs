//! The connectors validator and what becomes of its findings.
//!
//! The validator itself is `apollo_federation`'s. This module asks it, reads
//! what it found, and gives each finding its public code, its severity and
//! the name of the subgraph it was found in.

use crate::issue::{
    lemma_deep_view_append, lemma_deep_view_empty, lemma_deep_view_push, Issue, IssueView, Severity,
};
use crate::javascript::{SubgraphDefinition, SubgraphDefinitionView};
use crate::source::{SourcePoint, SubgraphLocation, SubgraphLocationView};
use apollo_compiler::Schema;
use apollo_federation::sources::connect::validation::validate;
use vstd::multiset::Multiset;
use vstd::prelude::*;
use vstd::string::*;

verus! {

/// What the connectors validator can find wrong with a subgraph, in the
/// order in which the validator lists its codes.
#[derive(Clone, Copy, Debug, PartialEq, Eq, Hash, Structural)]
pub enum ValidationCode {
    GraphQLError,
    DuplicateSourceName,
    InvalidSourceName,
    EmptySourceName,
    InvalidUrl,
    SourceScheme,
    SourceNameMismatch,
    SubscriptionInConnectors,
    QueryFieldMissingConnect,
    MutationFieldMissingConnect,
    AbsoluteConnectUrlWithSource,
    RelativeConnectUrlWithoutSource,
    NoSourcesDefined,
    NoSourceImport,
    MultipleHttpMethods,
    MissingHttpMethod,
    EntityNotOnRootQuery,
    EntityTypeInvalid,
    InvalidJsonSelection,
    CircularReference,
    SelectedFieldNotFound,
    GroupSelectionIsNotObject,
    InvalidHttpHeaderName,
    InvalidHttpHeaderValue,
    HttpHeaderNameCollision,
    InvalidHttpHeaderMapping,
    UnsupportedFederationDirective,
    UnsupportedAbstractType,
    MissingHeaderSource,
    GroupSelectionRequiredForObject,
}

/// How many codes the validator lists.
pub const VALIDATION_CODES: u8 = 30;

impl ValidationCode {
    /// The code at a place of the validator's list, counted from zero.
    pub open spec fn at(place: int) -> Option<ValidationCode> {
        if place == 0 {
            Some(ValidationCode::GraphQLError)
        } else if place == 1 {
            Some(ValidationCode::DuplicateSourceName)
        } else if place == 2 {
            Some(ValidationCode::InvalidSourceName)
        } else if place == 3 {
            Some(ValidationCode::EmptySourceName)
        } else if place == 4 {
            Some(ValidationCode::InvalidUrl)
        } else if place == 5 {
            Some(ValidationCode::SourceScheme)
        } else if place == 6 {
            Some(ValidationCode::SourceNameMismatch)
        } else if place == 7 {
            Some(ValidationCode::SubscriptionInConnectors)
        } else if place == 8 {
            Some(ValidationCode::QueryFieldMissingConnect)
        } else if place == 9 {
            Some(ValidationCode::MutationFieldMissingConnect)
        } else if place == 10 {
            Some(ValidationCode::AbsoluteConnectUrlWithSource)
        } else if place == 11 {
            Some(ValidationCode::RelativeConnectUrlWithoutSource)
        } else if place == 12 {
            Some(ValidationCode::NoSourcesDefined)
        } else if place == 13 {
            Some(ValidationCode::NoSourceImport)
        } else if place == 14 {
            Some(ValidationCode::MultipleHttpMethods)
        } else if place == 15 {
            Some(ValidationCode::MissingHttpMethod)
        } else if place == 16 {
            Some(ValidationCode::EntityNotOnRootQuery)
        } else if place == 17 {
            Some(ValidationCode::EntityTypeInvalid)
        } else if place == 18 {
            Some(ValidationCode::InvalidJsonSelection)
        } else if place == 19 {
            Some(ValidationCode::CircularReference)
        } else if place == 20 {
            Some(ValidationCode::SelectedFieldNotFound)
        } else if place == 21 {
            Some(ValidationCode::GroupSelectionIsNotObject)
        } else if place == 22 {
            Some(ValidationCode::InvalidHttpHeaderName)
        } else if place == 23 {
            Some(ValidationCode::InvalidHttpHeaderValue)
        } else if place == 24 {
            Some(ValidationCode::HttpHeaderNameCollision)
        } else if place == 25 {
            Some(ValidationCode::InvalidHttpHeaderMapping)
        } else if place == 26 {
            Some(ValidationCode::UnsupportedFederationDirective)
        } else if place == 27 {
            Some(ValidationCode::UnsupportedAbstractType)
        } else if place == 28 {
            Some(ValidationCode::MissingHeaderSource)
        } else if place == 29 {
            Some(ValidationCode::GroupSelectionRequiredForObject)
        } else {
            None
        }
    }

    /// The code at a place of the validator's list, if the list is that
    /// long.
    pub fn from_place(place: u8) -> (code: Option<ValidationCode>)
        ensures
            code == Self::at(place as int),
            code is Some <==> place < VALIDATION_CODES,
    {
        match place {
            0 => Some(ValidationCode::GraphQLError),
            1 => Some(ValidationCode::DuplicateSourceName),
            2 => Some(ValidationCode::InvalidSourceName),
            3 => Some(ValidationCode::EmptySourceName),
            4 => Some(ValidationCode::InvalidUrl),
            5 => Some(ValidationCode::SourceScheme),
            6 => Some(ValidationCode::SourceNameMismatch),
            7 => Some(ValidationCode::SubscriptionInConnectors),
            8 => Some(ValidationCode::QueryFieldMissingConnect),
            9 => Some(ValidationCode::MutationFieldMissingConnect),
            10 => Some(ValidationCode::AbsoluteConnectUrlWithSource),
            11 => Some(ValidationCode::RelativeConnectUrlWithoutSource),
            12 => Some(ValidationCode::NoSourcesDefined),
            13 => Some(ValidationCode::NoSourceImport),
            14 => Some(ValidationCode::MultipleHttpMethods),
            15 => Some(ValidationCode::MissingHttpMethod),
            16 => Some(ValidationCode::EntityNotOnRootQuery),
            17 => Some(ValidationCode::EntityTypeInvalid),
            18 => Some(ValidationCode::InvalidJsonSelection),
            19 => Some(ValidationCode::CircularReference),
            20 => Some(ValidationCode::SelectedFieldNotFound),
            21 => Some(ValidationCode::GroupSelectionIsNotObject),
            22 => Some(ValidationCode::InvalidHttpHeaderName),
            23 => Some(ValidationCode::InvalidHttpHeaderValue),
            24 => Some(ValidationCode::HttpHeaderNameCollision),
            25 => Some(ValidationCode::InvalidHttpHeaderMapping),
            26 => Some(ValidationCode::UnsupportedFederationDirective),
            27 => Some(ValidationCode::UnsupportedAbstractType),
            28 => Some(ValidationCode::MissingHeaderSource),
            29 => Some(ValidationCode::GroupSelectionRequiredForObject),
            _ => None,
        }
    }

    /// The name under which this code is published.
    pub open spec fn public_code(self) -> Seq<char> {
        match self {
            ValidationCode::GraphQLError => "GRAPHQL_ERROR"@,
            ValidationCode::DuplicateSourceName => "DUPLICATE_SOURCE_NAME"@,
            ValidationCode::InvalidSourceName => "INVALID_SOURCE_NAME"@,
            ValidationCode::EmptySourceName => "EMPTY_SOURCE_NAME"@,
            ValidationCode::InvalidUrl => "INVALID_URL"@,
            ValidationCode::SourceScheme => "SOURCE_SCHEME"@,
            ValidationCode::SourceNameMismatch => "SOURCE_NAME_MISMATCH"@,
            ValidationCode::SubscriptionInConnectors => "SUBSCRIPTION_IN_CONNECTORS"@,
            ValidationCode::QueryFieldMissingConnect => "QUERY_FIELD_MISSING_CONNECT"@,
            ValidationCode::MutationFieldMissingConnect => "MUTATION_FIELD_MISSING_CONNECT"@,
            ValidationCode::AbsoluteConnectUrlWithSource => "ABSOLUTE_CONNECT_URL_WITH_SOURCE"@,
            ValidationCode::RelativeConnectUrlWithoutSource => "RELATIVE_CONNECT_URL_WITHOUT_SOURCE"@,
            ValidationCode::NoSourcesDefined => "NO_SOURCES_DEFINED"@,
            ValidationCode::NoSourceImport => "NO_SOURCE_IMPORT"@,
            ValidationCode::MultipleHttpMethods => "MULTIPLE_HTTP_METHODS"@,
            ValidationCode::MissingHttpMethod => "MISSING_HTTP_METHOD"@,
            ValidationCode::EntityNotOnRootQuery => "ENTITY_NOT_ON_ROOT_QUERY"@,
            ValidationCode::EntityTypeInvalid => "ENTITY_TYPE_INVALID"@,
            ValidationCode::InvalidJsonSelection => "INVALID_JSON_SELECTION"@,
            ValidationCode::CircularReference => "CIRCULAR_REFERENCE"@,
            ValidationCode::SelectedFieldNotFound => "SELECTED_FIELD_NOT_FOUND"@,
            ValidationCode::GroupSelectionIsNotObject => "GROUP_SELECTION_IS_NOT_OBJECT"@,
            ValidationCode::InvalidHttpHeaderName => "INVALID_HTTP_HEADER_NAME"@,
            ValidationCode::InvalidHttpHeaderValue => "INVALID_HTTP_HEADER_VALUE"@,
            ValidationCode::HttpHeaderNameCollision => "HTTP_HEADER_NAME_COLLISION"@,
            ValidationCode::InvalidHttpHeaderMapping => "INVALID_HTTP_HEADER_MAPPING"@,
            ValidationCode::UnsupportedFederationDirective => "UNSUPPORTED_FEDERATION_DIRECTIVE"@,
            ValidationCode::UnsupportedAbstractType => "UNSUPPORTED_ABSTRACT_TYPE"@,
            ValidationCode::MissingHeaderSource => "MISSING_HEADER_SOURCE"@,
            ValidationCode::GroupSelectionRequiredForObject => "GROUP_SELECTION_REQUIRED_FOR_OBJECT"@,
        }
    }

    /// How much a finding with this code matters: a missing import of
    /// `@source` is a warning, everything else is an error.
    pub open spec fn severity(self) -> Severity {
        if self == ValidationCode::NoSourceImport {
            Severity::Warning
        } else {
            Severity::Error
        }
    }
}

/// The name under which a code of the validator is published.
pub fn transform_code(code: ValidationCode) -> (name: String)
    ensures
        name@ == code.public_code(),
{
    let name = match code {
        ValidationCode::GraphQLError => "GRAPHQL_ERROR",
        ValidationCode::DuplicateSourceName => "DUPLICATE_SOURCE_NAME",
        ValidationCode::InvalidSourceName => "INVALID_SOURCE_NAME",
        ValidationCode::EmptySourceName => "EMPTY_SOURCE_NAME",
        ValidationCode::InvalidUrl => "INVALID_URL",
        ValidationCode::SourceScheme => "SOURCE_SCHEME",
        ValidationCode::SourceNameMismatch => "SOURCE_NAME_MISMATCH",
        ValidationCode::SubscriptionInConnectors => "SUBSCRIPTION_IN_CONNECTORS",
        ValidationCode::QueryFieldMissingConnect => "QUERY_FIELD_MISSING_CONNECT",
        ValidationCode::MutationFieldMissingConnect => "MUTATION_FIELD_MISSING_CONNECT",
        ValidationCode::AbsoluteConnectUrlWithSource => "ABSOLUTE_CONNECT_URL_WITH_SOURCE",
        ValidationCode::RelativeConnectUrlWithoutSource => "RELATIVE_CONNECT_URL_WITHOUT_SOURCE",
        ValidationCode::NoSourcesDefined => "NO_SOURCES_DEFINED",
        ValidationCode::NoSourceImport => "NO_SOURCE_IMPORT",
        ValidationCode::MultipleHttpMethods => "MULTIPLE_HTTP_METHODS",
        ValidationCode::MissingHttpMethod => "MISSING_HTTP_METHOD",
        ValidationCode::EntityNotOnRootQuery => "ENTITY_NOT_ON_ROOT_QUERY",
        ValidationCode::EntityTypeInvalid => "ENTITY_TYPE_INVALID",
        ValidationCode::InvalidJsonSelection => "INVALID_JSON_SELECTION",
        ValidationCode::CircularReference => "CIRCULAR_REFERENCE",
        ValidationCode::SelectedFieldNotFound => "SELECTED_FIELD_NOT_FOUND",
        ValidationCode::GroupSelectionIsNotObject => "GROUP_SELECTION_IS_NOT_OBJECT",
        ValidationCode::InvalidHttpHeaderName => "INVALID_HTTP_HEADER_NAME",
        ValidationCode::InvalidHttpHeaderValue => "INVALID_HTTP_HEADER_VALUE",
        ValidationCode::HttpHeaderNameCollision => "HTTP_HEADER_NAME_COLLISION",
        ValidationCode::InvalidHttpHeaderMapping => "INVALID_HTTP_HEADER_MAPPING",
        ValidationCode::UnsupportedFederationDirective => "UNSUPPORTED_FEDERATION_DIRECTIVE",
        ValidationCode::UnsupportedAbstractType => "UNSUPPORTED_ABSTRACT_TYPE",
        ValidationCode::MissingHeaderSource => "MISSING_HEADER_SOURCE",
        ValidationCode::GroupSelectionRequiredForObject => "GROUP_SELECTION_REQUIRED_FOR_OBJECT",
    };
    String::from_str(name)
}

/// How much a finding with this code matters.
pub fn severity(code: ValidationCode) -> (severity: Severity)
    ensures
        code == ValidationCode::NoSourceImport ==> severity == Severity::Warning,
        code != ValidationCode::NoSourceImport ==> severity == Severity::Error,
        severity == code.severity(),
{
    match code {
        ValidationCode::NoSourceImport => Severity::Warning,
        _ => Severity::Error,
    }
}

/// Only a missing import of `@source` is a warning: every other code of the
/// validator is an error.
pub proof fn lemma_only_missing_import_warns(code: ValidationCode)
    ensures
        code.severity() == Severity::Warning <==> code == ValidationCode::NoSourceImport,
        code.severity() == Severity::Error <==> code != ValidationCode::NoSourceImport,
{
}

/// The validator's list holds every code once: each place up to its length
/// holds a code, no place past it does, and no code stands at two places.
pub proof fn lemma_one_place_for_each_code(place: int, other: int)
    ensures
        0 <= place < VALIDATION_CODES <==> ValidationCode::at(place) is Some,
        ValidationCode::at(place) is Some && ValidationCode::at(place) == ValidationCode::at(other)
            ==> place == other,
{
}

/// Every code stands in the validator's list.
pub proof fn lemma_each_code_has_its_place(code: ValidationCode) -> (place: int)
    ensures
        0 <= place < VALIDATION_CODES,
        ValidationCode::at(place) == Some(code),
{
    match code {
        ValidationCode::GraphQLError => 0,
        ValidationCode::DuplicateSourceName => 1,
        ValidationCode::InvalidSourceName => 2,
        ValidationCode::EmptySourceName => 3,
        ValidationCode::InvalidUrl => 4,
        ValidationCode::SourceScheme => 5,
        ValidationCode::SourceNameMismatch => 6,
        ValidationCode::SubscriptionInConnectors => 7,
        ValidationCode::QueryFieldMissingConnect => 8,
        ValidationCode::MutationFieldMissingConnect => 9,
        ValidationCode::AbsoluteConnectUrlWithSource => 10,
        ValidationCode::RelativeConnectUrlWithoutSource => 11,
        ValidationCode::NoSourcesDefined => 12,
        ValidationCode::NoSourceImport => 13,
        ValidationCode::MultipleHttpMethods => 14,
        ValidationCode::MissingHttpMethod => 15,
        ValidationCode::EntityNotOnRootQuery => 16,
        ValidationCode::EntityTypeInvalid => 17,
        ValidationCode::InvalidJsonSelection => 18,
        ValidationCode::CircularReference => 19,
        ValidationCode::SelectedFieldNotFound => 20,
        ValidationCode::GroupSelectionIsNotObject => 21,
        ValidationCode::InvalidHttpHeaderName => 22,
        ValidationCode::InvalidHttpHeaderValue => 23,
        ValidationCode::HttpHeaderNameCollision => 24,
        ValidationCode::InvalidHttpHeaderMapping => 25,
        ValidationCode::UnsupportedFederationDirective => 26,
        ValidationCode::UnsupportedAbstractType => 27,
        ValidationCode::MissingHeaderSource => 28,
        ValidationCode::GroupSelectionRequiredForObject => 29,
    }
}

/// A stretch of schema text, from one point to another.
#[derive(Clone, Copy, Debug, PartialEq, Eq, Hash)]
pub struct SourceRange {
    pub start: SourcePoint,
    pub end: SourcePoint,
}

/// One finding of the validator.
#[derive(Clone, Debug, PartialEq, Eq)]
pub struct ValidationMessage {
    pub code: ValidationCode,
    pub message: String,
    pub locations: Vec<SourceRange>,
}

/// What a [`ValidationMessage`] stands for.
pub struct ValidationMessageView {
    pub code: ValidationCode,
    pub message: Seq<char>,
    pub locations: Seq<SourceRange>,
}

impl DeepView for ValidationMessage {
    type V = ValidationMessageView;

    open spec fn deep_view(&self) -> ValidationMessageView {
        ValidationMessageView {
            code: self.code,
            message: self.message@,
            locations: self.locations@,
        }
    }
}

impl ValidationMessageView {
    /// The issue that reports this finding in the subgraph of the given
    /// name: the code's public name and severity, the validator's message,
    /// and every stretch of text as a location in that subgraph.
    pub open spec fn issue(self, subgraph: Seq<char>) -> IssueView {
        IssueView {
            code: self.code.public_code(),
            message: self.message,
            locations: Seq::new(
                self.locations.len(),
                |i: int|
                    SubgraphLocationView {
                        subgraph,
                        start: self.locations[i].start,
                        end: self.locations[i].end,
                    },
            ),
            severity: self.code.severity(),
        }
    }
}

/// The issues that report the findings in one subgraph, one for one.
pub open spec fn subgraph_issues(
    subgraph: Seq<char>,
    messages: Seq<ValidationMessageView>,
) -> Seq<IssueView> {
    Seq::new(messages.len(), |i: int| messages[i].issue(subgraph))
}

/// The issues that report the findings in a list of subgraphs, where
/// `found[i]` is what was found in `subgraphs[i]`: the issues of the first
/// subgraph, then those of the second, and so on.
pub open spec fn all_subgraph_issues(
    subgraphs: Seq<SubgraphDefinitionView>,
    found: Seq<Seq<ValidationMessageView>>,
) -> Seq<IssueView>
    recommends
        found.len() == subgraphs.len(),
    decreases subgraphs.len(),
{
    if subgraphs.len() == 0 {
        Seq::empty()
    } else {
        all_subgraph_issues(subgraphs.drop_last(), found.drop_last()) + subgraph_issues(
            subgraphs.last().name,
            found.last(),
        )
    }
}

impl Issue {
    /// The issue that reports a finding of the validator in the subgraph of
    /// the given name.
    pub fn from_validation(subgraph: &str, message: ValidationMessage) -> (issue: Issue)
        ensures
            issue.deep_view() == message.deep_view().issue(subgraph@),
    {
        let ghost expected = message.deep_view().issue(subgraph@).locations;
        let mut locations: Vec<SubgraphLocation> = Vec::new();
        proof {
            lemma_deep_view_empty(locations);
        }
        let mut i: usize = 0;
        while i < message.locations.len()
            invariant
                i <= message.locations.len(),
                expected == message.deep_view().issue(subgraph@).locations,
                locations.deep_view() == expected.take(i as int),
            decreases message.locations.len() - i,
        {
            let ghost before = locations;
            let range = message.locations[i];
            let location = SubgraphLocation {
                subgraph: String::from_str(subgraph),
                start: range.start,
                end: range.end,
            };
            locations.push(location);
            proof {
                lemma_deep_view_push(before, locations, location);
                assert(expected.take(i + 1) =~= expected.take(i as int).push(expected[i as int]));
            }
            i += 1;
        }
        proof {
            assert(expected.take(expected.len() as int) =~= expected);
        }
        Issue {
            code: transform_code(message.code),
            message: message.message,
            locations,
            severity: severity(message.code),
        }
    }
}

/// The issues that report the findings in one subgraph.
pub fn issues_of_subgraph(subgraph: &str, messages: Vec<ValidationMessage>) -> (issues: Vec<Issue>)
    ensures
        issues.deep_view() == subgraph_issues(subgraph@, messages.deep_view()),
{
    let ghost expected = subgraph_issues(subgraph@, messages.deep_view());
    let mut issues: Vec<Issue> = Vec::new();
    proof {
        lemma_deep_view_empty(issues);
    }
    for message in it: messages
        invariant
            expected == subgraph_issues(subgraph@, messages.deep_view()),
            issues.deep_view() == expected.take(it.index as int),
    {
        let ghost before = issues;
        let issue = Issue::from_validation(subgraph, message);
        issues.push(issue);
        proof {
            lemma_deep_view_push(before, issues, issue);
            assert(expected.take(it.index + 1) =~= expected.take(it.index as int).push(
                expected[it.index as int],
            ));
        }
    }
    proof {
        assert(expected.take(expected.len() as int) =~= expected);
    }
    issues
}

/// A stretch of text as the validator gives it: lines and columns counted
/// from one.
pub(crate) struct FoundRange {
    pub start_line: usize,
    pub start_column: usize,
    pub end_line: usize,
    pub end_column: usize,
}

/// A finding as the validator gives it, with its code as the code's place
/// in the validator's list.
pub(crate) struct Found {
    pub place: u8,
    pub message: String,
    pub ranges: Vec<FoundRange>,
}

impl FoundRange {
    pub(crate) open spec fn counted_from_one(self) -> bool {
        &&& self.start_line >= 1
        &&& self.start_column >= 1
        &&& self.end_line >= 1
        &&& self.end_column >= 1
    }

    /// The same stretch with both ends shifted in.
    pub(crate) open spec fn shifted_in(self) -> SourceRange {
        SourceRange {
            start: SourcePoint::zero_indexed(self.start_line as int, self.start_column as int),
            end: SourcePoint::zero_indexed(self.end_line as int, self.end_column as int),
        }
    }
}

impl Found {
    /// What holds of every finding of the validator: its code is one of the
    /// list, and its positions are counted from one.
    pub(crate) open spec fn as_the_validator_gives(self) -> bool {
        &&& self.place < VALIDATION_CODES
        &&& forall|i: int|
            0 <= i < self.ranges@.len() ==> (#[trigger] self.ranges@[i]).counted_from_one()
    }

    /// The finding this stands for.
    pub(crate) open spec fn message_view(self) -> ValidationMessageView {
        ValidationMessageView {
            code: ValidationCode::at(self.place as int).unwrap(),
            message: self.message@,
            locations: Seq::new(self.ranges@.len(), |i: int| self.ranges@[i].shifted_in()),
        }
    }
}

/// What the connectors validator finds in a subgraph, given the text of its
/// schema and its name: `validate` of `apollo_federation` on what
/// `Schema::parse` of `apollo_compiler` makes of the two, each finding read
/// as [`Found::message_view`] says. The findings are a multiset, since the
/// validator gives them in an order of its own.
pub uninterp spec fn validator_finds(sdl: Seq<char>, name: Seq<char>) -> Multiset<
    ValidationMessageView,
>;

/// Calls `Schema::parse` of `apollo_compiler` on a subgraph's schema text,
/// with the subgraph's name as the path, then `validate` of
/// `apollo_federation`'s connectors validation on the schema, or on what the
/// parser could make of the text where it has errors, and hands out each
/// message's fields.
///
/// Claimed of the result: each code, taken as a number, is its place among
/// the thirty codes that the validator declares; every line and column is
/// at least one, as `apollo_compiler` documents of its `LineColumn`; and the
/// findings, whatever their order, are those that the text and the name
/// give. Their order is not claimed: it is not the same from run to run,
/// since the validator walks a hash map when it looks for source names that
/// occur twice.
#[verifier::external_body]
fn findings_in(sdl: &str, name: &str) -> (found: Vec<Found>)
    ensures
        all_as_the_validator_gives(found@),
        findings_view(found@).to_multiset() == validator_finds(sdl@, name@),
{
    let schema = Schema::parse(sdl, name).unwrap_or_else(|with_errors| with_errors.partial);
    let range = |r: std::ops::Range<apollo_compiler::parser::LineColumn>| FoundRange {
        start_line: r.start.line,
        start_column: r.start.column,
        end_line: r.end.line,
        end_column: r.end.column,
    };
    validate(schema).into_iter().map(|m| Found {
        place: m.code as u8,
        message: m.message,
        ranges: m.locations.into_iter().map(range).collect(),
    }).collect()
}

impl ValidationMessage {
    /// Reads one finding of the validator: the code at its place of the
    /// list, and every position shifted in.
    pub(crate) fn read(found: Found) -> (message: ValidationMessage)
        requires
            found.as_the_validator_gives(),
        ensures
            message.deep_view() == found.message_view(),
    {
        let ghost expected = found.message_view().locations;
        let mut locations: Vec<SourceRange> = Vec::new();
        let mut i: usize = 0;
        while i < found.ranges.len()
            invariant
                i <= found.ranges.len(),
                found.as_the_validator_gives(),
                expected == found.message_view().locations,
                locations@ == expected.take(i as int),
            decreases found.ranges.len() - i,
        {
            let range = &found.ranges[i];
            assert(range.counted_from_one());
            let start = SourcePoint::from_one_indexed(range.start_line, range.start_column);
            let end = SourcePoint::from_one_indexed(range.end_line, range.end_column);
            locations.push(SourceRange { start: start.unwrap(), end: end.unwrap() });
            proof {
                assert(expected.take(i + 1) =~= expected.take(i as int).push(expected[i as int]));
            }
            i += 1;
        }
        proof {
            assert(expected.take(expected.len() as int) =~= expected);
        }
        let code = ValidationCode::from_place(found.place);
        ValidationMessage { code: code.unwrap(), message: found.message, locations }
    }
}

/// What a list of findings of the validator stands for, one for one.
pub(crate) open spec fn findings_view(found: Seq<Found>) -> Seq<ValidationMessageView> {
    Seq::new(found.len(), |i: int| found[i].message_view())
}

/// Whether every finding of a list is as the validator gives them.
pub(crate) open spec fn all_as_the_validator_gives(found: Seq<Found>) -> bool {
    forall|i: int| 0 <= i < found.len() ==> (#[trigger] found[i]).as_the_validator_gives()
}

/// Reads the findings of the validator, one for one and in their order.
pub(crate) fn read_findings(found: Vec<Found>) -> (messages: Vec<ValidationMessage>)
    requires
        all_as_the_validator_gives(found@),
    ensures
        messages.deep_view() == findings_view(found@),
{
    let ghost expected = findings_view(found@);
    let mut messages: Vec<ValidationMessage> = Vec::new();
    proof {
        lemma_deep_view_empty(messages);
    }
    for finding in it: found
        invariant
            all_as_the_validator_gives(found@),
            expected == findings_view(found@),
            messages.deep_view() == expected.take(it.index as int),
    {
        let ghost before = messages;
        let message = ValidationMessage::read(finding);
        messages.push(message);
        proof {
            lemma_deep_view_push(before, messages, message);
            assert(expected.take(it.index + 1) =~= expected.take(it.index as int).push(
                expected[it.index as int],
            ));
        }
    }
    proof {
        assert(expected.take(expected.len() as int) =~= expected);
    }
    messages
}

/// Asks the connectors validator about one subgraph and reads what it
/// finds.
///
/// The result is the validator's findings for the subgraph's schema text
/// and name, read one for one and in the validator's order: each with the
/// code at its place of the validator's list, the validator's message, and
/// its positions shifted in.
fn validate_subgraph(subgraph: &SubgraphDefinition) -> (messages: Vec<ValidationMessage>)
    ensures
        messages.deep_view().to_multiset() == validator_finds(subgraph.sdl@, subgraph.name@),
        exists|found: Seq<Found>|
            all_as_the_validator_gives(found) && messages.deep_view() == #[trigger] findings_view(
                found,
            ),
{
    let found = findings_in(subgraph.sdl.as_str(), subgraph.name.as_str());
    let ghost given = found@;
    let messages = read_findings(found);
    proof {
        assert(messages.deep_view() == findings_view(given));
    }
    messages
}

/// Whether `found[i]` holds, in some order, what the validator finds in
/// `subgraphs[i]`, for each subgraph of the list.
pub open spec fn found_by_the_validator(
    subgraphs: Seq<SubgraphDefinitionView>,
    found: Seq<Seq<ValidationMessageView>>,
) -> bool {
    &&& found.len() == subgraphs.len()
    &&& forall|i: int|
        0 <= i < found.len() ==> (#[trigger] found[i]).to_multiset() == validator_finds(
            subgraphs[i].sdl,
            subgraphs[i].name,
        )
}

/// One issue is reported for each finding: no issue at all exactly if the
/// validator finds nothing in any subgraph.
pub proof fn lemma_issues_where_findings(
    subgraphs: Seq<SubgraphDefinitionView>,
    found: Seq<Seq<ValidationMessageView>>,
)
    requires
        found.len() == subgraphs.len(),
    ensures
        all_subgraph_issues(subgraphs, found).len() == 0 <==> forall|i: int|
            0 <= i < found.len() ==> (#[trigger] found[i]).len() == 0,
    decreases subgraphs.len(),
{
    if subgraphs.len() > 0 {
        let before = found.drop_last();
        lemma_issues_where_findings(subgraphs.drop_last(), before);
        assert(forall|i: int| 0 <= i < before.len() ==> before[i] == found[i]);
        let last = subgraph_issues(subgraphs.last().name, found.last());
        assert(last.len() == found.last().len());
        if all_subgraph_issues(subgraphs, found).len() == 0 {
            assert forall|i: int| 0 <= i < found.len() implies (#[trigger] found[i]).len()
                == 0 by {
                if i < before.len() {
                    assert(before[i] == found[i]);
                }
            }
        }
    }
}

/// Where the validator finds anything in any subgraph, issues are reported:
/// a list that holds what the validator finds gives at least one issue.
pub proof fn lemma_findings_give_issues(
    subgraphs: Seq<SubgraphDefinitionView>,
    found: Seq<Seq<ValidationMessageView>>,
    at: int,
)
    requires
        found_by_the_validator(subgraphs, found),
        0 <= at < subgraphs.len(),
        validator_finds(subgraphs[at].sdl, subgraphs[at].name).len() > 0,
    ensures
        all_subgraph_issues(subgraphs, found).len() > 0,
{
    broadcast use vstd::seq_lib::group_to_multiset_ensures;

    lemma_issues_where_findings(subgraphs, found);
    assert(found[at].to_multiset().len() == found[at].len());
}

/// Where the validator finds nothing in any subgraph, no issue is reported.
pub proof fn lemma_no_findings_give_no_issues(
    subgraphs: Seq<SubgraphDefinitionView>,
    found: Seq<Seq<ValidationMessageView>>,
)
    requires
        found_by_the_validator(subgraphs, found),
        forall|i: int|
            0 <= i < subgraphs.len() ==> (#[trigger] validator_finds(
                subgraphs[i].sdl,
                subgraphs[i].name,
            )).len() == 0,
    ensures
        all_subgraph_issues(subgraphs, found).len() == 0,
{
    broadcast use vstd::seq_lib::group_to_multiset_ensures;

    lemma_issues_where_findings(subgraphs, found);
    assert forall|i: int| 0 <= i < found.len() implies (#[trigger] found[i]).len() == 0 by {
        assert(found[i].to_multiset().len() == found[i].len());
        assert(validator_finds(subgraphs[i].sdl, subgraphs[i].name).len() == 0);
    }
}

/// Validates every subgraph and collects the issues that report what the
/// validator found, subgraph by subgraph in the order given.
///
/// For each subgraph the issues report what the validator finds in its
/// schema text under its name, one issue for each finding, in the order in
/// which the validator gave them: nothing is added and nothing left out.
pub fn validate_subgraphs(subgraph_definitions: &Vec<SubgraphDefinition>) -> (issues: Vec<Issue>)
    ensures
        exists|found: Seq<Seq<ValidationMessageView>>|
            found_by_the_validator(subgraph_definitions.deep_view(), found) && issues.deep_view()
                == #[trigger] all_subgraph_issues(subgraph_definitions.deep_view(), found),
{
    let ghost subgraphs = subgraph_definitions.deep_view();
    let ghost mut found: Seq<Seq<ValidationMessageView>> = Seq::empty();
    let mut issues: Vec<Issue> = Vec::new();
    proof {
        lemma_deep_view_empty(issues);
        assert(subgraphs.take(0) =~= Seq::empty());
    }
    let mut i: usize = 0;
    while i < subgraph_definitions.len()
        invariant
            i <= subgraph_definitions.len(),
            subgraphs == subgraph_definitions.deep_view(),
            found.len() == i,
            found_by_the_validator(subgraphs.take(i as int), found),
            issues.deep_view() == all_subgraph_issues(subgraphs.take(i as int), found),
        decreases subgraph_definitions.len() - i,
    {
        let subgraph = &subgraph_definitions[i];
        let messages = validate_subgraph(subgraph);
        let ghost in_this = messages.deep_view();
        let ghost before = issues;
        let mut more = issues_of_subgraph(subgraph.name.as_str(), messages);
        let ghost added = more;
        issues.append(&mut more);
        proof {
            lemma_deep_view_append(before, issues, added);
            let upto = subgraphs.take(i + 1);
            assert(upto.drop_last() =~= subgraphs.take(i as int));
            assert(upto.last() == subgraph.deep_view());
            assert(found.push(in_this).drop_last() =~= found);
            assert forall|j: int| 0 <= j < i + 1 implies (#[trigger] found.push(
                in_this,
            )[j]).to_multiset() == validator_finds(upto[j].sdl, upto[j].name) by {
                if j < i {
                    assert(found.push(in_this)[j] == found[j]);
                    assert(upto[j] == subgraphs.take(i as int)[j]);
                }
            }
            found = found.push(in_this);
        }
        i += 1;
    }
    proof {
        assert(subgraphs.take(i as int) =~= subgraphs);
    }
    issues
}

} // verus!
