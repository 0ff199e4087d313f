//! The composition run: validate the subgraphs, compose them, expand the
//! connectors, check satisfiability, and report what was found on the way.
//!
//! Composing, expanding and checking satisfiability are the host's part,
//! behind the operations of [`HybridComposition`]. When to ask, what to do
//! with the answer and what to report is decided here. What a run asks of
//! its host is stated as the list of calls it makes, [`run`], and every run
//! of [`HybridComposition::compose`] makes exactly those calls.

use crate::expansion::{
    answer_view, expansion_or_issue, experimental_feature_view, internal_error_view,
    issues_to_report, read_expansion, reported, ExpansionOutcome, ExpansionOutcomeView,
};
use crate::issue::{lemma_deep_view_empty, lemma_deep_view_push, Issue, IssueView, Severity};
use crate::javascript::{
    outcome_view, satisfiability_issues, SatisfiabilityOutcomeView, SatisfiabilityResult,
    SubgraphDefinition, SubgraphDefinitionView,
};
use crate::rewrite::rewritten;
use crate::validation::{
    all_subgraph_issues, found_by_the_validator, lemma_findings_give_issues,
    lemma_no_findings_give_no_issues, validate_subgraphs, validator_finds, ValidationMessageView,
};
use vstd::prelude::*;
use vstd::string::*;

verus! {

/// The text of a composed supergraph.
pub type SupergraphSdl<'a> = &'a str;

/// One call of a run to its host, with what the host answered.
pub enum HookCall {
    /// The host was asked to compose the subgraphs, and answered with the
    /// supergraph or with nothing.
    ComposeServices { subgraphs: Seq<SubgraphDefinitionView>, composed: Option<Seq<char>> },
    /// The host was asked to expand the connectors of a supergraph, and
    /// answered with what the expander made of it, or with the reason why
    /// the expander failed.
    ExpandConnectors { supergraph_sdl: Seq<char>, answer: Result<ExpansionOutcomeView, Seq<char>> },
    /// The host was given a new text of the supergraph to check.
    UpdateSupergraphSdl { supergraph_sdl: Seq<char> },
    /// The host was asked to check satisfiability, and answered.
    ValidateSatisfiability { outcome: SatisfiabilityOutcomeView },
    /// The host was given issues to report.
    AddIssues { issues: Seq<IssueView> },
}

/// What the parties that a run asks answered: the validator for each
/// subgraph, the host's composition, the expander, and the host's
/// satisfiability check. An answer that the run never asked for counts for
/// nothing.
pub struct Answers {
    pub found: Seq<Seq<ValidationMessageView>>,
    pub composed: Option<Seq<char>>,
    pub expansion: Result<ExpansionOutcomeView, Seq<char>>,
    pub satisfiability: SatisfiabilityOutcomeView,
}

/// The calls that a run makes once the expander has answered.
///
/// Where the expander failed: the issue that reports its failure is
/// reported, and that is all. Where the supergraph is unchanged:
/// satisfiability is checked and what it gives is reported. Where it was
/// expanded: the host gets the expanded text first.
pub open spec fn calls_after_expansion(
    expansion: Result<ExpansionOutcomeView, Seq<char>>,
    satisfiability: SatisfiabilityOutcomeView,
) -> Seq<HookCall> {
    match expansion {
        Err(reason) => seq![HookCall::AddIssues { issues: seq![internal_error_view(reason)] }],
        Ok(ExpansionOutcomeView::Unchanged) => seq![
            HookCall::ValidateSatisfiability { outcome: satisfiability },
            HookCall::AddIssues {
                issues: reported(ExpansionOutcomeView::Unchanged, satisfiability),
            },
        ],
        Ok(ExpansionOutcomeView::Expanded { raw_sdl, service_names }) => seq![
            HookCall::UpdateSupergraphSdl { supergraph_sdl: raw_sdl },
            HookCall::ValidateSatisfiability { outcome: satisfiability },
            HookCall::AddIssues {
                issues: reported(
                    ExpansionOutcomeView::Expanded { raw_sdl, service_names },
                    satisfiability,
                ),
            },
        ],
    }
}

/// The calls that a run on the given subgraphs makes to its host, in their
/// order, when the parties it asks answer as `answers` says.
///
/// Where the validator found anything: the issues are reported, and that is
/// all. Else the host is asked to compose. Where it answers with nothing,
/// that is all. Else the host is asked to expand the connectors of the
/// supergraph, and the run goes on as [`calls_after_expansion`] says.
pub open spec fn run(subgraphs: Seq<SubgraphDefinitionView>, answers: Answers) -> Seq<HookCall> {
    let invalid = all_subgraph_issues(subgraphs, answers.found);
    if invalid.len() > 0 {
        seq![HookCall::AddIssues { issues: invalid }]
    } else {
        match answers.composed {
            None => seq![HookCall::ComposeServices { subgraphs, composed: None }],
            Some(supergraph_sdl) => seq![
                HookCall::ComposeServices { subgraphs, composed: Some(supergraph_sdl) },
                HookCall::ExpandConnectors { supergraph_sdl, answer: answers.expansion },
            ] + calls_after_expansion(answers.expansion, answers.satisfiability),
        }
    }
}

/// Whether `calls` asks the host to compose.
pub open spec fn asks_to_compose(calls: Seq<HookCall>) -> bool {
    exists|i: int| 0 <= i < calls.len() && (#[trigger] calls[i]) is ComposeServices
}

/// Whether `calls` asks the host to expand connectors.
pub open spec fn asks_to_expand(calls: Seq<HookCall>) -> bool {
    exists|i: int| 0 <= i < calls.len() && (#[trigger] calls[i]) is ExpandConnectors
}

/// Whether `calls` asks the host to check satisfiability.
pub open spec fn asks_to_validate(calls: Seq<HookCall>) -> bool {
    exists|i: int| 0 <= i < calls.len() && (#[trigger] calls[i]) is ValidateSatisfiability
}

/// Whether `calls` gives the host a new text of the supergraph.
pub open spec fn updates_supergraph(calls: Seq<HookCall>) -> bool {
    exists|i: int| 0 <= i < calls.len() && (#[trigger] calls[i]) is UpdateSupergraphSdl
}

/// Whether `calls` gives the host issues to report.
pub open spec fn adds_issues(calls: Seq<HookCall>) -> bool {
    exists|i: int| 0 <= i < calls.len() && (#[trigger] calls[i]) is AddIssues
}

/// Invalid subgraphs end the run at once: what the validator found is
/// reported in one call, exactly as found, and the host is asked neither to
/// compose nor for anything else.
pub proof fn lemma_invalid_subgraphs_end_the_run(
    subgraphs: Seq<SubgraphDefinitionView>,
    answers: Answers,
)
    requires
        all_subgraph_issues(subgraphs, answers.found).len() > 0,
    ensures
        run(subgraphs, answers) == seq![
            HookCall::AddIssues { issues: all_subgraph_issues(subgraphs, answers.found) },
        ],
        !asks_to_compose(run(subgraphs, answers)),
        !asks_to_expand(run(subgraphs, answers)),
        !asks_to_validate(run(subgraphs, answers)),
        !updates_supergraph(run(subgraphs, answers)),
{
}

/// A finding of the validator in any one subgraph ends the run at once:
/// where the account of a run holds what the validator finds, and the
/// validator finds anything in the subgraph at `at`, the one call of the run
/// reports the issues, of which there is at least one, and the host is never
/// asked to compose.
pub proof fn lemma_a_finding_ends_the_run(
    subgraphs: Seq<SubgraphDefinitionView>,
    answers: Answers,
    at: int,
)
    requires
        found_by_the_validator(subgraphs, answers.found),
        0 <= at < subgraphs.len(),
        validator_finds(subgraphs[at].sdl, subgraphs[at].name).len() > 0,
    ensures
        all_subgraph_issues(subgraphs, answers.found).len() > 0,
        run(subgraphs, answers) == seq![
            HookCall::AddIssues { issues: all_subgraph_issues(subgraphs, answers.found) },
        ],
        !asks_to_compose(run(subgraphs, answers)),
{
    lemma_findings_give_issues(subgraphs, answers.found, at);
    lemma_invalid_subgraphs_end_the_run(subgraphs, answers);
}

/// Subgraphs in which the validator finds nothing are composed: where the
/// account of a run holds what the validator finds, and it finds nothing in
/// any subgraph, the first call of the run asks the host to compose the
/// subgraphs as they were given, and nothing is reported before.
pub proof fn lemma_valid_subgraphs_are_composed(
    subgraphs: Seq<SubgraphDefinitionView>,
    answers: Answers,
)
    requires
        found_by_the_validator(subgraphs, answers.found),
        forall|i: int|
            0 <= i < subgraphs.len() ==> (#[trigger] validator_finds(
                subgraphs[i].sdl,
                subgraphs[i].name,
            )).len() == 0,
    ensures
        run(subgraphs, answers).len() >= 1,
        run(subgraphs, answers)[0] == (HookCall::ComposeServices {
            subgraphs,
            composed: answers.composed,
        }),
{
    lemma_no_findings_give_no_issues(subgraphs, answers.found);
}

/// A composition that gives nothing ends the run in silence: the one call
/// of the run is the request to compose. No issue is reported, the
/// connectors are not expanded, and satisfiability is not checked.
pub proof fn lemma_failed_composition_ends_the_run(
    subgraphs: Seq<SubgraphDefinitionView>,
    answers: Answers,
)
    requires
        all_subgraph_issues(subgraphs, answers.found).len() == 0,
        answers.composed is None,
    ensures
        run(subgraphs, answers) == seq![HookCall::ComposeServices { subgraphs, composed: None }],
        !adds_issues(run(subgraphs, answers)),
        !asks_to_expand(run(subgraphs, answers)),
        !asks_to_validate(run(subgraphs, answers)),
        !updates_supergraph(run(subgraphs, answers)),
{
}

/// A failure of the expander ends the run with one issue, an internal error
/// without locations: satisfiability is not checked, and the host gets no
/// new text.
pub proof fn lemma_failed_expansion_ends_the_run(
    subgraphs: Seq<SubgraphDefinitionView>,
    answers: Answers,
    supergraph_sdl: Seq<char>,
    reason: Seq<char>,
)
    requires
        all_subgraph_issues(subgraphs, answers.found).len() == 0,
        answers.composed == Some(supergraph_sdl),
        answers.expansion == Err::<ExpansionOutcomeView, Seq<char>>(reason),
    ensures
        run(subgraphs, answers) == seq![
            HookCall::ComposeServices { subgraphs, composed: answers.composed },
            HookCall::ExpandConnectors { supergraph_sdl, answer: answers.expansion },
            HookCall::AddIssues { issues: seq![internal_error_view(reason)] },
        ],
        internal_error_view(reason).severity == Severity::Error,
        internal_error_view(reason).locations.len() == 0,
        !asks_to_validate(run(subgraphs, answers)),
        !updates_supergraph(run(subgraphs, answers)),
{
    let calls = run(subgraphs, answers);
    assert(calls =~= seq![
        HookCall::ComposeServices { subgraphs, composed: answers.composed },
        HookCall::ExpandConnectors { supergraph_sdl, answer: answers.expansion },
        HookCall::AddIssues { issues: seq![internal_error_view(reason)] },
    ]);
}

/// An unchanged supergraph is checked as it is: the host gets no new text,
/// and what the check gives is reported as it came, with nothing rewritten
/// and no notice added.
pub proof fn lemma_unchanged_supergraph_is_checked_as_it_is(
    subgraphs: Seq<SubgraphDefinitionView>,
    answers: Answers,
    supergraph_sdl: Seq<char>,
)
    requires
        all_subgraph_issues(subgraphs, answers.found).len() == 0,
        answers.composed == Some(supergraph_sdl),
        answers.expansion == Ok::<ExpansionOutcomeView, Seq<char>>(ExpansionOutcomeView::Unchanged),
    ensures
        run(subgraphs, answers) == seq![
            HookCall::ComposeServices { subgraphs, composed: answers.composed },
            HookCall::ExpandConnectors { supergraph_sdl, answer: answers.expansion },
            HookCall::ValidateSatisfiability { outcome: answers.satisfiability },
            HookCall::AddIssues { issues: satisfiability_issues(answers.satisfiability) },
        ],
        !updates_supergraph(run(subgraphs, answers)),
{
    let calls = run(subgraphs, answers);
    assert(calls =~= seq![
        HookCall::ComposeServices { subgraphs, composed: answers.composed },
        HookCall::ExpandConnectors { supergraph_sdl, answer: answers.expansion },
        HookCall::ValidateSatisfiability { outcome: answers.satisfiability },
        HookCall::AddIssues { issues: satisfiability_issues(answers.satisfiability) },
    ]);
}

/// An expanded supergraph is handed to the host before satisfiability is
/// checked, and what the check gives is reported rewritten: as many issues
/// as the check gave, each with its message rewritten and nothing else
/// changed, and after them one notice, a warning without locations, that
/// connectors are experimental.
pub proof fn lemma_expanded_supergraph_is_rewritten(
    subgraphs: Seq<SubgraphDefinitionView>,
    answers: Answers,
    supergraph_sdl: Seq<char>,
    raw_sdl: Seq<char>,
    service_names: Seq<(Seq<char>, Seq<char>)>,
)
    requires
        all_subgraph_issues(subgraphs, answers.found).len() == 0,
        answers.composed == Some(supergraph_sdl),
        answers.expansion == Ok::<ExpansionOutcomeView, Seq<char>>(
            ExpansionOutcomeView::Expanded { raw_sdl, service_names },
        ),
    ensures
        run(subgraphs, answers).len() == 5,
        run(subgraphs, answers)[0] == (HookCall::ComposeServices {
            subgraphs,
            composed: answers.composed,
        }),
        run(subgraphs, answers)[1] == (HookCall::ExpandConnectors {
            supergraph_sdl,
            answer: answers.expansion,
        }),
        run(subgraphs, answers)[2] == (HookCall::UpdateSupergraphSdl { supergraph_sdl: raw_sdl }),
        run(subgraphs, answers)[3] == (HookCall::ValidateSatisfiability {
            outcome: answers.satisfiability,
        }),
        run(subgraphs, answers)[4] matches HookCall::AddIssues { issues } && {
            let found = satisfiability_issues(answers.satisfiability);
            &&& issues.len() == found.len() + 1
            &&& issues.last() == experimental_feature_view()
            &&& issues.last().severity == Severity::Warning
            &&& issues.last().locations.len() == 0
            &&& forall|i: int|
                0 <= i < found.len() ==> #[trigger] issues[i] == found[i].with_message(
                    rewritten(found[i].message, service_names),
                )
        },
{
}

/// The one issue of a satisfiability check that could not run is rewritten
/// like any other: of an expanded supergraph, the run reports that issue
/// with its message rewritten, and the notice.
pub proof fn lemma_failed_check_is_rewritten_too(
    raw_sdl: Seq<char>,
    service_names: Seq<(Seq<char>, Seq<char>)>,
    issue: IssueView,
)
    ensures
        reported(
            ExpansionOutcomeView::Expanded { raw_sdl, service_names },
            Err(issue),
        ) == seq![
            issue.with_message(rewritten(issue.message, service_names)),
            experimental_feature_view(),
        ],
{
    let found = satisfiability_issues(Err(issue));
    assert(found =~= seq![issue]);
    assert(reported(ExpansionOutcomeView::Expanded { raw_sdl, service_names }, Err(issue)) =~= seq![
        issue.with_message(rewritten(issue.message, service_names)),
        experimental_feature_view(),
    ]);
}

/// Issues of the validator are never rewritten: whatever the other parties
/// would have answered, they are reported as found.
pub proof fn lemma_validation_issues_are_reported_as_found(
    subgraphs: Seq<SubgraphDefinitionView>,
    answers: Answers,
    other: Answers,
)
    requires
        all_subgraph_issues(subgraphs, answers.found).len() > 0,
        other.found == answers.found,
    ensures
        run(subgraphs, other) == run(subgraphs, answers),
{
}

/// What a run does once its subgraphs are validated.
#[derive(Clone, Debug, PartialEq, Eq)]
pub enum Validation {
    /// The validator found something. These issues are reported, and the
    /// run is over.
    Failed(Vec<Issue>),
    /// The validator found nothing. The host is asked to compose these
    /// subgraphs.
    Passed(Vec<SubgraphDefinition>),
}

impl Validation {
    /// What a run on the given subgraphs does once the validator has found
    /// the given issues: with any issue at all it ends, and else it goes on
    /// with the subgraphs as they are.
    pub fn of(subgraph_definitions: Vec<SubgraphDefinition>, issues: Vec<Issue>) -> (next:
        Validation)
        ensures
            issues.len() > 0 ==> next == Validation::Failed(issues),
            issues.len() == 0 ==> next == Validation::Passed(subgraph_definitions),
    {
        if issues.len() > 0 {
            Validation::Failed(issues)
        } else {
            Validation::Passed(subgraph_definitions)
        }
    }
}

/// Validates the subgraphs of a run and says what the run does next.
///
/// Whatever the validator finds, the run ends exactly if it finds anything,
/// and then with the issues that report what it found.
pub fn validation(subgraph_definitions: Vec<SubgraphDefinition>) -> (next: Validation)
    ensures
        exists|found: Seq<Seq<ValidationMessageView>>|
            {
                let issues = #[trigger] all_subgraph_issues(
                    subgraph_definitions.deep_view(),
                    found,
                );
                &&& found_by_the_validator(subgraph_definitions.deep_view(), found)
                &&& match next {
                    Validation::Failed(reported) => issues.len() > 0 && reported.deep_view()
                        == issues,
                    Validation::Passed(subgraphs) => issues.len() == 0 && subgraphs
                        == subgraph_definitions,
                }
            },
{
    let issues = validate_subgraphs(&subgraph_definitions);
    proof {
        assert(issues.deep_view().len() == issues.len());
    }
    Validation::of(subgraph_definitions, issues)
}

/// What a run does once its host has composed and, if there is a supergraph,
/// the expander has answered.
#[derive(Clone, Debug, PartialEq, Eq)]
pub enum Composition {
    /// The host composed nothing. The run is over, and nothing is reported.
    Failed,
    /// The expander failed. This issue is reported, and the run is over.
    NotExpanded(Issue),
    /// Satisfiability is checked: of the expanded supergraph, which the
    /// host is given first, or of the supergraph as it was composed.
    Composed(ExpansionOutcome),
}

/// What the expander's answer, if it was asked, stands for.
pub open spec fn asked_view(
    answer: Option<Result<ExpansionOutcome, String>>,
) -> Option<Result<ExpansionOutcomeView, Seq<char>>> {
    match answer {
        None => None,
        Some(answer) => Some(answer_view(answer)),
    }
}

impl Composition {
    /// What this stands for: nothing where the host composed nothing, and
    /// else the outcome of the expansion, or the issue that reports its
    /// failure.
    pub open spec fn view(self) -> Option<Result<ExpansionOutcomeView, IssueView>> {
        match self {
            Composition::Failed => None,
            Composition::NotExpanded(issue) => Some(Err(issue.deep_view())),
            Composition::Composed(outcome) => Some(Ok(outcome.deep_view())),
        }
    }

    /// What a run does once its host has composed, given the expander's
    /// answer, where there was a supergraph to ask it about.
    pub fn of(answer: Option<Result<ExpansionOutcome, String>>) -> (next: Composition)
        ensures
            next.view() == match asked_view(answer) {
                None => None::<Result<ExpansionOutcomeView, IssueView>>,
                Some(answer) => Some(expansion_or_issue(answer)),
            },
    {
        match answer {
            None => Composition::Failed,
            Some(answer) => match read_expansion(answer) {
                Ok(outcome) => Composition::Composed(outcome),
                Err(issue) => Composition::NotExpanded(issue),
            },
        }
    }
}

/// The composition run, with the engines it needs from its host.
///
/// A host implements the operations; [`HybridComposition::compose`] then
/// runs the complete process. Composition itself is expected to be
/// `composeServices` of `@apollo/composition`, the satisfiability check its
/// `validateSatisfiability`, and the expander `expand_connectors` of
/// `apollo_federation`.
pub trait HybridComposition {
    /// The calls that runs have made to this host, oldest first, each with
    /// the host's answer.
    ///
    /// A verified host must define this, and say by it how the host keeps
    /// that account. The default is the account of a host that keeps none:
    /// with it no operation can be proved to meet its contract, so nothing
    /// is proved of a host that leaves it as it is.
    open spec fn calls(&self) -> Seq<HookCall> {
        Seq::empty()
    }

    /// Composes the subgraphs without checking satisfiability, as
    /// `composeServices(definitions, {runSatisfiability: false})` does, and
    /// returns the supergraph. Where composition fails, the host keeps the
    /// reasons among its issues and returns nothing.
    fn compose_services_without_satisfiability(
        &mut self,
        subgraph_definitions: Vec<SubgraphDefinition>,
    ) -> (supergraph_sdl: Option<SupergraphSdl<'_>>)
        ensures
            final(self).calls() == old(self).calls().push(
                HookCall::ComposeServices {
                    subgraphs: subgraph_definitions.deep_view(),
                    composed: match supergraph_sdl {
                        Some(composed) => Some(composed@),
                        None => None,
                    },
                },
            ),
    ;

    /// Expands the connectors of a composed supergraph, and returns what
    /// the expander made of it. Where the expander fails, be it by stopping
    /// short, the host returns the reason as text.
    fn expand_connectors(&mut self, supergraph_sdl: &str) -> (answer: Result<
        ExpansionOutcome,
        String,
    >)
        ensures
            final(self).calls() == old(self).calls().push(
                HookCall::ExpandConnectors {
                    supergraph_sdl: supergraph_sdl@,
                    answer: answer_view(answer),
                },
            ),
    ;

    /// Checks satisfiability of the supergraph: the one last given to
    /// [`HybridComposition::update_supergraph_sdl`], or else the composed
    /// one. Returns what the check gave or, where it could not run, the
    /// issue that says why.
    fn validate_satisfiability(&mut self) -> (outcome: Result<SatisfiabilityResult, Issue>)
        ensures
            final(self).calls() == old(self).calls().push(
                HookCall::ValidateSatisfiability { outcome: outcome_view(outcome) },
            ),
    ;

    /// Takes a new text of the supergraph, to be checked from now on.
    fn update_supergraph_sdl(&mut self, supergraph_sdl: String)
        ensures
            final(self).calls() == old(self).calls().push(
                HookCall::UpdateSupergraphSdl { supergraph_sdl: supergraph_sdl@ },
            ),
    ;

    /// Takes issues to report to the user, after those it already has.
    fn add_issues(&mut self, issues: Vec<Issue>)
        ensures
            final(self).calls() == old(self).calls().push(
                HookCall::AddIssues { issues: issues.deep_view() },
            ),
    ;

    /// Runs the complete composition process:
    ///
    /// 1. validates the subgraphs, and stops with what was found if
    ///    anything was;
    /// 2. asks the host to compose them, and stops if it cannot;
    /// 3. asks the host to expand the connectors of the supergraph, and
    ///    stops with one issue if the expander fails;
    /// 4. asks the host to check satisfiability, of the expanded supergraph
    ///    if there is one, and reports what the check gives.
    ///
    /// Whatever the validator and the host answer, the calls made to the
    /// host are those of [`run`] for their answers, and no others.
    fn compose(&mut self, subgraph_definitions: Vec<SubgraphDefinition>)
        ensures
            exists|answers: Answers|
                found_by_the_validator(subgraph_definitions.deep_view(), answers.found)
                    && final(self).calls() == old(self).calls() + #[trigger] run(
                    subgraph_definitions.deep_view(),
                    answers,
                ),
    {
        let ghost subgraphs = subgraph_definitions.deep_view();
        let ghost before = self.calls();
        let ghost unasked_expansion = Ok::<ExpansionOutcomeView, Seq<char>>(
            ExpansionOutcomeView::Unchanged,
        );
        let ghost unasked_check = Err::<_, IssueView>(experimental_feature_view());

        let validated = validation(subgraph_definitions);
        let ghost found = choose|found: Seq<Seq<ValidationMessageView>>|
            {
                let issues = #[trigger] all_subgraph_issues(subgraphs, found);
                &&& found_by_the_validator(subgraphs, found)
                &&& match validated {
                    Validation::Failed(reported) => issues.len() > 0 && reported.deep_view()
                        == issues,
                    Validation::Passed(passed) => issues.len() == 0 && passed
                        == subgraph_definitions,
                }
            };
        let subgraph_definitions = match validated {
            Validation::Failed(subgraph_validation_errors) => {
                self.add_issues(subgraph_validation_errors);
                proof {
                    let answers = Answers {
                        found,
                        composed: None,
                        expansion: unasked_expansion,
                        satisfiability: unasked_check,
                    };
                    assert(self.calls() =~= before + run(subgraphs, answers));
                }
                return ;
            },
            Validation::Passed(subgraph_definitions) => subgraph_definitions,
        };

        let answer = match self.compose_services_without_satisfiability(subgraph_definitions) {
            None => None,
            Some(supergraph_sdl) => Some(String::from_str(supergraph_sdl)),
        };
        let ghost composed = answer.deep_view();
        let answer = match answer {
            None => None,
            Some(supergraph_sdl) => Some(self.expand_connectors(supergraph_sdl.as_str())),
        };
        let ghost expansion = match asked_view(answer) {
            None => unasked_expansion,
            Some(answered) => answered,
        };
        match Composition::of(answer) {
            Composition::Failed => {
                proof {
                    let answers = Answers {
                        found,
                        composed,
                        expansion,
                        satisfiability: unasked_check,
                    };
                    assert(self.calls() =~= before + run(subgraphs, answers));
                }
            },
            Composition::NotExpanded(issue) => {
                let ghost answers = Answers {
                    found,
                    composed,
                    expansion,
                    satisfiability: unasked_check,
                };
                let mut issues: Vec<Issue> = Vec::new();
                let ghost none = issues;
                issues.push(issue);
                proof {
                    lemma_deep_view_empty(none);
                    lemma_deep_view_push(none, issues, issue);
                    assert(issues.deep_view() =~= seq![issue.deep_view()]);
                }
                self.add_issues(issues);
                proof {
                    assert(self.calls() =~= before + run(subgraphs, answers));
                }
            },
            Composition::Composed(outcome) => {
                if let Some(raw_sdl) = outcome.text_to_check() {
                    self.update_supergraph_sdl(raw_sdl.clone());
                }
                let satisfiability_result = self.validate_satisfiability();
                let ghost answers = Answers {
                    found,
                    composed,
                    expansion,
                    satisfiability: outcome_view(satisfiability_result),
                };
                self.add_issues(issues_to_report(&outcome, satisfiability_result));
                proof {
                    assert(self.calls() =~= before + run(subgraphs, answers));
                }
            },
        }
    }
}

} // verus!
