//! Phase-gate contract evaluation for CI verification suites.

use vstd::prelude::*;
use vstd::slice::slice_subrange;

use crate::text::{
    chars_of, contains, contains_text, line_texts, lines, lines_of, matches_text, str_texts,
    string_texts, suffix_start, text_of, trim, trim_text,
};

verus! {

/// A verification suite required by a phase gate.
#[derive(Clone, Copy, Debug, PartialEq, Eq)]
pub struct VerificationSuite {
    /// Stable suite identifier used in reports and CI output.
    pub id: &'static str,
    /// Subsystem label used to tie failures to escalation scope.
    pub subsystem: &'static str,
    /// Substring used to match tests from the test listing.
    pub test_filter: &'static str,
}

/// Mathematical model of a [`VerificationSuite`].
pub ghost struct VerificationSuiteView {
    pub id: Seq<char>,
    pub subsystem: Seq<char>,
    pub test_filter: Seq<char>,
}

impl View for VerificationSuite {
    type V = VerificationSuiteView;

    open spec fn view(&self) -> VerificationSuiteView {
        VerificationSuiteView {
            id: self.id@,
            subsystem: self.subsystem@,
            test_filter: self.test_filter@,
        }
    }
}

/// Phase target for gate enforcement.
#[derive(Clone, Copy, Debug, PartialEq, Eq, PartialOrd, Ord, Structural)]
pub enum PhaseGateTarget {
    /// No acceptance gate is required before Phase 0.
    Phase0,
    /// Gate required before Phase 1 begins.
    Phase1,
    /// Gate required before Phase 2 begins.
    Phase2,
    /// Gate required before Phase 3 begins.
    Phase3,
    /// Gate required before Phase 4 begins.
    Phase4,
    /// Gate required before Phase 5 begins.
    Phase5,
    /// Gate required before roadmap completion.
    Completion,
}

/// The stable label of a phase target.
pub open spec fn target_label(target: PhaseGateTarget) -> Seq<char> {
    match target {
        PhaseGateTarget::Phase0 => "phase0"@,
        PhaseGateTarget::Phase1 => "phase1"@,
        PhaseGateTarget::Phase2 => "phase2"@,
        PhaseGateTarget::Phase3 => "phase3"@,
        PhaseGateTarget::Phase4 => "phase4"@,
        PhaseGateTarget::Phase5 => "phase5"@,
        PhaseGateTarget::Completion => "completion"@,
    }
}

/// The phase target that `label` names: each target by its stable label, a
/// numbered phase by its number as well, and completion by
/// `roadmap-completion` as well.
pub open spec fn target_of_label(label: Seq<char>) -> Option<PhaseGateTarget> {
    if label == "phase0"@ || label == "0"@ {
        Some(PhaseGateTarget::Phase0)
    } else if label == "phase1"@ || label == "1"@ {
        Some(PhaseGateTarget::Phase1)
    } else if label == "phase2"@ || label == "2"@ {
        Some(PhaseGateTarget::Phase2)
    } else if label == "phase3"@ || label == "3"@ {
        Some(PhaseGateTarget::Phase3)
    } else if label == "phase4"@ || label == "4"@ {
        Some(PhaseGateTarget::Phase4)
    } else if label == "phase5"@ || label == "5"@ {
        Some(PhaseGateTarget::Phase5)
    } else if label == "completion"@ || label == "roadmap-completion"@ {
        Some(PhaseGateTarget::Completion)
    } else {
        None
    }
}

impl PhaseGateTarget {
    /// Returns the stable string label used in CLI output and policy files.
    pub fn as_str(self) -> (label: &'static str)
        ensures
            label@ == target_label(self),
    {
        match self {
            PhaseGateTarget::Phase0 => "phase0",
            PhaseGateTarget::Phase1 => "phase1",
            PhaseGateTarget::Phase2 => "phase2",
            PhaseGateTarget::Phase3 => "phase3",
            PhaseGateTarget::Phase4 => "phase4",
            PhaseGateTarget::Phase5 => "phase5",
            PhaseGateTarget::Completion => "completion",
        }
    }
}

/// Gate status outcome for a target phase.
#[derive(Clone, Copy, Debug, PartialEq, Eq, Structural)]
pub enum PhaseGateStatus {
    /// All required suites exist and passed.
    Passed,
    /// One or more required suites are missing from the catalogue.
    MissingSuites,
    /// One or more required suites failed execution.
    FailingSuites,
}

/// Deterministic gate report used by CLI output and tests.
#[derive(Debug, PartialEq, Eq)]
pub struct PhaseGateReport {
    /// Evaluated phase target.
    pub target: PhaseGateTarget,
    /// Final gate status.
    pub status: PhaseGateStatus,
    /// Required suite ids for the target in deterministic order.
    pub required_suite_ids: Vec<&'static str>,
    /// Missing suite ids for the target in deterministic order.
    pub missing_suite_ids: Vec<&'static str>,
    /// Failing suite ids for the target in deterministic order.
    pub failing_suite_ids: Vec<&'static str>,
}

/// Mathematical model of a [`PhaseGateReport`].
pub ghost struct PhaseGateReportView {
    pub target: PhaseGateTarget,
    pub status: PhaseGateStatus,
    pub required_suite_ids: Seq<Seq<char>>,
    pub missing_suite_ids: Seq<Seq<char>>,
    pub failing_suite_ids: Seq<Seq<char>>,
}

impl View for PhaseGateReport {
    type V = PhaseGateReportView;

    open spec fn view(&self) -> PhaseGateReportView {
        PhaseGateReportView {
            target: self.target,
            status: self.status,
            required_suite_ids: str_texts(self.required_suite_ids@),
            missing_suite_ids: str_texts(self.missing_suite_ids@),
            failing_suite_ids: str_texts(self.failing_suite_ids@),
        }
    }
}

/// Release-blocking causes from the verification target policy.
pub const RELEASE_BLOCKING_CAUSES: [&'static str; 4] = [
    "security invariant enforcement",
    "policy decision determinism",
    "fail-closed semantics",
    "audit confidentiality constraints",
];

/// Escalation steps from the verification target policy.
pub const ESCALATION_STEPS: [&'static str; 3] = [
    "freeze merges affecting the failing subsystem",
    "add or update a regression test reproducing the failure",
    "restore gate green status before continuing feature work",
];

/// The model of the suite `id` of `subsystem`, matched by `test_filter`.
pub open spec fn suite(id: Seq<char>, subsystem: Seq<char>, test_filter: Seq<char>) ->
    VerificationSuiteView {
    VerificationSuiteView { id, subsystem, test_filter }
}

/// The suites mandated for `target`, in their fixed order.
pub open spec fn required_suites(target: PhaseGateTarget) -> Seq<VerificationSuiteView> {
    match target {
        PhaseGateTarget::Phase0 => Seq::empty(),
        PhaseGateTarget::Phase1 => seq![
            suite("policy-schema-contract"@, "policy schema loader"@, "policy_schema_bdd::"@),
            suite("llm-sink-enforcement"@, "LLM sink enforcement"@, "llm_sink_enforcement::"@),
            suite("authority-lifecycle"@, "authority lifecycle"@, "authority_lifecycle_bdd::"@),
            suite("localization-contract"@, "localization contract"@, "localization_contract::"@),
        ],
        PhaseGateTarget::Phase2 => seq![
            suite(
                "container-mutation-fail-closed"@,
                "mutable-container soundness"@,
                "container_mutation_fail_closed::"@,
            ),
            suite("aliasing-fail-closed"@, "aliasing soundness"@, "aliasing_fail_closed::"@),
            suite(
                "budget-overflow-fail-closed"@,
                "provenance budget overflow"@,
                "budget_overflow_fail_closed::"@,
            ),
        ],
        PhaseGateTarget::Phase3 => seq![
            suite(
                "tool-catalogue-pinning"@,
                "tool catalogue boundary"@,
                "tool_catalogue_pinning::"@,
            ),
            suite("mcp-trust-class"@, "MCP trust-class boundary"@, "mcp_trust_class::"@),
        ],
        PhaseGateTarget::Phase4 => seq![
            suite(
                "llm-sink-privacy-boundary-integration"@,
                "LLM sink privacy boundary integration"@,
                "llm_sink_privacy_boundary::"@,
            ),
        ],
        PhaseGateTarget::Phase5 => seq![
            suite("audit-confidentiality"@, "audit confidentiality"@, "audit_confidentiality::"@),
            suite("audit-tamper-evidence"@, "audit tamper evidence"@, "audit_tamper_evidence::"@),
        ],
        PhaseGateTarget::Completion => seq![
            suite(
                "localization-fallback-ordering"@,
                "localization fallback ordering"@,
                "localization_fallback_ordering::"@,
            ),
            suite(
                "localization-no-global-state"@,
                "localization no-global-state contract"@,
                "localization_no_global_state::"@,
            ),
        ],
    }
}

/// Every mandated suite, phase by phase.
pub open spec fn suite_catalogue() -> Seq<VerificationSuiteView> {
    required_suites(PhaseGateTarget::Phase0) + required_suites(PhaseGateTarget::Phase1)
        + required_suites(PhaseGateTarget::Phase2) + required_suites(PhaseGateTarget::Phase3)
        + required_suites(PhaseGateTarget::Phase4) + required_suites(PhaseGateTarget::Phase5)
        + required_suites(PhaseGateTarget::Completion)
}

/// The models of a sequence of suites, in order.
pub open spec fn suite_views(suites: Seq<VerificationSuite>) -> Seq<VerificationSuiteView> {
    suites.map_values(|suite: VerificationSuite| suite@)
}

/// The identifiers of a sequence of suites, in order.
pub open spec fn suite_ids(suites: Seq<VerificationSuiteView>) -> Seq<Seq<char>> {
    suites.map_values(|suite: VerificationSuiteView| suite.id)
}

/// The first of `suites` whose identifier is `id`.
pub open spec fn first_with_id(suites: Seq<VerificationSuiteView>, id: Seq<char>) -> Option<
    VerificationSuiteView,
>
    decreases suites.len(),
{
    if suites.len() == 0 {
        None
    } else if suites.first().id == id {
        Some(suites.first())
    } else {
        first_with_id(suites.drop_first(), id)
    }
}

/// Whether one of `test_names` holds the filter of `suite`.
pub open spec fn suite_is_listed(suite: VerificationSuiteView, test_names: Seq<Seq<char>>) -> bool {
    exists|i: int|
        0 <= i < test_names.len() && contains_text(#[trigger] test_names[i], suite.test_filter)
}

/// The status of a gate with `missing` missing and `failing` failing suites:
/// a missing suite outweighs a failing one.
pub open spec fn gate_status(missing: nat, failing: nat) -> PhaseGateStatus {
    if missing > 0 {
        PhaseGateStatus::MissingSuites
    } else if failing > 0 {
        PhaseGateStatus::FailingSuites
    } else {
        PhaseGateStatus::Passed
    }
}

/// The report for `target` when the tests `test_names` are listed
/// and the suites `failing_ids` have failed. Suites are reported in their
/// mandated order: as missing those that no listed test matches, as failing
/// those among `failing_ids`.
pub open spec fn phase_gate_report(
    target: PhaseGateTarget,
    test_names: Seq<Seq<char>>,
    failing_ids: Set<Seq<char>>,
) -> PhaseGateReportView {
    let suites = required_suites(target);
    let missing = suite_ids(
        suites.filter(|suite: VerificationSuiteView| !suite_is_listed(suite, test_names)),
    );
    let failing = suite_ids(
        suites.filter(|suite: VerificationSuiteView| failing_ids.contains(suite.id)),
    );
    PhaseGateReportView {
        target,
        status: gate_status(missing.len(), failing.len()),
        required_suite_ids: suite_ids(suites),
        missing_suite_ids: missing,
        failing_suite_ids: failing,
    }
}

/// The set of the texts of a sequence of string slices.
pub open spec fn id_set(ids: Seq<&str>) -> Set<Seq<char>> {
    str_texts(ids).to_set()
}

/// The marker that closes the line of a test in a test listing.
pub open spec fn test_line_marker() -> Seq<char> {
    ": test"@
}

/// The test that a line of a test listing names, if it names one: what
/// stands before the closing marker, without the white space around it,
/// unless nothing is left.
pub open spec fn listed_test_name(line: Seq<char>) -> Option<Seq<char>> {
    if test_line_marker().is_suffix_of(line) {
        let name = trim_text(line.take(line.len() - test_line_marker().len()));
        if name.len() > 0 {
            Some(name)
        } else {
            None
        }
    } else {
        None
    }
}

/// The tests that the first `count` lines of a test listing name, in order.
pub open spec fn listed_test_names(listing_lines: Seq<Seq<char>>, count: int) -> Seq<Seq<char>>
    decreases count,
{
    if count <= 0 {
        Seq::empty()
    } else {
        let earlier = listed_test_names(listing_lines, count - 1);
        match listed_test_name(listing_lines[count - 1]) {
            Some(name) => earlier.push(name),
            None => earlier,
        }
    }
}

/// Reads the names of the available tests from a test listing, in which
/// each test stands on a line of its own that ends in `: test`.
pub fn parse_test_listing(listing: &str) -> (names: Vec<String>)
    ensures
        string_texts(names@) == listed_test_names(
            lines_of(listing@),
            lines_of(listing@).len() as int,
        ),
{
    let listing_chars = chars_of(listing);
    let listing_lines = lines(listing_chars.as_slice());
    let ghost texts = lines_of(listing@);
    let mut names: Vec<String> = Vec::new();
    for index in 0..listing_lines.len()
        invariant
            texts == lines_of(listing@),
            line_texts(listing_lines@) == texts,
            string_texts(names@) == listed_test_names(texts, index as int),
    {
        let ghost earlier = string_texts(names@);
        let line: &[char] = listing_lines[index];
        assert(texts[index as int] == line@);
        match suffix_start(line, ": test") {
            Some(end) => {
                let name = trim(slice_subrange(line, 0, end));
                assert(line@.subrange(0, end as int) =~= line@.take(
                    line@.len() - test_line_marker().len(),
                ));
                if name.len() > 0 {
                    names.push(text_of(name));
                    assert(string_texts(names@) =~= earlier.push(name@));
                }
            },
            None => {},
        }
    }
    names
}

/// Parses a raw phase-gate label into a typed target. White space around
/// the label is ignored.
pub fn parse_phase_gate_target(raw_target: &str) -> (target: Option<PhaseGateTarget>)
    ensures
        target == target_of_label(trim_text(raw_target@)),
{
    let raw = chars_of(raw_target);
    let label = trim(raw.as_slice());
    if matches_text(label, "phase0") || matches_text(label, "0") {
        Some(PhaseGateTarget::Phase0)
    } else if matches_text(label, "phase1") || matches_text(label, "1") {
        Some(PhaseGateTarget::Phase1)
    } else if matches_text(label, "phase2") || matches_text(label, "2") {
        Some(PhaseGateTarget::Phase2)
    } else if matches_text(label, "phase3") || matches_text(label, "3") {
        Some(PhaseGateTarget::Phase3)
    } else if matches_text(label, "phase4") || matches_text(label, "4") {
        Some(PhaseGateTarget::Phase4)
    } else if matches_text(label, "phase5") || matches_text(label, "5") {
        Some(PhaseGateTarget::Phase5)
    } else if matches_text(label, "completion") || matches_text(label, "roadmap-completion") {
        Some(PhaseGateTarget::Completion)
    } else {
        None
    }
}

/// Returns the ordered verification suites mandated for the given target.
pub fn required_suites_for_target(target: PhaseGateTarget) -> (suites: Vec<VerificationSuite>)
    ensures
        suite_views(suites@) == required_suites(target),
{
    let suites = match target {
        PhaseGateTarget::Phase0 => Vec::new(),
        PhaseGateTarget::Phase1 => vec![
            VerificationSuite {
                id: "policy-schema-contract",
                subsystem: "policy schema loader",
                test_filter: "policy_schema_bdd::",
            },
            VerificationSuite {
                id: "llm-sink-enforcement",
                subsystem: "LLM sink enforcement",
                test_filter: "llm_sink_enforcement::",
            },
            VerificationSuite {
                id: "authority-lifecycle",
                subsystem: "authority lifecycle",
                test_filter: "authority_lifecycle_bdd::",
            },
            VerificationSuite {
                id: "localization-contract",
                subsystem: "localization contract",
                test_filter: "localization_contract::",
            },
        ],
        PhaseGateTarget::Phase2 => vec![
            VerificationSuite {
                id: "container-mutation-fail-closed",
                subsystem: "mutable-container soundness",
                test_filter: "container_mutation_fail_closed::",
            },
            VerificationSuite {
                id: "aliasing-fail-closed",
                subsystem: "aliasing soundness",
                test_filter: "aliasing_fail_closed::",
            },
            VerificationSuite {
                id: "budget-overflow-fail-closed",
                subsystem: "provenance budget overflow",
                test_filter: "budget_overflow_fail_closed::",
            },
        ],
        PhaseGateTarget::Phase3 => vec![
            VerificationSuite {
                id: "tool-catalogue-pinning",
                subsystem: "tool catalogue boundary",
                test_filter: "tool_catalogue_pinning::",
            },
            VerificationSuite {
                id: "mcp-trust-class",
                subsystem: "MCP trust-class boundary",
                test_filter: "mcp_trust_class::",
            },
        ],
        PhaseGateTarget::Phase4 => vec![
            VerificationSuite {
                id: "llm-sink-privacy-boundary-integration",
                subsystem: "LLM sink privacy boundary integration",
                test_filter: "llm_sink_privacy_boundary::",
            },
        ],
        PhaseGateTarget::Phase5 => vec![
            VerificationSuite {
                id: "audit-confidentiality",
                subsystem: "audit confidentiality",
                test_filter: "audit_confidentiality::",
            },
            VerificationSuite {
                id: "audit-tamper-evidence",
                subsystem: "audit tamper evidence",
                test_filter: "audit_tamper_evidence::",
            },
        ],
        PhaseGateTarget::Completion => vec![
            VerificationSuite {
                id: "localization-fallback-ordering",
                subsystem: "localization fallback ordering",
                test_filter: "localization_fallback_ordering::",
            },
            VerificationSuite {
                id: "localization-no-global-state",
                subsystem: "localization no-global-state contract",
                test_filter: "localization_no_global_state::",
            },
        ],
    };
    assert(suite_views(suites@) =~= required_suites(target));
    suites
}

/// Resolves a suite by its stable identifier.
pub fn suite_by_id(suite_id: &str) -> (found: Option<VerificationSuite>)
    ensures
        match found {
            Some(suite) => first_with_id(suite_catalogue(), suite_id@) == Some(suite@),
            None => first_with_id(suite_catalogue(), suite_id@) is None,
        },
{
    let mut catalogue = required_suites_for_target(PhaseGateTarget::Phase0);
    let mut phase1 = required_suites_for_target(PhaseGateTarget::Phase1);
    let mut phase2 = required_suites_for_target(PhaseGateTarget::Phase2);
    let mut phase3 = required_suites_for_target(PhaseGateTarget::Phase3);
    let mut phase4 = required_suites_for_target(PhaseGateTarget::Phase4);
    let mut phase5 = required_suites_for_target(PhaseGateTarget::Phase5);
    let mut completion = required_suites_for_target(PhaseGateTarget::Completion);
    catalogue.append(&mut phase1);
    catalogue.append(&mut phase2);
    catalogue.append(&mut phase3);
    catalogue.append(&mut phase4);
    catalogue.append(&mut phase5);
    catalogue.append(&mut completion);
    assert(suite_views(catalogue@) =~= suite_catalogue());

    let wanted = chars_of(suite_id);
    assert(suite_views(catalogue@).skip(0) =~= suite_views(catalogue@));
    for i in 0..catalogue.len()
        invariant
            wanted@ == suite_id@,
            suite_views(catalogue@) == suite_catalogue(),
            first_with_id(suite_catalogue(), suite_id@) == first_with_id(
                suite_views(catalogue@).skip(i as int),
                suite_id@,
            ),
    {
        let ghost rest = suite_views(catalogue@).skip(i as int);
        assert(rest.first() == catalogue@[i as int]@);
        assert(rest.drop_first() =~= suite_views(catalogue@).skip(i + 1));
        if matches_text(wanted.as_slice(), catalogue[i].id) {
            return Some(catalogue[i]);
        }
    }
    None
}

/// Evaluates whether a phase target passes, is missing suites, or has failures.
pub fn evaluate_phase_gate(
    target: PhaseGateTarget,
    available_test_names: &[String],
    failing_suite_ids: &[&str],
) -> (report: PhaseGateReport)
    ensures
        report@ == phase_gate_report(
            target,
            string_texts(available_test_names@),
            id_set(failing_suite_ids@),
        ),
{
    let suites = required_suites_for_target(target);
    let ghost names = string_texts(available_test_names@);
    let ghost failed = id_set(failing_suite_ids@);
    let ghost is_missing = |suite: VerificationSuiteView| !suite_is_listed(suite, names);
    let ghost is_failing = |suite: VerificationSuiteView| failed.contains(suite.id);

    let mut listed_names: Vec<Vec<char>> = Vec::with_capacity(available_test_names.len());
    for i in 0..available_test_names.len()
        invariant
            listed_names.len() == i,
            forall|k: int|
                0 <= k < i ==> (#[trigger] listed_names@[k])@ == available_test_names@[k]@,
    {
        listed_names.push(chars_of(available_test_names[i].as_str()));
    }

    let mut required_suite_ids: Vec<&'static str> = Vec::with_capacity(suites.len());
    let mut missing_suite_ids: Vec<&'static str> = Vec::new();
    let mut failing_suite_ids_of_target: Vec<&'static str> = Vec::new();
    proof {
        reveal(Seq::filter);
        assert(suite_views(suites@).take(0) =~= Seq::<VerificationSuiteView>::empty());
    }
    for i in 0..suites.len()
        invariant
            names == string_texts(available_test_names@),
            failed == id_set(failing_suite_ids@),
            is_missing == |suite: VerificationSuiteView| !suite_is_listed(suite, names),
            is_failing == |suite: VerificationSuiteView| failed.contains(suite.id),
            suite_views(suites@) == required_suites(target),
            listed_names.len() == available_test_names.len(),
            forall|k: int|
                0 <= k < listed_names.len() ==> (#[trigger] listed_names@[k])@
                    == available_test_names@[k]@,
            str_texts(required_suite_ids@) == suite_ids(suite_views(suites@).take(i as int)),
            str_texts(missing_suite_ids@) == suite_ids(
                suite_views(suites@).take(i as int).filter(is_missing),
            ),
            str_texts(failing_suite_ids_of_target@) == suite_ids(
                suite_views(suites@).take(i as int).filter(is_failing),
            ),
    {
        let suite = suites[i];
        let ghost seen = suite_views(suites@).take(i as int);
        let ghost required_before = str_texts(required_suite_ids@);
        let ghost missing_before = str_texts(missing_suite_ids@);
        let ghost failing_before = str_texts(failing_suite_ids_of_target@);
        proof {
            reveal(Seq::filter);
            let next = suite_views(suites@).take(i + 1);
            assert(next =~= seen.push(suite@));
            assert(next.drop_last() =~= seen);
            assert(suite_ids(next) =~= suite_ids(seen).push(suite@.id));
            if is_missing(suite@) {
                assert(suite_ids(next.filter(is_missing)) =~= suite_ids(
                    seen.filter(is_missing),
                ).push(suite@.id));
            }
            if is_failing(suite@) {
                assert(suite_ids(next.filter(is_failing)) =~= suite_ids(
                    seen.filter(is_failing),
                ).push(suite@.id));
            }
        }
        required_suite_ids.push(suite.id);
        assert(str_texts(required_suite_ids@) =~= required_before.push(suite@.id));
        if !is_listed(&suite, &listed_names, Ghost(names)) {
            missing_suite_ids.push(suite.id);
            assert(str_texts(missing_suite_ids@) =~= missing_before.push(suite@.id));
        }
        if holds_id(failing_suite_ids, suite.id) {
            failing_suite_ids_of_target.push(suite.id);
            assert(str_texts(failing_suite_ids_of_target@) =~= failing_before.push(suite@.id));
        }
    }
    assert(suite_views(suites@).take(suites.len() as int) =~= suite_views(suites@));
    let status = compute_phase_gate_status(&missing_suite_ids, &failing_suite_ids_of_target);
    PhaseGateReport {
        target,
        status,
        required_suite_ids,
        missing_suite_ids,
        failing_suite_ids: failing_suite_ids_of_target,
    }
}

/// Whether one of the listed test names holds the filter of `suite`.
fn is_listed(suite: &VerificationSuite, listed_names: &Vec<Vec<char>>, Ghost(names): Ghost<
    Seq<Seq<char>>,
>) -> (listed: bool)
    requires
        names.len() == listed_names.len(),
        forall|k: int| 0 <= k < listed_names.len() ==> (#[trigger] listed_names@[k])@ == names[k],
    ensures
        listed == suite_is_listed(suite@, names),
{
    let test_filter = chars_of(suite.test_filter);
    for i in 0..listed_names.len()
        invariant
            test_filter@ == suite@.test_filter,
            names.len() == listed_names.len(),
            forall|k: int|
                0 <= k < listed_names.len() ==> (#[trigger] listed_names@[k])@ == names[k],
            forall|k: int| 0 <= k < i ==> !contains_text(#[trigger] names[k], suite@.test_filter),
    {
        if contains(listed_names[i].as_slice(), test_filter.as_slice()) {
            assert(contains_text(names[i as int], suite@.test_filter));
            return true;
        }
    }
    false
}

/// Whether `id` is one of `ids`.
fn holds_id(ids: &[&str], id: &str) -> (found: bool)
    ensures
        found == id_set(ids@).contains(id@),
{
    let wanted = chars_of(id);
    let ghost texts = str_texts(ids@);
    for i in 0..ids.len()
        invariant
            wanted@ == id@,
            texts == str_texts(ids@),
            forall|k: int| 0 <= k < i ==> #[trigger] texts[k] != id@,
    {
        assert(texts[i as int] == ids@[i as int]@);
        if matches_text(wanted.as_slice(), ids[i]) {
            assert(texts.contains(id@));
            return true;
        }
    }
    false
}

/// The status of a gate from its missing and its failing suites.
fn compute_phase_gate_status(
    missing_suite_ids: &Vec<&'static str>,
    failing_suite_ids: &Vec<&'static str>,
) -> (status: PhaseGateStatus)
    ensures
        status == gate_status(missing_suite_ids@.len(), failing_suite_ids@.len()),
{
    if missing_suite_ids.len() > 0 {
        PhaseGateStatus::MissingSuites
    } else if failing_suite_ids.len() > 0 {
        PhaseGateStatus::FailingSuites
    } else {
        PhaseGateStatus::Passed
    }
}

} // verus!
