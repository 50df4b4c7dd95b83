//! Contracts for enforcing `full-monty` fork genericity rules.
//!
//! This module encodes the non-generic semantic guardrails so that CI can
//! fail closed when a patch adds project semantics to the fork's API surface.

use vstd::prelude::*;
use vstd::slice::slice_subrange;

use crate::text::{
    chars_of, contains, contains_text, line_texts, lines, lines_of, lowercase_text, lowercased,
    matches_text, prefix_len, starts_with, str_texts, text_of, trim_start, trim_start_text,
};

verus! {

/// Allowed high-level change categories for the `full-monty` fork.
#[derive(Clone, Copy, Debug, PartialEq, Eq, Structural)]
pub enum MontyForkChangeCategory {
    /// Stable, host-only runtime IDs.
    StableRuntimeIds,
    /// Generic observer/event hook substrate.
    GenericObserverHooks,
    /// Generic snapshot-extension seam owned by the embedder.
    GenericSnapshotExtension,
    /// Narrow refactors required to enable approved categories.
    EnablingRefactor,
}

/// Machine-readable violation identifiers from fork policy checks.
#[derive(Clone, Copy, Debug, PartialEq, Eq, Structural)]
pub enum MontyForkViolationCode {
    /// Added API surface line includes forbidden semantics.
    ForbiddenSemanticTokenInApi,
}

/// One policy violation emitted by the fork guardrails.
#[derive(Clone, Debug, PartialEq, Eq)]
pub struct MontyForkViolation {
    /// Stable violation code.
    pub code: MontyForkViolationCode,
    /// File path extracted from the patch where the violation was detected.
    pub path: String,
    /// 1-based patch line index for diagnostics.
    pub line_number: usize,
    /// Line content that triggered the violation.
    pub line: String,
    /// Lower-case forbidden token that matched.
    pub matched_token: &'static str,
}

/// Mathematical model of a [`MontyForkViolation`].
pub ghost struct MontyForkViolationView {
    pub code: MontyForkViolationCode,
    pub path: Seq<char>,
    pub line_number: nat,
    pub line: Seq<char>,
    pub matched_token: Seq<char>,
}

impl View for MontyForkViolation {
    type V = MontyForkViolationView;

    open spec fn view(&self) -> MontyForkViolationView {
        MontyForkViolationView {
            code: self.code,
            path: self.path@,
            line_number: self.line_number as nat,
            line: self.line@,
            matched_token: self.matched_token@,
        }
    }
}

/// The models of a sequence of violations, in order.
pub open spec fn violation_views(violations: Seq<MontyForkViolation>) -> Seq<
    MontyForkViolationView,
> {
    violations.map_values(|violation: MontyForkViolation| violation@)
}

/// The path reported for a line that no file header precedes.
pub open spec fn unknown_path() -> Seq<char> {
    "<unknown>"@
}

/// The marker that opens the header line of a patched file.
pub open spec fn file_header_marker() -> Seq<char> {
    "+++ b/"@
}

/// Whether `line` declares API surface: after its leading white space it
/// opens a public item, a trait or a documentation comment.
pub open spec fn is_api_surface_text(line: Seq<char>) -> bool {
    let trimmed = trim_start_text(line);
    ||| "pub "@.is_prefix_of(trimmed)
    ||| "pub("@.is_prefix_of(trimmed)
    ||| "trait "@.is_prefix_of(trimmed)
    ||| "pub trait "@.is_prefix_of(trimmed)
    ||| "///"@.is_prefix_of(trimmed)
}

/// The first forbidden token that `line` holds, whatever the case of its
/// letters. The tokens are tried in the order `zamburak`, `taint`, `policy`,
/// `capabilit`.
pub open spec fn forbidden_token_in(line: Seq<char>) -> Option<Seq<char>> {
    let lowered = lowercase_text(line);
    if contains_text(lowered, "zamburak"@) {
        Some("zamburak"@)
    } else if contains_text(lowered, "taint"@) {
        Some("taint"@)
    } else if contains_text(lowered, "policy"@) {
        Some("policy"@)
    } else if contains_text(lowered, "capabilit"@) {
        Some("capabilit"@)
    } else {
        None
    }
}

/// The violation, if any, of the added line `added_line` of the file `path`,
/// found at line `line_number`: an API surface line that holds a forbidden
/// token.
pub open spec fn added_line_violation(
    path: Seq<char>,
    line_number: nat,
    added_line: Seq<char>,
) -> Option<MontyForkViolationView> {
    if !is_api_surface_text(added_line) {
        None
    } else {
        match forbidden_token_in(added_line) {
            Some(matched_token) => Some(
                MontyForkViolationView {
                    code: MontyForkViolationCode::ForbiddenSemanticTokenInApi,
                    path,
                    line_number,
                    line: added_line,
                    matched_token,
                },
            ),
            None => None,
        }
    }
}

/// The violations of the first `count` of `added_lines`, in order.
pub open spec fn added_lines_violations(added_lines: Seq<Seq<char>>, count: int) -> Seq<
    MontyForkViolationView,
>
    decreases count,
{
    if count <= 0 {
        Seq::empty()
    } else {
        let earlier = added_lines_violations(added_lines, count - 1);
        match added_line_violation(unknown_path(), count as nat, added_lines[count - 1]) {
            Some(violation) => earlier.push(violation),
            None => earlier,
        }
    }
}

/// Whether `line` is the header line of a patched file.
pub open spec fn is_file_header(line: Seq<char>) -> bool {
    file_header_marker().is_prefix_of(line)
}

/// The path of the file that the line at `index` of a patch belongs to: the
/// one that the nearest file header above it names, or the unknown path.
pub open spec fn path_at(patch_lines: Seq<Seq<char>>, index: int) -> Seq<char>
    decreases index,
{
    if index <= 0 {
        unknown_path()
    } else if is_file_header(patch_lines[index - 1]) {
        patch_lines[index - 1].skip(file_header_marker().len() as int)
    } else {
        path_at(patch_lines, index - 1)
    }
}

/// The violation, if any, of the line at `index` of a patch. Only an added
/// line can violate: one that opens with `+`, but not with `+++`.
pub open spec fn patch_line_violation(patch_lines: Seq<Seq<char>>, index: int) -> Option<
    MontyForkViolationView,
> {
    let line = patch_lines[index];
    if is_file_header(line) {
        None
    } else if line.len() > 0 && line.first() == '+' && !"+++"@.is_prefix_of(line) {
        added_line_violation(path_at(patch_lines, index), (index + 1) as nat, line.skip(1))
    } else {
        None
    }
}

/// The violations of the first `count` lines of a patch, in order.
pub open spec fn patch_violations(patch_lines: Seq<Seq<char>>, count: int) -> Seq<
    MontyForkViolationView,
>
    decreases count,
{
    if count <= 0 {
        Seq::empty()
    } else {
        let earlier = patch_violations(patch_lines, count - 1);
        match patch_line_violation(patch_lines, count - 1) {
            Some(violation) => earlier.push(violation),
            None => earlier,
        }
    }
}

/// Returns all allowed fork categories in deterministic order.
pub fn allowed_change_categories() -> (categories: [MontyForkChangeCategory; 4])
    ensures
        categories@ == seq![
            MontyForkChangeCategory::StableRuntimeIds,
            MontyForkChangeCategory::GenericObserverHooks,
            MontyForkChangeCategory::GenericSnapshotExtension,
            MontyForkChangeCategory::EnablingRefactor,
        ],
{
    let categories = [
        MontyForkChangeCategory::StableRuntimeIds,
        MontyForkChangeCategory::GenericObserverHooks,
        MontyForkChangeCategory::GenericSnapshotExtension,
        MontyForkChangeCategory::EnablingRefactor,
    ];
    assert(categories@ =~= seq![
        MontyForkChangeCategory::StableRuntimeIds,
        MontyForkChangeCategory::GenericObserverHooks,
        MontyForkChangeCategory::GenericSnapshotExtension,
        MontyForkChangeCategory::EnablingRefactor,
    ]);
    categories
}

/// Evaluates added lines and returns non-generic API-surface violations.
///
/// For focused checks where only added source lines are at hand: the lines
/// are numbered from one and reported under the unknown path.
pub fn evaluate_added_lines(added_lines: &[&str]) -> (violations: Vec<MontyForkViolation>)
    ensures
        violation_views(violations@) == added_lines_violations(
            str_texts(added_lines@),
            added_lines@.len() as int,
        ),
{
    let unknown = chars_of("<unknown>");
    let mut violations: Vec<MontyForkViolation> = Vec::new();
    for index in 0..added_lines.len()
        invariant
            unknown@ == unknown_path(),
            violation_views(violations@) == added_lines_violations(
                str_texts(added_lines@),
                index as int,
            ),
    {
        let ghost earlier = violation_views(violations@);
        let added_line = chars_of(added_lines[index]);
        assert(str_texts(added_lines@)[index as int] == added_line@);
        match violation_for_added_line(unknown.as_slice(), index + 1, added_line.as_slice()) {
            Some(violation) => {
                violations.push(violation);
                assert(violation_views(violations@) =~= earlier.push(violation@));
            },
            None => {},
        }
    }
    violations
}

/// Evaluates unified patch text for non-generic API-surface additions.
///
/// The check is fail-closed and case-insensitive for the forbidden terms.
/// Each violation carries the path that the nearest file header above it
/// names and the number of its line in the patch, counted from one.
pub fn evaluate_patch_text(patch_text: &str) -> (violations: Vec<MontyForkViolation>)
    ensures
        violation_views(violations@) == patch_violations(
            lines_of(patch_text@),
            lines_of(patch_text@).len() as int,
        ),
{
    let patch_chars = chars_of(patch_text);
    let patch_lines = lines(patch_chars.as_slice());
    let unknown = chars_of("<unknown>");
    let ghost texts = lines_of(patch_text@);
    let mut current_path: &[char] = unknown.as_slice();
    let mut violations: Vec<MontyForkViolation> = Vec::new();
    for index in 0..patch_lines.len()
        invariant
            texts == lines_of(patch_text@),
            line_texts(patch_lines@) == texts,
            current_path@ == path_at(texts, index as int),
            violation_views(violations@) == patch_violations(texts, index as int),
    {
        let ghost earlier = violation_views(violations@);
        let line: &[char] = patch_lines[index];
        assert(texts[index as int] == line@);
        match prefix_len(line, "+++ b/") {
            Some(marker_len) => {
                current_path = slice_subrange(line, marker_len, line.len());
                assert(current_path@ =~= line@.skip(file_header_marker().len() as int));
            },
            None => {
                if line.len() > 0 && line[0] == '+' && !starts_with(line, "+++") {
                    let added_line = slice_subrange(line, 1, line.len());
                    assert(added_line@ =~= line@.skip(1));
                    match violation_for_added_line(current_path, index + 1, added_line) {
                        Some(violation) => {
                            violations.push(violation);
                            assert(violation_views(violations@) =~= earlier.push(violation@));
                        },
                        None => {},
                    }
                }
            },
        }
    }
    violations
}

/// The violation, if any, of one added line.
fn violation_for_added_line(path: &[char], line_number: usize, added_line: &[char]) -> (found:
    Option<MontyForkViolation>)
    ensures
        match found {
            Some(violation) => added_line_violation(path@, line_number as nat, added_line@)
                == Some(violation@),
            None => added_line_violation(path@, line_number as nat, added_line@) is None,
        },
{
    if !is_api_surface_line(added_line) {
        return None;
    }
    let normalized_line = lowercased(added_line);
    let matched_token: &'static str = if holds_token(&normalized_line, "zamburak") {
        "zamburak"
    } else if holds_token(&normalized_line, "taint") {
        "taint"
    } else if holds_token(&normalized_line, "policy") {
        "policy"
    } else if holds_token(&normalized_line, "capabilit") {
        "capabilit"
    } else {
        return None;
    };
    Some(
        MontyForkViolation {
            code: MontyForkViolationCode::ForbiddenSemanticTokenInApi,
            path: text_of(path),
            line_number,
            line: text_of(added_line),
            matched_token,
        },
    )
}

/// Whether `text` holds `token`.
fn holds_token(text: &Vec<char>, token: &str) -> (found: bool)
    ensures
        found == contains_text(text@, token@),
{
    let token_chars = chars_of(token);
    contains(text.as_slice(), token_chars.as_slice())
}

/// Whether a line declares API surface.
fn is_api_surface_line(line: &[char]) -> (surface: bool)
    ensures
        surface == is_api_surface_text(line@),
{
    let trimmed = trim_start(line);
    starts_with(trimmed, "pub ") || starts_with(trimmed, "pub(") || starts_with(trimmed, "trait ")
        || starts_with(trimmed, "pub trait ") || starts_with(trimmed, "///")
}

/// What to do about a submodule between two revisions of its superproject,
/// by the commit that each revision points the submodule at.
#[derive(Clone, Copy, Debug, PartialEq, Eq, Structural)]
pub enum SubmoduleRangePlan {
    /// The submodule is absent from both revisions, or both point at the
    /// same commit: there is nothing to review.
    NothingToReview,
    /// The two revisions point at different commits: review their difference.
    ReviewDifference,
    /// The submodule is present at one revision only.
    PointerStateChanged,
}

/// The plan for a submodule that the base revision points at `base` and the
/// head revision at `head`.
pub open spec fn submodule_range_plan(base: Option<Seq<char>>, head: Option<Seq<char>>) ->
    SubmoduleRangePlan {
    match (base, head) {
        (Some(base), Some(head)) => if base == head {
            SubmoduleRangePlan::NothingToReview
        } else {
            SubmoduleRangePlan::ReviewDifference
        },
        (None, None) => SubmoduleRangePlan::NothingToReview,
        _ => SubmoduleRangePlan::PointerStateChanged,
    }
}

/// The text of an optional string slice.
pub open spec fn optional_str_text(text: Option<&str>) -> Option<Seq<char>> {
    match text {
        Some(text) => Some(text@),
        None => None,
    }
}

/// Decide what to do about a submodule from the pointers of the base and of
/// the head revision.
pub fn plan_submodule_range(base_pointer: Option<&str>, head_pointer: Option<&str>) -> (plan:
    SubmoduleRangePlan)
    ensures
        plan == submodule_range_plan(
            optional_str_text(base_pointer),
            optional_str_text(head_pointer),
        ),
{
    match (base_pointer, head_pointer) {
        (Some(base), Some(head)) => {
            let base_chars = chars_of(base);
            if matches_text(base_chars.as_slice(), head) {
                SubmoduleRangePlan::NothingToReview
            } else {
                SubmoduleRangePlan::ReviewDifference
            }
        },
        (None, None) => SubmoduleRangePlan::NothingToReview,
        _ => SubmoduleRangePlan::PointerStateChanged,
    }
}

/// Whether what `git rev-parse` printed on failure says that the path is
/// not part of the revision, as against any other failure.
pub open spec fn reports_absent_pointer(stderr: Seq<char>) -> bool {
    contains_text(stderr, "exists on disk, but not in"@) || contains_text(
        stderr,
        "does not exist in"@,
    )
}

/// Tell a submodule that is absent from a revision from a failed lookup.
pub fn pointer_not_present_in_revision(stderr: &str) -> (absent: bool)
    ensures
        absent == reports_absent_pointer(stderr@),
{
    let message = chars_of(stderr);
    holds_token(&message, "exists on disk, but not in") || holds_token(
        &message,
        "does not exist in",
    )
}

} // verus!
