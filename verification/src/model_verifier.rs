//! Startup model verification.
//!
//! Runs at every startup: the files required for the configured
//! embedding model must be present and non-empty. No hashing happens
//! here; that is reserved for an explicit "Validate" action. The caller
//! stats each required file and hands over what it saw; this module
//! decides the outcome.
//!
//! The two required files inside the model directory:
//! - `onnx/model.onnx`: the weights
//! - `tokenizer.json`: the tokenizer configuration
use vstd::prelude::*;
use crate::models;
use crate::text;
use crate::text::{chars_of, is_blank, join_vecs, lit, push_all, string_of};

verus! {

/// The files that must be present in the model directory, in checking
/// order.
pub open spec fn required_files() -> Seq<Seq<char>> {
    seq!["onnx/model.onnx"@, "tokenizer.json"@]
}

/// The files that must be present in the model directory.
pub fn required_model_files() -> (r: Vec<&'static str>)
    ensures
        r@.len() == 2,
        r@[0]@ == required_files()[0],
        r@[1]@ == required_files()[1],
{
    let mut r: Vec<&'static str> = Vec::new();
    r.push("onnx/model.onnx");
    r.push("tokenizer.json");
    r
}

/// Reason a required model file failed verification.
#[derive(Debug, Clone, Copy, PartialEq, Eq, Structural)]
pub enum FileIssueKind {
    NotFound,
    Empty,
    PermissionDenied,
}

impl FileIssueKind {
    /// The human-readable reason.
    pub open spec fn text(self) -> Seq<char> {
        match self {
            FileIssueKind::NotFound => "not found"@,
            FileIssueKind::Empty => "empty file (0 bytes)"@,
            FileIssueKind::PermissionDenied => "permission denied"@,
        }
    }

    pub fn as_str(&self) -> (s: &'static str)
        ensures
            s@ == self.text(),
    {
        match self {
            FileIssueKind::NotFound => "not found",
            FileIssueKind::Empty => "empty file (0 bytes)",
            FileIssueKind::PermissionDenied => "permission denied",
        }
    }
}

/// A single file that failed the verification check.
#[derive(Debug, Clone, PartialEq)]
pub struct FileIssue {
    /// Relative path within the model directory (e.g. `onnx/model.onnx`).
    pub relative_path: String,
    /// Why it failed.
    pub reason: FileIssueKind,
}

/// Outcome of a startup model verification check.
#[derive(Debug, Clone, PartialEq)]
pub enum VerifyOutcome {
    /// Both required files exist and are non-empty.
    Ready,
    /// No model directory has been configured: show the setup wizard.
    NotConfigured,
    /// The directory was configured but required files are absent or
    /// empty.
    FilesInvalid { model_dir: String, issues: Vec<FileIssue> },
}

/// An outcome with its texts as sequences.
pub enum OutcomeView {
    Ready,
    NotConfigured,
    FilesInvalid { model_dir: Seq<char>, issues: Seq<(Seq<char>, FileIssueKind)> },
}

/// The view of a list of issues: (relative path, reason) pairs.
pub open spec fn issue_views(issues: Seq<FileIssue>) -> Seq<(Seq<char>, FileIssueKind)> {
    issues.map_values(|i: FileIssue| (i.relative_path@, i.reason))
}

impl View for VerifyOutcome {
    type V = OutcomeView;

    open spec fn view(&self) -> OutcomeView {
        match self {
            VerifyOutcome::Ready => OutcomeView::Ready,
            VerifyOutcome::NotConfigured => OutcomeView::NotConfigured,
            VerifyOutcome::FilesInvalid { model_dir, issues } => OutcomeView::FilesInvalid {
                model_dir: model_dir@,
                issues: issue_views(issues@),
            },
        }
    }
}

/// What a metadata lookup of one required file reported.
#[derive(Debug, Clone, Copy, PartialEq, Eq, Structural)]
pub enum FileProbe {
    /// The file exists with this length in bytes.
    Found { len: u64 },
    /// The lookup was refused for lack of permission.
    PermissionDenied,
    /// Any other failure (most often: no such file).
    Unavailable,
}

/// The issue a probe reveals, if any.
pub open spec fn probe_issue(p: FileProbe) -> Option<FileIssueKind> {
    match p {
        FileProbe::Found { len } => if len == 0 {
            Some(FileIssueKind::Empty)
        } else {
            None
        },
        FileProbe::PermissionDenied => Some(FileIssueKind::PermissionDenied),
        FileProbe::Unavailable => Some(FileIssueKind::NotFound),
    }
}

/// The issues of the required files whose probes reveal one, in order.
pub open spec fn issues_from(files: Seq<Seq<char>>, probes: Seq<FileProbe>) -> Seq<
    (Seq<char>, FileIssueKind),
>
    decreases probes.len(),
{
    if probes.len() == 0 {
        Seq::empty()
    } else {
        let rest = issues_from(files, probes.drop_last());
        match probe_issue(probes.last()) {
            Some(k) => rest.push((files[probes.len() - 1], k)),
            None => rest,
        }
    }
}

/// A directory setting counts as configured unless it is absent or
/// blank.
pub open spec fn is_configured(model_dir: Option<Seq<char>>) -> bool {
    match model_dir {
        Some(d) => !text::all_ws(d),
        None => false,
    }
}

/// The outcome for a configured directory whose required files probed
/// as `probes`.
pub open spec fn outcome_for(model_dir: Seq<char>, probes: Seq<FileProbe>) -> OutcomeView {
    let issues = issues_from(required_files(), probes);
    if issues.len() == 0 {
        OutcomeView::Ready
    } else {
        OutcomeView::FilesInvalid { model_dir, issues }
    }
}

/// The configured model directory, or `None` when the setting is absent
/// or blank.
pub fn configured_model_dir(model_dir: Option<&str>) -> (r: Option<&str>)
    ensures
        match model_dir {
            Some(d) => is_configured(Some(d@)),
            None => false,
        } ==> r == model_dir,
        !match model_dir {
            Some(d) => is_configured(Some(d@)),
            None => false,
        } ==> r is None,
{
    match model_dir {
        Some(d) => {
            if is_blank(&chars_of(d)) {
                None
            } else {
                Some(d)
            }
        },
        None => None,
    }
}

/// Decide the verification outcome for a configured model directory
/// from what the metadata lookups of the required files reported (one
/// probe per file of [`required_model_files`], in that order): a file is
/// an issue when it is empty, unreadable for lack of permission, or not
/// found.
pub fn classify_model_files(model_dir: &str, probes: &Vec<FileProbe>) -> (r: VerifyOutcome)
    requires
        probes@.len() == 2,
    ensures
        r@ == outcome_for(model_dir@, probes@),
{
    let files = required_model_files();
    let mut issues: Vec<FileIssue> = Vec::new();
    let mut i: usize = 0;
    while i < 2
        invariant
            probes@.len() == 2,
            files@.len() == 2,
            forall|k: int| 0 <= k < 2 ==> (#[trigger] files@[k])@ == required_files()[k],
            i <= 2,
            issue_views(issues@) == issues_from(required_files(), probes@.take(i as int)),
        decreases 2 - i,
    {
        let ghost before = issue_views(issues@);
        assert(probes@.take(i + 1).drop_last() =~= probes@.take(i as int));
        let kind = match probes[i] {
            FileProbe::Found { len } => if len == 0 {
                Some(FileIssueKind::Empty)
            } else {
                None
            },
            FileProbe::PermissionDenied => Some(FileIssueKind::PermissionDenied),
            FileProbe::Unavailable => Some(FileIssueKind::NotFound),
        };
        match kind {
            Some(k) => {
                issues.push(FileIssue { relative_path: files[i].to_owned(), reason: k });
                assert(issue_views(issues@) =~= before.push((files@[i as int]@, k)));
            },
            None => {
                assert(issue_views(issues@) =~= before);
            },
        }
        i += 1;
    }
    assert(probes@.take(2) =~= probes@);
    if issues.len() == 0 {
        VerifyOutcome::Ready
    } else {
        VerifyOutcome::FilesInvalid { model_dir: model_dir.to_owned(), issues }
    }
}

/// The reasons of a list of issues, in order.
pub open spec fn reasons(issues: Seq<(Seq<char>, FileIssueKind)>) -> Seq<Seq<char>> {
    issues.map_values(|i: (Seq<char>, FileIssueKind)| i.1.text())
}

/// The log summary of an outcome.
pub open spec fn summary_text(o: OutcomeView) -> Seq<char> {
    match o {
        OutcomeView::Ready => "embedding model OK"@,
        OutcomeView::NotConfigured => "embedding model not configured"@,
        OutcomeView::FilesInvalid { issues, .. } => "embedding model invalid: "@ + text::join(
            reasons(issues),
            ", "@,
        ),
    }
}

/// A brief log-friendly summary of a verification outcome: the status
/// and, for invalid files, their reasons joined by `", "`. It never
/// includes paths or file contents.
pub fn verify_outcome_summary(outcome: &VerifyOutcome) -> (s: String)
    ensures
        s@ == summary_text(outcome@),
{
    match outcome {
        VerifyOutcome::Ready => "embedding model OK".to_owned(),
        VerifyOutcome::NotConfigured => "embedding model not configured".to_owned(),
        VerifyOutcome::FilesInvalid { issues, .. } => {
            let mut problems: Vec<Vec<char>> = Vec::new();
            let mut i: usize = 0;
            while i < issues.len()
                invariant
                    i <= issues.len(),
                    text::views(problems@) =~= reasons(issue_views(issues@)).take(i as int),
                decreases issues.len() - i,
            {
                let ghost before = text::views(problems@);
                problems.push(chars_of(issues[i].reason.as_str()));
                assert(text::views(problems@) =~= before.push(issues@[i as int].reason.text()));
                i += 1;
            }
            assert(reasons(issue_views(issues@)).take(issues.len() as int) =~= reasons(
                issue_views(issues@),
            ));
            let mut out = lit("embedding model invalid: ");
            let joined = join_vecs(&problems, &lit(", "));
            push_all(&mut out, &joined);
            string_of(&out)
        },
    }
}

/// Summaries are log-safe: the summary of an invalid-files outcome is
/// determined by the issues' reasons alone, never by the model directory
/// or the files' paths.
pub proof fn law_summary_ignores_paths(
    dir_a: Seq<char>,
    issues_a: Seq<(Seq<char>, FileIssueKind)>,
    dir_b: Seq<char>,
    issues_b: Seq<(Seq<char>, FileIssueKind)>,
)
    requires
        issues_a.len() == issues_b.len(),
        forall|k: int| 0 <= k < issues_a.len() ==> (#[trigger] issues_a[k]).1 == issues_b[k].1,
    ensures
        summary_text(OutcomeView::FilesInvalid { model_dir: dir_a, issues: issues_a })
            == summary_text(OutcomeView::FilesInvalid { model_dir: dir_b, issues: issues_b }),
{
    assert(reasons(issues_a) =~= reasons(issues_b));
}

/// A configured directory is ready exactly when no required file is
/// missing, empty or unreadable.
pub proof fn law_ready_iff_no_issue(model_dir: Seq<char>, probes: Seq<FileProbe>)
    requires
        probes.len() == 2,
    ensures
        (outcome_for(model_dir, probes) is Ready) <==> (probe_issue(probes[0]) is None
            && probe_issue(probes[1]) is None),
{
    reveal_with_fuel(issues_from, 3);
    assert(probes.drop_last().drop_last().len() == 0);
    assert(probes.drop_last().last() == probes[0]);
}

/// The recommended model download installs exactly the files startup
/// verification requires.
pub proof fn law_recommended_download_satisfies_verification()
    ensures
        forall|f: Seq<char>| required_files().contains(f) <==> models::recommended_destinations().contains(f),
{
    assert forall|f: Seq<char>| required_files().contains(f) implies models::recommended_destinations().contains(f) by {
        let k = choose|k: int| 0 <= k < required_files().len() && required_files()[k] == f;
        if k == 0 {
            assert(models::recommended_destinations()[1] == f);
        } else {
            assert(models::recommended_destinations()[0] == f);
        }
    }
    assert forall|f: Seq<char>| models::recommended_destinations().contains(f) implies required_files().contains(f) by {
        let k = choose|k: int| 0 <= k < models::recommended_destinations().len() && models::recommended_destinations()[k] == f;
        if k == 0 {
            assert(required_files()[1] == f);
        } else {
            assert(required_files()[0] == f);
        }
    }
}

} // verus!
