//! Startup wizard: the per-file check list shown after a model
//! directory has been validated.
use vstd::prelude::*;
use crate::model_verifier::{
    issue_views, required_files, required_model_files, FileIssue, OutcomeView, VerifyOutcome,
};
use crate::text::{chars_eq, chars_of};

verus! {

/// One required model file as the wizard lists it.
#[derive(Debug, Clone, PartialEq, Eq)]
pub struct WizardFileCheck {
    /// Path within the model directory.
    pub relative_path: String,
    /// The file passed its check.
    pub found: bool,
}

/// Whether the wizard shows `file` as found for a verification outcome.
pub open spec fn file_found(o: OutcomeView, file: Seq<char>) -> bool {
    match o {
        OutcomeView::Ready => true,
        OutcomeView::NotConfigured => false,
        OutcomeView::FilesInvalid { issues, .. } => !(exists|i: int|
            0 <= i < issues.len() && #[trigger] issues[i].0 == file),
    }
}

fn has_issue_for(issues: &Vec<FileIssue>, file: &str) -> (r: bool)
    ensures
        r == exists|i: int|
            0 <= i < issue_views(issues@).len() && #[trigger] issue_views(issues@)[i].0 == file@,
{
    let f = chars_of(file);
    let mut i: usize = 0;
    while i < issues.len()
        invariant
            i <= issues.len(),
            f@ == file@,
            forall|k: int| 0 <= k < i ==> #[trigger] issue_views(issues@)[k].0 != file@,
        decreases issues.len() - i,
    {
        if chars_eq(&chars_of(issues[i].relative_path.as_str()), &f) {
            assert(issue_views(issues@)[i as int].0 == file@);
            return true;
        }
        i += 1;
    }
    false
}

/// The wizard's check list for a verification outcome: one entry per
/// required file, in checking order, found unless the outcome reports an
/// issue for it (nothing counts as found when no directory is
/// configured), and whether every check passed.
pub fn build_wizard_checks(outcome: &VerifyOutcome, _path: &str) -> (r: (
    Vec<WizardFileCheck>,
    bool,
))
    ensures
        r.0@.len() == 2,
        forall|k: int|
            0 <= k < 2 ==> (#[trigger] r.0@[k]).relative_path@ == required_files()[k]
                && r.0@[k].found == file_found(outcome@, required_files()[k]),
        r.1 == (outcome@ is Ready),
{
    let files = required_model_files();
    let mut checks: Vec<WizardFileCheck> = Vec::new();
    let mut i: usize = 0;
    while i < 2
        invariant
            files@.len() == 2,
            forall|k: int| 0 <= k < 2 ==> (#[trigger] files@[k])@ == required_files()[k],
            i <= 2,
            checks@.len() == i,
            forall|k: int|
                0 <= k < i ==> (#[trigger] checks@[k]).relative_path@ == required_files()[k]
                    && checks@[k].found == file_found(outcome@, required_files()[k]),
        decreases 2 - i,
    {
        let rel = files[i];
        let found = match outcome {
            VerifyOutcome::Ready => true,
            VerifyOutcome::FilesInvalid { issues, .. } => {
                let hit = has_issue_for(issues, rel);
                assert(outcome@->issues == issue_views(issues@));
                assert(!hit == file_found(outcome@, rel@));
                !hit
            },
            VerifyOutcome::NotConfigured => false,
        };
        assert(rel@ == required_files()[i as int]);
        assert(found == file_found(outcome@, required_files()[i as int]));
        let c = WizardFileCheck { relative_path: rel.to_owned(), found };
        checks.push(c);
        assert(checks@[i as int] == c);
        i += 1;
    }
    let all_ok = match outcome {
        VerifyOutcome::Ready => true,
        _ => false,
    };
    (checks, all_ok)
}

} // verus!
