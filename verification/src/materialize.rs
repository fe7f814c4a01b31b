//! Materialization decisions: what happens to the destination after the
//! template contents arrive.
//!
//! The copy itself is a filesystem operation the caller performs; the rules
//! around it are decided and proved here — when the reserved `_gitignore`
//! becomes `.gitignore` and when it is dropped, which postscript variant
//! runs, how its exit status is propagated, and whether an existing
//! destination may be replaced. The destination's root is modelled as a map
//! from file name to contents, so the gitignore rules are stated and proved
//! over every possible directory.
use vstd::prelude::*;

use crate::error::ScaffoldError;

verus! {

/// What to do about the reserved gitignore after the copy.
#[derive(Clone, Copy, Debug, PartialEq, Eq, Structural)]
pub enum GitignoreStep {
    /// `_gitignore` exists and `.gitignore` does not: rename it.
    Promote,
    /// Both exist: remove `_gitignore`; the existing `.gitignore` is never
    /// overwritten.
    Discard,
    /// No `_gitignore` arrived: leave the destination as it is.
    Keep,
}

/// The gitignore rule as a function of which of the two files exist.
pub open spec fn gitignore_step_spec(has_template: bool, has_dotfile: bool) -> GitignoreStep {
    if has_template {
        if has_dotfile {
            GitignoreStep::Discard
        } else {
            GitignoreStep::Promote
        }
    } else {
        GitignoreStep::Keep
    }
}

/// Decide the gitignore step from whether `_gitignore` and `.gitignore`
/// exist at the destination root.
pub fn gitignore_step(has_template: bool, has_dotfile: bool) -> (s: GitignoreStep)
    ensures
        s == gitignore_step_spec(has_template, has_dotfile),
{
    if has_template {
        if has_dotfile {
            GitignoreStep::Discard
        } else {
            GitignoreStep::Promote
        }
    } else {
        GitignoreStep::Keep
    }
}

/// The destination root after the gitignore step, on the model of a root
/// directory as a map from file name to file contents.
pub open spec fn apply_gitignore(files: Map<Seq<char>, Seq<u8>>, s: GitignoreStep) -> Map<
    Seq<char>,
    Seq<u8>,
> {
    match s {
        GitignoreStep::Promote => files.remove("_gitignore"@).insert(
            ".gitignore"@,
            files["_gitignore"@],
        ),
        GitignoreStep::Discard => files.remove("_gitignore"@),
        GitignoreStep::Keep => files,
    }
}

/// Law: a root holding `_gitignore` and no `.gitignore` ends up holding
/// `.gitignore` with the original `_gitignore` contents, no `_gitignore`,
/// and every other file unchanged.
pub proof fn lemma_fresh_gitignore_promoted(files: Map<Seq<char>, Seq<u8>>)
    requires
        files.contains_key("_gitignore"@),
        !files.contains_key(".gitignore"@),
    ensures
        ({
            let out = apply_gitignore(files, gitignore_step_spec(true, false));
            &&& out.contains_key(".gitignore"@)
            &&& out[".gitignore"@] == files["_gitignore"@]
            &&& !out.contains_key("_gitignore"@)
            &&& forall|n: Seq<char>|
                n != "_gitignore"@ && n != ".gitignore"@ ==> ((#[trigger] out.contains_key(n)
                    <==> files.contains_key(n)) && (out.contains_key(n) ==> out[n] == files[n]))
        }),
{
    reveal_strlit("_gitignore");
    reveal_strlit(".gitignore");
    assert("_gitignore"@[0] == '_' && ".gitignore"@[0] == '.');
    assert("_gitignore"@ != ".gitignore"@);
}

/// Law: a root holding both files keeps its `.gitignore` contents exactly
/// — never merged or overwritten — while `_gitignore` is removed, and
/// every other file is unchanged.
pub proof fn lemma_existing_gitignore_kept(files: Map<Seq<char>, Seq<u8>>)
    requires
        files.contains_key("_gitignore"@),
        files.contains_key(".gitignore"@),
    ensures
        ({
            let out = apply_gitignore(files, gitignore_step_spec(true, true));
            &&& out.contains_key(".gitignore"@)
            &&& out[".gitignore"@] == files[".gitignore"@]
            &&& !out.contains_key("_gitignore"@)
            &&& forall|n: Seq<char>|
                n != "_gitignore"@ ==> ((#[trigger] out.contains_key(n)
                    <==> files.contains_key(n)) && (out.contains_key(n) ==> out[n] == files[n]))
        }),
{
    reveal_strlit("_gitignore");
    reveal_strlit(".gitignore");
    assert("_gitignore"@[0] == '_' && ".gitignore"@[0] == '.');
    assert("_gitignore"@ != ".gitignore"@);
}

/// The two reserved postscript variants.
#[derive(Clone, Copy, Debug, PartialEq, Eq, Structural)]
pub enum ScriptKind {
    /// `_postscript_.sh`, run by a shell.
    Shell,
    /// `_postscript_.ps1`, run by a PowerShell host.
    PowerShell,
}

/// The reserved file name of each postscript variant.
pub open spec fn postscript_name_spec(k: ScriptKind) -> Seq<char> {
    match k {
        ScriptKind::Shell => "_postscript_.sh"@,
        ScriptKind::PowerShell => "_postscript_.ps1"@,
    }
}

/// The reserved file name of a postscript variant.
pub fn postscript_file_name(k: ScriptKind) -> (r: &'static str)
    ensures
        r@ == postscript_name_spec(k),
{
    match k {
        ScriptKind::Shell => "_postscript_.sh",
        ScriptKind::PowerShell => "_postscript_.ps1",
    }
}

/// Which postscript runs: the variant whose script exists and whose
/// interpreter the platform offers, the PowerShell variant first.
pub open spec fn postscript_choice_spec(
    has_sh: bool,
    has_ps1: bool,
    shell_available: bool,
    powershell_available: bool,
) -> Option<ScriptKind> {
    if has_ps1 && powershell_available {
        Some(ScriptKind::PowerShell)
    } else if has_sh && shell_available {
        Some(ScriptKind::Shell)
    } else {
        None
    }
}

/// Select the postscript to run, from which scripts exist at the
/// destination root and which interpreters the platform offers.
pub fn postscript_choice(
    has_sh: bool,
    has_ps1: bool,
    shell_available: bool,
    powershell_available: bool,
) -> (r: Option<ScriptKind>)
    ensures
        r == postscript_choice_spec(has_sh, has_ps1, shell_available, powershell_available),
{
    if has_ps1 && powershell_available {
        Some(ScriptKind::PowerShell)
    } else if has_sh && shell_available {
        Some(ScriptKind::Shell)
    } else {
        None
    }
}

/// Turn a postscript's exit status into the pipeline's outcome: zero is
/// success, anything else aborts the whole command with that code.
pub fn postscript_outcome(exit_code: i32) -> (r: Result<(), ScaffoldError>)
    ensures
        exit_code == 0 ==> r == Ok::<(), ScaffoldError>(()),
        exit_code != 0 ==> r == Err::<(), ScaffoldError>(
            ScaffoldError::SubprocessFailure { code: exit_code },
        ),
{
    if exit_code == 0 {
        Ok(())
    } else {
        Err(ScaffoldError::SubprocessFailure { code: exit_code })
    }
}

/// How to treat the destination before materialization.
#[derive(Clone, Copy, Debug, PartialEq, Eq, Structural)]
pub enum DestPrep {
    /// The destination does not exist: materialize into it.
    Proceed,
    /// It exists and the user agreed to replace it: delete it first.
    DeleteThenProceed,
    /// It exists and the user declined: abort without touching it.
    Abort,
}

/// Decide the destination preparation: the materializer never silently
/// overwrites an existing destination.
pub fn dest_prep(dest_exists: bool, confirmed_delete: bool) -> (r: DestPrep)
    ensures
        !dest_exists ==> r == DestPrep::Proceed,
        dest_exists && confirmed_delete ==> r == DestPrep::DeleteThenProceed,
        dest_exists && !confirmed_delete ==> r == DestPrep::Abort,
{
    if !dest_exists {
        DestPrep::Proceed
    } else if confirmed_delete {
        DestPrep::DeleteThenProceed
    } else {
        DestPrep::Abort
    }
}

} // verus!
