use create_x::error::ScaffoldError;
use create_x::materialize::{
    dest_prep, gitignore_step, postscript_choice, postscript_file_name, postscript_outcome,
    DestPrep, GitignoreStep, ScriptKind,
};

#[test]
fn fresh_gitignore_is_promoted() {
    assert_eq!(gitignore_step(true, false), GitignoreStep::Promote);
}

#[test]
fn existing_gitignore_is_never_overwritten() {
    assert_eq!(gitignore_step(true, true), GitignoreStep::Discard);
}

#[test]
fn absent_template_gitignore_changes_nothing() {
    assert_eq!(gitignore_step(false, false), GitignoreStep::Keep);
    assert_eq!(gitignore_step(false, true), GitignoreStep::Keep);
}

#[test]
fn gitignore_rules_on_a_concrete_listing() {
    // A concrete run of the promote rule over an in-memory root listing,
    // following the decided step as the caller would.
    let mut files: Vec<(String, Vec<u8>)> = vec![("_gitignore".to_string(), b"target/".to_vec())];
    let has_template = files.iter().any(|(n, _)| n == "_gitignore");
    let has_dotfile = files.iter().any(|(n, _)| n == ".gitignore");
    match gitignore_step(has_template, has_dotfile) {
        GitignoreStep::Promote => {
            for entry in files.iter_mut() {
                if entry.0 == "_gitignore" {
                    entry.0 = ".gitignore".to_string();
                }
            }
        }
        GitignoreStep::Discard => files.retain(|(n, _)| n != "_gitignore"),
        GitignoreStep::Keep => {}
    }
    assert_eq!(files.len(), 1);
    assert_eq!(files[0].0, ".gitignore");
    assert_eq!(files[0].1, b"target/".to_vec());

    // And the discard rule: the existing `.gitignore` contents survive.
    let mut files: Vec<(String, Vec<u8>)> = vec![
        ("_gitignore".to_string(), b"template".to_vec()),
        (".gitignore".to_string(), b"mine".to_vec()),
    ];
    let has_template = files.iter().any(|(n, _)| n == "_gitignore");
    let has_dotfile = files.iter().any(|(n, _)| n == ".gitignore");
    match gitignore_step(has_template, has_dotfile) {
        GitignoreStep::Promote => panic!("must not overwrite an existing .gitignore"),
        GitignoreStep::Discard => files.retain(|(n, _)| n != "_gitignore"),
        GitignoreStep::Keep => panic!("the template gitignore must be removed"),
    }
    assert_eq!(files.len(), 1);
    assert_eq!(files[0].0, ".gitignore");
    assert_eq!(files[0].1, b"mine".to_vec());
}

#[test]
fn postscript_names_are_reserved() {
    assert_eq!(postscript_file_name(ScriptKind::Shell), "_postscript_.sh");
    assert_eq!(
        postscript_file_name(ScriptKind::PowerShell),
        "_postscript_.ps1"
    );
}

#[test]
fn postscript_choice_follows_capability() {
    assert_eq!(
        postscript_choice(true, false, true, false),
        Some(ScriptKind::Shell)
    );
    assert_eq!(
        postscript_choice(false, true, true, true),
        Some(ScriptKind::PowerShell)
    );
    assert_eq!(
        postscript_choice(true, true, true, true),
        Some(ScriptKind::PowerShell)
    );
    assert_eq!(postscript_choice(true, true, false, false), None);
    assert_eq!(postscript_choice(false, false, true, true), None);
}

#[test]
fn postscript_exit_status_propagates() {
    assert!(postscript_outcome(0).is_ok());
    assert_eq!(
        postscript_outcome(3).unwrap_err(),
        ScaffoldError::SubprocessFailure { code: 3 }
    );
}

#[test]
fn destination_is_never_silently_replaced() {
    assert_eq!(dest_prep(false, false), DestPrep::Proceed);
    assert_eq!(dest_prep(false, true), DestPrep::Proceed);
    assert_eq!(dest_prep(true, true), DestPrep::DeleteThenProceed);
    assert_eq!(dest_prep(true, false), DestPrep::Abort);
}

#[test]
fn error_descriptions_are_fixed() {
    assert_eq!(
        ScaffoldError::MalformedUrl.describe(),
        "the URL does not match the provider's tree-URL shape"
    );
    assert_eq!(
        ScaffoldError::RefNotFound.describe(),
        "no branch or tag archive exists for the requested ref"
    );
}
