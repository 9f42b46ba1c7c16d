use animals_cli::safe_rewrite::{rewrite_action, rewrite_next, RewriteAction, RewriteStage};

#[test]
fn replacement_steps_in_order() {
    let mut stage = RewriteStage::Start;
    let mut actions = Vec::new();
    while rewrite_action(stage) != RewriteAction::Stop {
        actions.push(rewrite_action(stage));
        stage = rewrite_next(stage, true);
    }
    assert_eq!(
        actions,
        vec![
            RewriteAction::CreateTemp,
            RewriteAction::WriteTemp,
            RewriteAction::SyncTemp,
            RewriteAction::RenameTempOverTarget
        ]
    );
    assert_eq!(stage, RewriteStage::Committed);
}

#[test]
fn failure_before_commit_abandons() {
    let stage = rewrite_next(RewriteStage::TempWritten, false);
    assert_eq!(stage, RewriteStage::Abandoned);
    assert_eq!(rewrite_action(stage), RewriteAction::Stop);
    assert_eq!(rewrite_next(stage, true), RewriteStage::Abandoned);
    assert_eq!(rewrite_next(RewriteStage::Committed, false), RewriteStage::Committed);
}
