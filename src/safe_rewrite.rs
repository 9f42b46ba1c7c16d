//! The commit protocol of the rewrite engine: the new content goes to a
//! temporary file beside the target, is forced to storage, and only then is
//! renamed over the target. The caller performs each step and reports
//! whether it succeeded; these functions decide what comes next.
use vstd::prelude::*;

verus! {

/// Where a replacement of a file stands.
#[derive(PartialEq, Eq, Debug, Clone, Copy, Structural)]
pub enum RewriteStage {
    Start,
    TempCreated,
    TempWritten,
    TempSynced,
    Committed,
    Abandoned,
}

/// The step that the caller performs next.
#[derive(PartialEq, Eq, Debug, Clone, Copy, Structural)]
pub enum RewriteAction {
    /// Create an empty temporary file in the target's directory.
    CreateTemp,
    /// Write the whole new content to the temporary file.
    WriteTemp,
    /// Force the temporary file to durable storage.
    SyncTemp,
    /// Rename the temporary file over the target (atomic on one file system).
    RenameTempOverTarget,
    /// Nothing more to do.
    Stop,
}

pub open spec fn action_of(stage: RewriteStage) -> RewriteAction {
    match stage {
        RewriteStage::Start => RewriteAction::CreateTemp,
        RewriteStage::TempCreated => RewriteAction::WriteTemp,
        RewriteStage::TempWritten => RewriteAction::SyncTemp,
        RewriteStage::TempSynced => RewriteAction::RenameTempOverTarget,
        RewriteStage::Committed => RewriteAction::Stop,
        RewriteStage::Abandoned => RewriteAction::Stop,
    }
}

/// A successful step moves one stage on; any failure abandons the
/// replacement (the temporary file is left behind); a finished replacement
/// stays finished.
pub open spec fn next_stage(stage: RewriteStage, succeeded: bool) -> RewriteStage {
    match stage {
        RewriteStage::Committed => RewriteStage::Committed,
        RewriteStage::Abandoned => RewriteStage::Abandoned,
        _ => if !succeeded {
            RewriteStage::Abandoned
        } else {
            match stage {
                RewriteStage::Start => RewriteStage::TempCreated,
                RewriteStage::TempCreated => RewriteStage::TempWritten,
                RewriteStage::TempWritten => RewriteStage::TempSynced,
                _ => RewriteStage::Committed,
            }
        },
    }
}

/// The step to perform at `stage`.
pub fn rewrite_action(stage: RewriteStage) -> (r: RewriteAction)
    ensures
        r == action_of(stage),
{
    match stage {
        RewriteStage::Start => RewriteAction::CreateTemp,
        RewriteStage::TempCreated => RewriteAction::WriteTemp,
        RewriteStage::TempWritten => RewriteAction::SyncTemp,
        RewriteStage::TempSynced => RewriteAction::RenameTempOverTarget,
        RewriteStage::Committed => RewriteAction::Stop,
        RewriteStage::Abandoned => RewriteAction::Stop,
    }
}

/// The stage after the step of `stage` succeeded or failed.
pub fn rewrite_next(stage: RewriteStage, succeeded: bool) -> (r: RewriteStage)
    ensures
        r == next_stage(stage, succeeded),
{
    match stage {
        RewriteStage::Committed => RewriteStage::Committed,
        RewriteStage::Abandoned => RewriteStage::Abandoned,
        _ => if !succeeded {
            RewriteStage::Abandoned
        } else {
            match stage {
                RewriteStage::Start => RewriteStage::TempCreated,
                RewriteStage::TempCreated => RewriteStage::TempWritten,
                RewriteStage::TempWritten => RewriteStage::TempSynced,
                _ => RewriteStage::Committed,
            }
        },
    }
}

/// The content of the target file and of the temporary file.
pub struct FilesView {
    pub target: Seq<u8>,
    pub temp: Seq<u8>,
}

/// One step's outcome as the caller saw it: whether it succeeded, and what
/// a failed write left in the temporary file.
pub struct StepOutcome {
    pub succeeded: bool,
    pub partial: Seq<u8>,
}

/// What a step does to the files. A failed write may leave anything in the
/// temporary file; a rename either happens whole or not at all.
pub open spec fn perform(files: FilesView, action: RewriteAction, new_content: Seq<u8>, o: StepOutcome) -> FilesView {
    match action {
        RewriteAction::CreateTemp => if o.succeeded {
            FilesView { target: files.target, temp: Seq::empty() }
        } else {
            files
        },
        RewriteAction::WriteTemp => FilesView {
            target: files.target,
            temp: if o.succeeded {
                new_content
            } else {
                o.partial
            },
        },
        RewriteAction::SyncTemp => files,
        RewriteAction::RenameTempOverTarget => if o.succeeded {
            FilesView { target: files.temp, temp: Seq::empty() }
        } else {
            files
        },
        RewriteAction::Stop => files,
    }
}

/// The stage and files after performing the steps with the given outcomes,
/// stopping early when the protocol stops.
pub open spec fn run(
    stage: RewriteStage,
    files: FilesView,
    new_content: Seq<u8>,
    outcomes: Seq<StepOutcome>,
) -> (RewriteStage, FilesView)
    decreases outcomes.len(),
{
    if outcomes.len() == 0 || action_of(stage) == RewriteAction::Stop {
        (stage, files)
    } else {
        run(
            next_stage(stage, outcomes[0].succeeded),
            perform(files, action_of(stage), new_content, outcomes[0]),
            new_content,
            outcomes.skip(1),
        )
    }
}

/// What holds of the files at each stage of a replacement that started
/// from target content `old`.
pub open spec fn stage_invariant(stage: RewriteStage, files: FilesView, old: Seq<u8>, new_content: Seq<u8>) -> bool {
    match stage {
        RewriteStage::Committed => files.target == new_content,
        RewriteStage::TempWritten | RewriteStage::TempSynced => files.target == old && files.temp
            == new_content,
        _ => files.target == old,
    }
}

proof fn lemma_run_keeps_invariant(
    stage: RewriteStage,
    files: FilesView,
    old: Seq<u8>,
    new_content: Seq<u8>,
    outcomes: Seq<StepOutcome>,
)
    requires
        stage_invariant(stage, files, old, new_content),
    ensures
        stage_invariant(run(stage, files, new_content, outcomes).0, run(stage, files, new_content, outcomes).1, old, new_content),
    decreases outcomes.len(),
{
    if outcomes.len() > 0 && action_of(stage) != RewriteAction::Stop {
        lemma_run_keeps_invariant(
            next_stage(stage, outcomes[0].succeeded),
            perform(files, action_of(stage), new_content, outcomes[0]),
            old,
            new_content,
            outcomes.skip(1),
        );
    }
}

/// However the steps of a replacement turn out, and wherever it stops, the
/// target holds either its old content or, once committed, the whole new
/// content; a replacement interrupted before its commit leaves the target
/// exactly as it was.
pub proof fn law_replacement_all_or_nothing(
    files: FilesView,
    new_content: Seq<u8>,
    outcomes: Seq<StepOutcome>,
)
    ensures
        ({
            let (stage, after) = run(RewriteStage::Start, files, new_content, outcomes);
            &&& stage == RewriteStage::Committed ==> after.target == new_content
            &&& stage != RewriteStage::Committed ==> after.target == files.target
        }),
{
    lemma_run_keeps_invariant(RewriteStage::Start, files, files.target, new_content, outcomes);
}

/// When every step succeeds, four steps commit the new content.
pub proof fn law_replacement_commits(files: FilesView, new_content: Seq<u8>, outcomes: Seq<StepOutcome>)
    requires
        outcomes.len() >= 4,
        forall|i: int| 0 <= i < 4 ==> (#[trigger] outcomes[i]).succeeded,
    ensures
        run(RewriteStage::Start, files, new_content, outcomes).0 == RewriteStage::Committed,
        run(RewriteStage::Start, files, new_content, outcomes).1.target == new_content,
{
    let o = outcomes;
    let o1 = o.skip(1);
    let o2 = o1.skip(1);
    let o3 = o2.skip(1);
    let o4 = o3.skip(1);
    assert(o1[0] == o[1]);
    assert(o2[0] == o[2]);
    assert(o3[0] == o[3]);
    assert(o[0].succeeded && o[1].succeeded && o[2].succeeded && o[3].succeeded);
    let f1 = perform(files, RewriteAction::CreateTemp, new_content, o[0]);
    let f2 = perform(f1, RewriteAction::WriteTemp, new_content, o[1]);
    let f3 = perform(f2, RewriteAction::SyncTemp, new_content, o[2]);
    let f4 = perform(f3, RewriteAction::RenameTempOverTarget, new_content, o[3]);
    assert(f4.target == new_content);
    assert(run(RewriteStage::Committed, f4, new_content, o4) == (RewriteStage::Committed, f4));
    assert(run(RewriteStage::TempSynced, f3, new_content, o3) == run(RewriteStage::Committed, f4, new_content, o4));
    assert(run(RewriteStage::TempWritten, f2, new_content, o2) == run(RewriteStage::TempSynced, f3, new_content, o3));
    assert(run(RewriteStage::TempCreated, f1, new_content, o1) == run(RewriteStage::TempWritten, f2, new_content, o2));
    assert(run(RewriteStage::Start, files, new_content, o) == run(RewriteStage::TempCreated, f1, new_content, o1));
}

} // verus!
