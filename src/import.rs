use vstd::prelude::*;
use crate::report::{comment_block, comment_block_spec, issue_block, issue_block_spec, IssueRecord, debug_list_text};
use crate::thread::{fresh, CommentRecord, ThreadImport, ThreadView};

verus! {

/// Whether an import only prints what it would write, or writes it.
#[derive(Debug, Clone, Copy, PartialEq, Eq, Structural)]
pub enum Mode {
    DryRun,
    Commit,
}

/// What to do for one issue.
pub enum IssueWork {
    /// Print these blocks: the issue's, then one per comment.
    Print(Vec<String>),
    /// Write the thread to the store.
    Persist(ThreadImport),
}

/// The blocks a dry run prints for an issue and its comments.
pub open spec fn dry_run_blocks(issue: IssueRecord, comments: Seq<CommentRecord>) -> Seq<Seq<char>> {
    seq![issue_block_spec(issue@, debug_list_text(issue@.labels))]
        + comments.map_values(|x: CommentRecord| comment_block_spec(x@))
}

/// The thread an issue and its comments start as.
pub open spec fn thread_start(issue: IssueRecord, comments: Seq<CommentRecord>) -> ThreadView {
    ThreadView {
        author: issue.author@,
        created_at: issue.created_at@,
        body: issue.body@,
        comments: comments.map_values(|c: CommentRecord| c@),
        created: Seq::empty(),
        head_subject: None,
    }
}

/// Decides the work for one issue: its blocks in a dry run, its thread
/// otherwise.
pub fn plan_issue(mode: Mode, issue: IssueRecord, comments: Vec<CommentRecord>) -> (r: IssueWork)
    ensures
        mode == Mode::DryRun <==> r is Print,
        r matches IssueWork::Print(blocks) ==> blocks@.map_values(|b: String| b@) == dry_run_blocks(
            issue,
            comments@,
        ),
        r matches IssueWork::Persist(t) ==> t@ == thread_start(issue, comments@),
{
    match mode {
        Mode::DryRun => {
            let mut blocks: Vec<String> = Vec::new();
            blocks.push(issue_block(&issue));
            let mut i: usize = 0;
            while i < comments.len()
                invariant
                    i <= comments@.len(),
                    blocks@.map_values(|b: String| b@) == dry_run_blocks(issue, comments@.take(i as int)),
                decreases comments@.len() - i,
            {
                let ghost before = blocks@;
                blocks.push(comment_block(&comments[i]));
                assert(comments@.take(i + 1) =~= comments@.take(i as int).push(comments@[i as int]));
                assert(blocks@ =~= before.push(blocks@.last()));
                let ghost shown = comments@.take(i as int);
                let ghost c = comments@[i as int];
                assert(shown.push(c).map_values(|x: CommentRecord| comment_block_spec(x@))
                    =~= shown.map_values(|x: CommentRecord| comment_block_spec(x@)).push(comment_block_spec(c@)));
                assert(blocks@.map_values(|b: String| b@)
                    =~= before.map_values(|b: String| b@).push(blocks@.last()@));
                i = i + 1;
                assert(blocks@.map_values(|b: String| b@) =~= dry_run_blocks(issue, comments@.take(i as int)));
            }
            assert(comments@.take(comments@.len() as int) =~= comments@);
            IssueWork::Print(blocks)
        },
        Mode::Commit => {
            IssueWork::Persist(ThreadImport::new(issue.author, issue.created_at, issue.body, comments))
        },
    }
}

/// A dry run asks the store for nothing: its work is one printed block for
/// the issue and one per comment. A committing run starts from an empty
/// thread.
pub proof fn lemma_dry_run_prints_only(issue: IssueRecord, comments: Seq<CommentRecord>)
    ensures
        dry_run_blocks(issue, comments).len() == comments.len() + 1,
        fresh(thread_start(issue, comments)),
{
}

} // verus!
