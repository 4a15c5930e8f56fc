use vstd::prelude::*;

use crate::counter::CompletionCounter;
use crate::task::{spec_from_name, Process, Task, TaskResult};

verus! {

/// Why a requested task produced no result.
#[derive(Clone, Debug)]
pub enum TaskError {
    /// The requested name belongs to no operation; nothing was started.
    UnknownTask,
    /// The process could not be started; carries the operating system's message.
    SpawnFailure(String),
}

/// What became of a child process once the executor stopped waiting for it.
#[derive(Clone, Debug)]
pub enum BufferedOutcome {
    /// The process could not be started.
    SpawnFailed(String),
    /// The process ran and exited; `code` is absent when no exit code was reported.
    Exited { code: Option<i32>, stdout: Vec<u8> },
}

/// Text that a lossy UTF-8 decoding gives for a byte sequence.
pub uninterp spec fn lossy_utf8(b: Seq<u8>) -> Seq<char>;

/// Relies on String::from_utf8_lossy: decodes stdout, replacing invalid sequences.
#[verifier::external_body]
fn decode_lossy(b: &[u8]) -> (r: String)
    ensures
        r@ == lossy_utf8(b@),
        b@.len() == 0 ==> r@.len() == 0,
{
    String::from_utf8_lossy(b).into_owned()
}

/// Whether an exit code counts as success.
pub open spec fn exit_ok(code: Option<i32>) -> bool {
    code == Some(0i32)
}

/// Result tagged by exit status and carrying the captured text.
pub open spec fn spec_result_from_exit(code: Option<i32>, text: String) -> TaskResult {
    if exit_ok(code) {
        TaskResult::Success(text)
    } else {
        TaskResult::Fail(text)
    }
}

/// Increments of the completion counter that one outcome causes.
pub open spec fn completion_bump(o: BufferedOutcome) -> nat {
    match o {
        BufferedOutcome::SpawnFailed(_) => 0,
        BufferedOutcome::Exited { .. } => 1,
    }
}

/// Completions counted after the outcomes were handled one after another, in this order.
pub open spec fn completions(outcomes: Seq<BufferedOutcome>) -> nat
    decreases outcomes.len(),
{
    if outcomes.len() == 0 {
        0
    } else {
        completions(outcomes.drop_last()) + completion_bump(outcomes.last())
    }
}

/// However the completions of buffered tasks that all ran are interleaved, the counter ends
/// exactly one higher per task.
pub proof fn lemma_finished_tasks_all_counted(outcomes: Seq<BufferedOutcome>)
    requires
        forall|i: int| 0 <= i < outcomes.len() ==> #[trigger] outcomes[i] is Exited,
    ensures
        completions(outcomes) == outcomes.len(),
    decreases outcomes.len(),
{
    if outcomes.len() > 0 {
        let rest = outcomes.drop_last();
        assert forall|i: int| 0 <= i < rest.len() implies #[trigger] rest[i] is Exited by {
            assert(rest[i] == outcomes[i]);
        }
        lemma_finished_tasks_all_counted(rest);
        assert(outcomes[outcomes.len() - 1] is Exited);
    }
}

proof fn lemma_completions_concat(a: Seq<BufferedOutcome>, b: Seq<BufferedOutcome>)
    ensures
        completions(a + b) == completions(a) + completions(b),
    decreases b.len(),
{
    if b.len() == 0 {
        assert(a + b =~= a);
    } else {
        lemma_completions_concat(a, b.drop_last());
        assert((a + b).drop_last() =~= a + b.drop_last());
        assert((a + b).last() == b.last());
    }
}

/// Handling two neighbouring completions in the other order leaves the count unchanged, so
/// every interleaving of the same completions gives the same count.
pub proof fn lemma_completion_order_irrelevant(outcomes: Seq<BufferedOutcome>, i: int)
    requires
        0 <= i,
        i + 1 < outcomes.len(),
    ensures
        completions(outcomes) == completions(
            outcomes.update(i, outcomes[i + 1]).update(i + 1, outcomes[i]),
        ),
{
    let swapped = outcomes.update(i, outcomes[i + 1]).update(i + 1, outcomes[i]);
    let front = outcomes.take(i);
    let back = outcomes.skip(i + 2);
    let pair = seq![outcomes[i], outcomes[i + 1]];
    let rpair = seq![outcomes[i + 1], outcomes[i]];
    assert(outcomes =~= front + pair + back);
    assert(swapped =~= front + rpair + back);
    lemma_completions_concat(front + pair, back);
    lemma_completions_concat(front, pair);
    lemma_completions_concat(front + rpair, back);
    lemma_completions_concat(front, rpair);
    assert(pair.drop_last().drop_last() =~= Seq::<BufferedOutcome>::empty());
    assert(rpair.drop_last().drop_last() =~= Seq::<BufferedOutcome>::empty());
    assert(pair.drop_last() =~= seq![outcomes[i]]);
    assert(rpair.drop_last() =~= seq![outcomes[i + 1]]);
    assert(seq![outcomes[i]].drop_last() =~= Seq::<BufferedOutcome>::empty());
    assert(seq![outcomes[i + 1]].drop_last() =~= Seq::<BufferedOutcome>::empty());
    assert(completions(Seq::<BufferedOutcome>::empty()) == 0);
    assert(seq![outcomes[i]].last() == outcomes[i]);
    assert(seq![outcomes[i + 1]].last() == outcomes[i + 1]);
    assert(completions(seq![outcomes[i]]) == completion_bump(outcomes[i]));
    assert(completions(seq![outcomes[i + 1]]) == completion_bump(outcomes[i + 1]));
    assert(completions(pair) == completion_bump(outcomes[i]) + completion_bump(outcomes[i + 1]));
    assert(completions(rpair) == completion_bump(outcomes[i + 1]) + completion_bump(outcomes[i]));
}

/// Captured text that a result carries, whatever its tag.
pub open spec fn result_text(r: TaskResult) -> Seq<char> {
    match r {
        TaskResult::Success(t) => t@,
        TaskResult::Fail(t) => t@,
    }
}

/// Tags the captured text by the exit status: zero is success, anything else failure.
pub fn result_from_exit(code: Option<i32>, text: String) -> (r: TaskResult)
    ensures
        r == spec_result_from_exit(code, text),
{
    match code {
        Some(0i32) => TaskResult::Success(text),
        _ => TaskResult::Fail(text),
    }
}

/// Resolves a requested name to a task marked running, ready to be spawned.
pub fn request_task(name: &str) -> (r: Result<Task, TaskError>)
    ensures
        spec_from_name(name@) is None ==> r == Err::<Task, TaskError>(TaskError::UnknownTask),
        spec_from_name(name@) matches Some(p) ==> (r matches Ok(t) && t.well_formed_for(p)
            && t.status is Running && t.result is None),
{
    match Process::from_name(name) {
        None => Err(TaskError::UnknownTask),
        Some(p) => {
            let mut t = Task::new(p);
            t.start();
            Ok(t)
        },
    }
}

/// Turns what became of a spawned task into the reply, counting the task when it ran.
pub fn complete_buffered(counter: &mut CompletionCounter, outcome: BufferedOutcome) -> (r: Result<
    TaskResult,
    TaskError,
>)
    requires
        old(counter).value() < u64::MAX,
    ensures
        final(counter).value() == old(counter).value() + completion_bump(outcome),
        outcome matches BufferedOutcome::SpawnFailed(msg) ==> r == Err::<TaskResult, TaskError>(
            TaskError::SpawnFailure(msg),
        ),
        outcome matches BufferedOutcome::Exited { code, stdout } ==> (r matches Ok(res) && (
        res is Success <==> exit_ok(code)) && result_text(res) == lossy_utf8(stdout@)),
{
    match outcome {
        BufferedOutcome::SpawnFailed(msg) => Err(TaskError::SpawnFailure(msg)),
        BufferedOutcome::Exited { code, stdout } => {
            let text = decode_lossy(stdout.as_slice());
            counter.record_completion();
            Ok(result_from_exit(code, text))
        },
    }
}

} // verus!
