//! What a job does over a whole sequence of events.
//!
//! [`crate::job::transition`] speaks of one event. The laws here speak of
//! every sequence of them: a job only moves forward, it ends once, and what
//! it does not reach it does not do.

use vstd::prelude::*;
use crate::binary::BinaryKind;
use crate::error::{DirectoryFault, JobError, ProvisionError};
use crate::job::{closing_lines, submitted, transition, DirectiveView, EventView, JobView, Run, Stage, StepView};
use crate::lines::{frame_from, line_texts, newline_free, terminated, lemma_frame_chunks, lemma_frame_of_terminated};
use crate::log::{tagged, LogLineView, OutcomeView, Phase};
use crate::provision::{awaited, stage_after, CreateOutcome, FileReply, PathKind, ProvisionStage};

verus! {

/// The state of `job` after all of `events`, in order.
pub open spec fn state_after(job: JobView, events: Seq<EventView>) -> JobView
    decreases events.len(),
{
    if events.len() == 0 {
        job
    } else {
        transition(state_after(job, events.drop_last()), events.last()).next
    }
}

/// The answers of `job` to `events`, one for each, in order.
pub open spec fn answers(job: JobView, events: Seq<EventView>) -> Seq<StepView>
    decreases events.len(),
{
    if events.len() == 0 {
        Seq::empty()
    } else {
        answers(job, events.drop_last()).push(
            transition(state_after(job, events.drop_last()), events.last()).step,
        )
    }
}

/// How far a stage is along the way of a job. Later stages have higher
/// numbers.
pub open spec fn progress(stage: Stage) -> nat {
    match stage {
        Stage::Submitted => 0,
        Stage::Provisioning(task) => match task.binary {
            BinaryKind::Downloader => 1,
            BinaryKind::Transcoder => 4,
        },
        Stage::Launching(Run::Probe(BinaryKind::Downloader)) => 2,
        Stage::Reading(Run::Probe(BinaryKind::Downloader)) => 3,
        Stage::Launching(Run::Probe(BinaryKind::Transcoder)) => 5,
        Stage::Reading(Run::Probe(BinaryKind::Transcoder)) => 6,
        Stage::ProbingTarget => 7,
        Stage::CreatingTarget => 8,
        Stage::Launching(Run::Download) => 9,
        Stage::Reading(Run::Download) => 10,
        Stage::Finished => 11,
    }
}

/// Whether the step holds a line of the download phase.
pub open spec fn logs_download(step: StepView) -> bool {
    exists|k: int| 0 <= k < step.logs.len() && (#[trigger] step.logs[k]).phase == Phase::Download
}

/// Whether a refusal of the target directory is what `reply` tells a job at
/// `stage`.
pub open spec fn target_refused(stage: Stage, reply: FileReply) -> Option<DirectoryFault> {
    if stage == Stage::ProbingTarget && reply == FileReply::Probed(PathKind::Occupied) {
        Some(DirectoryFault::Occupied)
    } else if stage == Stage::CreatingTarget && reply == FileReply::Created(CreateOutcome::Failed) {
        Some(DirectoryFault::CreateFailed)
    } else {
        None
    }
}

/// Whether `reply` makes the provisioning of the downloader fail at `stage`,
/// and with what error.
pub open spec fn downloader_refused(stage: Stage, reply: FileReply) -> Option<ProvisionError> {
    match stage {
        Stage::Provisioning(task) => if task.binary == BinaryKind::Downloader && awaited(
            task.stage,
            reply,
        ) {
            match stage_after(task.stage, reply) {
                ProvisionStage::Failed(error) => Some(error),
                _ => None,
            }
        } else {
            None
        },
        _ => None,
    }
}

/// One event never takes a job back.
pub proof fn lemma_step_moves_forward(job: JobView, event: EventView)
    ensures
        progress(job.stage) <= progress(transition(job, event).next.stage),
{
}

/// A job hands out its outcome exactly when it enters its last stage, and a
/// finished job answers nothing but `Wait`, logs nothing and stays as it is.
pub proof fn lemma_finish_is_final(job: JobView, event: EventView)
    ensures
        job.stage != Stage::Finished ==> (transition(job, event).step.directive is Finish
            <==> transition(job, event).next.stage == Stage::Finished),
        job.stage == Stage::Finished ==> transition(job, event).next == job && transition(
            job,
            event,
        ).step == (StepView { logs: Seq::empty(), directive: DirectiveView::Wait }),
{
}

/// Lines of the download phase come only from the running download, and a
/// process is asked for only on entering a stage that waits for its start.
pub proof fn lemma_step_keeps_to_its_stage(job: JobView, event: EventView)
    ensures
        logs_download(transition(job, event).step) ==> job.stage == Stage::Reading(Run::Download),
        transition(job, event).step.directive is Spawn ==> transition(job, event).next.stage
            is Launching && job.stage != transition(job, event).next.stage,
{
    let step = transition(job, event).step;
    if logs_download(step) {
        let k = choose|k: int|
            0 <= k < step.logs.len() && (#[trigger] step.logs[k]).phase == Phase::Download;
        assert(step.logs[k].phase == Phase::Download);
    }
}

/// There is one answer for each event.
pub proof fn lemma_answers_len(job: JobView, events: Seq<EventView>)
    ensures
        answers(job, events).len() == events.len(),
    decreases events.len(),
{
    if events.len() > 0 {
        lemma_answers_len(job, events.drop_last());
    }
}

/// The answer to an event is the one that the state before it gives.
pub proof fn lemma_answer_at(job: JobView, events: Seq<EventView>, i: int)
    requires
        0 <= i < events.len(),
    ensures
        answers(job, events).len() == events.len(),
        answers(job, events)[i] == transition(state_after(job, events.take(i)), events[i]).step,
        state_after(job, events.take(i + 1)) == transition(
            state_after(job, events.take(i)),
            events[i],
        ).next,
    decreases events.len(),
{
    lemma_answers_len(job, events);
    lemma_answers_len(job, events.drop_last());
    let earlier = events.drop_last();
    assert(events.take(i + 1).drop_last() =~= events.take(i));
    if i == events.len() - 1 {
        assert(events.take(i) =~= earlier);
    } else {
        lemma_answer_at(job, earlier, i);
        assert(earlier.take(i) =~= events.take(i));
    }
}

/// A job never goes back: after more events it is at least as far.
pub proof fn lemma_moves_forward(job: JobView, events: Seq<EventView>, i: int)
    requires
        0 <= i <= events.len(),
    ensures
        progress(state_after(job, events.take(i)).stage) <= progress(
            state_after(job, events).stage,
        ),
    decreases events.len(),
{
    if i == events.len() {
        assert(events.take(i) =~= events);
    } else {
        let earlier = events.drop_last();
        lemma_moves_forward(job, earlier, i);
        assert(earlier.take(i) =~= events.take(i));
        lemma_step_moves_forward(state_after(job, earlier), events.last());
    }
}

/// Whether the answer to the event at `i` is the outcome of the job.
pub open spec fn finishes_at(job: JobView, events: Seq<EventView>, i: int) -> bool {
    0 <= i < events.len() && answers(job, events)[i].directive is Finish
}

/// A job has ended exactly if it has handed out an outcome.
pub proof fn lemma_finished_iff_outcome(job: JobView, events: Seq<EventView>)
    requires
        job.stage != Stage::Finished,
    ensures
        state_after(job, events).stage == Stage::Finished <==> exists|i: int|
            finishes_at(job, events, i),
    decreases events.len(),
{
    lemma_answers_len(job, events);
    if events.len() > 0 {
        let earlier = events.drop_last();
        let last = events.len() - 1;
        lemma_finished_iff_outcome(job, earlier);
        lemma_answers_len(job, earlier);
        lemma_finish_is_final(state_after(job, earlier), events.last());
        assert forall|i: int| 0 <= i < last implies answers(job, events)[i] == answers(
            job,
            earlier,
        )[i] by {}
        if state_after(job, earlier).stage == Stage::Finished {
            let i = choose|i: int| finishes_at(job, earlier, i);
            assert(finishes_at(job, events, i));
        } else {
            if state_after(job, events).stage == Stage::Finished {
                assert(finishes_at(job, events, last));
            } else {
                assert forall|i: int| !finishes_at(job, events, i) by {
                    if 0 <= i < last {
                        assert(!finishes_at(job, earlier, i));
                    }
                }
            }
        }
    } else {
        assert forall|i: int| !finishes_at(job, events, i) by {}
    }
}

/// A job ends once: whatever events it is given, it hands out at most one
/// outcome, it has ended exactly if it has handed one out, and once it has
/// ended no event brings it back.
pub proof fn lemma_one_outcome(url: Seq<char>, directory: Seq<char>, events: Seq<EventView>)
    ensures
        forall|i: int, j: int|
            finishes_at(submitted(url, directory), events, i) && finishes_at(
                submitted(url, directory),
                events,
                j,
            ) ==> i == j,
        state_after(submitted(url, directory), events).stage == Stage::Finished <==> exists|
            i: int,
        | finishes_at(submitted(url, directory), events, i),
        forall|i: int, n: int|
            finishes_at(submitted(url, directory), events, i) && i < n <= events.len()
                ==> state_after(submitted(url, directory), events.take(n)).stage
                == Stage::Finished,
{
    let job = submitted(url, directory);
    lemma_finished_iff_outcome(job, events);
    assert forall|i: int, n: int|
        finishes_at(job, events, i) && i < n <= events.len() implies state_after(
        job,
        events.take(n),
    ).stage == Stage::Finished by {
        lemma_ended_after(job, events, i, n);
    }
    assert forall|i: int, j: int|
        finishes_at(job, events, i) && finishes_at(job, events, j) implies i == j by {
        if i < j {
            lemma_ended_after(job, events, i, j);
            lemma_answer_at(job, events, j);
            lemma_finish_is_final(state_after(job, events.take(j)), events[j]);
        } else if j < i {
            lemma_ended_after(job, events, j, i);
            lemma_answer_at(job, events, i);
            lemma_finish_is_final(state_after(job, events.take(i)), events[i]);
        }
    }
}

/// After the event that brought the outcome the job is in its last stage,
/// and it stays there.
pub proof fn lemma_ended_after(job: JobView, events: Seq<EventView>, i: int, n: int)
    requires
        finishes_at(job, events, i),
        i < n <= events.len(),
    ensures
        state_after(job, events.take(n)).stage == Stage::Finished,
{
    lemma_answer_at(job, events, i);
    let before = state_after(job, events.take(i));
    lemma_finish_is_final(before, events[i]);
    assert(state_after(job, events.take(i + 1)).stage == Stage::Finished);
    lemma_moves_forward(job, events.take(n), i + 1);
    assert(events.take(n).take(i + 1) =~= events.take(i + 1));
    assert(events.take(n).take(n) =~= events.take(n));
}

/// Once a job is in its last stage, it answers every event with `Wait` and
/// without a log line.
pub proof fn lemma_silent_after_end(job: JobView, events: Seq<EventView>, n: int, i: int)
    requires
        0 <= n <= i < events.len(),
        state_after(job, events.take(n)).stage == Stage::Finished,
    ensures
        answers(job, events)[i] == (StepView {
            logs: Seq::empty(),
            directive: DirectiveView::Wait,
        }),
{
    lemma_answer_at(job, events, i);
    lemma_moves_forward(job, events.take(i), n);
    assert(events.take(i).take(n) =~= events.take(n));
    assert(events.take(i).take(i) =~= events.take(i));
    lemma_finish_is_final(state_after(job, events.take(i)), events[i]);
}

/// A target directory that cannot be had ends the job in failure, and the
/// job never logs a line of the download phase: not before, not then, and
/// not whatever it is told afterwards.
pub proof fn lemma_directory_failure_is_silent(
    url: Seq<char>,
    directory: Seq<char>,
    before: Seq<EventView>,
    reply: FileReply,
    after: Seq<EventView>,
)
    requires
        target_refused(state_after(submitted(url, directory), before).stage, reply) is Some,
    ensures
        ({
            let job = submitted(url, directory);
            let fault = target_refused(state_after(job, before).stage, reply).unwrap();
            let events = before.push(EventView::File(reply)) + after;
            &&& answers(job, events)[before.len() as int] == (StepView {
                logs: Seq::empty(),
                directive: DirectiveView::Finish(
                    OutcomeView::Failure(JobError::DirectoryCreateFailed(fault).message()),
                ),
            })
            &&& forall|i: int| 0 <= i < events.len() ==> !logs_download(answers(job, events)[i])
            &&& forall|i: int| finishes_at(job, events, i) ==> i == before.len()
        }),
{
    let job = submitted(url, directory);
    let events = before.push(EventView::File(reply)) + after;
    let at = before.len() as int;
    assert(events.take(at) =~= before);
    assert(events[at] == EventView::File(reply));
    lemma_answer_at(job, events, at);
    assert(state_after(job, events.take(at + 1)).stage == Stage::Finished);
    assert forall|i: int| 0 <= i < events.len() implies !logs_download(
        answers(job, events)[i],
    ) by {
        lemma_answer_at(job, events, i);
        if i < at {
            lemma_moves_forward(job, before, i);
            assert(before.take(i) =~= events.take(i));
            lemma_step_keeps_to_its_stage(state_after(job, events.take(i)), events[i]);
        } else if i > at {
            lemma_silent_after_end(job, events, at + 1, i);
        }
    }
    assert(finishes_at(job, events, at));
    lemma_one_outcome(url, directory, events);
}

/// A downloader that cannot be put on disk ends the job in failure, the
/// failure names that phase, and the job never asks for a process: not
/// before, not then, and not whatever it is told afterwards.
pub proof fn lemma_provision_failure_spawns_nothing(
    url: Seq<char>,
    directory: Seq<char>,
    before: Seq<EventView>,
    reply: FileReply,
    after: Seq<EventView>,
)
    requires
        downloader_refused(state_after(submitted(url, directory), before).stage, reply) is Some,
    ensures
        ({
            let job = submitted(url, directory);
            let error = downloader_refused(state_after(job, before).stage, reply).unwrap();
            let events = before.push(EventView::File(reply)) + after;
            &&& answers(job, events)[before.len() as int] == (StepView {
                logs: Seq::empty(),
                directive: DirectiveView::Finish(
                    OutcomeView::Failure(
                        "provisioning "@ + "downloader"@ + " failed: "@ + error.detail(),
                    ),
                ),
            })
            &&& forall|i: int|
                0 <= i < events.len() ==> !(#[trigger] answers(job, events)[i].directive is Spawn)
            &&& forall|i: int| finishes_at(job, events, i) ==> i == before.len()
        }),
{
    let job = submitted(url, directory);
    let events = before.push(EventView::File(reply)) + after;
    let at = before.len() as int;
    assert(events.take(at) =~= before);
    assert(events[at] == EventView::File(reply));
    lemma_answer_at(job, events, at);
    assert(state_after(job, events.take(at + 1)).stage == Stage::Finished);
    assert forall|i: int| 0 <= i < events.len() implies !(#[trigger] answers(
        job,
        events,
    )[i].directive is Spawn) by {
        lemma_answer_at(job, events, i);
        if i < at {
            lemma_moves_forward(job, before, i + 1);
            assert(before.take(i + 1) =~= events.take(i + 1));
            lemma_step_keeps_to_its_stage(state_after(job, events.take(i)), events[i]);
        } else if i > at {
            lemma_silent_after_end(job, events, at + 1, i);
        }
    }
    assert(finishes_at(job, events, at));
    lemma_one_outcome(url, directory, events);
}

/// All log lines that `job` hands out for `events`, in order.
pub open spec fn logged(job: JobView, events: Seq<EventView>) -> Seq<LogLineView>
    decreases events.len(),
{
    if events.len() == 0 {
        Seq::empty()
    } else {
        logged(job, events.drop_last()) + transition(
            state_after(job, events.drop_last()),
            events.last(),
        ).step.logs
    }
}

/// The chunks as the events that deliver them, in order.
pub open spec fn deliveries(chunks: Seq<Seq<u8>>) -> Seq<EventView> {
    Seq::new(chunks.len(), |i: int| EventView::Output(chunks[i]))
}

/// The bytes of all chunks, in order.
pub open spec fn all_bytes(chunks: Seq<Seq<u8>>) -> Seq<u8>
    decreases chunks.len(),
{
    if chunks.len() == 0 {
        Seq::empty()
    } else {
        all_bytes(chunks.drop_last()) + chunks.last()
    }
}

/// A job that reads a stream logs the lines of the stream, not of its
/// chunks: however the bytes arrive, the lines are those that the bytes hold
/// as a whole, each tagged with the stream and phase of the process, and the
/// job goes on reading.
pub proof fn lemma_stream_is_logged_whole(job: JobView, run: Run, chunks: Seq<Seq<u8>>)
    requires
        job.stage == Stage::Reading(run),
    ensures
        logged(job, deliveries(chunks)) == tagged(
            line_texts(frame_from(job.open, all_bytes(chunks)).lines),
            run.stream_of(),
            run.phase_of(),
        ),
        state_after(job, deliveries(chunks)) == (JobView {
            url: job.url,
            directory: job.directory,
            stage: job.stage,
            open: frame_from(job.open, all_bytes(chunks)).rest,
        }),
    decreases chunks.len(),
{
    let events = deliveries(chunks);
    if chunks.len() > 0 {
        let earlier = chunks.drop_last();
        lemma_stream_is_logged_whole(job, run, earlier);
        assert(events.drop_last() =~= deliveries(earlier));
        assert(events.last() == EventView::Output(chunks.last()));
        lemma_frame_chunks(job.open, all_bytes(earlier), chunks.last());
        let first = frame_from(job.open, all_bytes(earlier));
        let second = frame_from(first.rest, chunks.last());
        assert(tagged(line_texts(first.lines + second.lines), run.stream_of(), run.phase_of())
            =~= tagged(line_texts(first.lines), run.stream_of(), run.phase_of()) + tagged(
            line_texts(second.lines),
            run.stream_of(),
            run.phase_of(),
        ));
    } else {
        assert(tagged(
            line_texts(frame_from(job.open, all_bytes(chunks)).lines),
            run.stream_of(),
            run.phase_of(),
        ) =~= Seq::<LogLineView>::empty());
    }
}

/// No finished line is dropped: a process that writes newline-terminated
/// lines and nothing after the last newline gets exactly those lines into
/// the log, in their order, however its output is chunked; and the end of
/// its stream adds no line.
pub proof fn lemma_every_line_is_logged(
    job: JobView,
    run: Run,
    chunks: Seq<Seq<u8>>,
    lines: Seq<Seq<u8>>,
)
    requires
        job.stage == Stage::Reading(run),
        job.open == Seq::<u8>::empty(),
        all_bytes(chunks) == terminated(lines),
        forall|i: int| 0 <= i < lines.len() ==> newline_free(#[trigger] lines[i]),
    ensures
        logged(job, deliveries(chunks)) == tagged(
            line_texts(lines),
            run.stream_of(),
            run.phase_of(),
        ),
        logged(job, deliveries(chunks)).len() == lines.len(),
        closing_lines(state_after(job, deliveries(chunks)).open, run) == Seq::<
            LogLineView,
        >::empty(),
{
    lemma_stream_is_logged_whole(job, run, chunks);
    lemma_frame_of_terminated(lines);
}

} // verus!
