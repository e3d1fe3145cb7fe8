use vstd::prelude::*;
use crate::gpu::{
    cmd_code, GpuCmd, GpuError, GpuModel, QueueEntry, MAX_BUFFER_SIZE, NUM_QUEUES, QUEUE_CAPACITY,
};

verus! {

/// On a ready device, submitting to an index that names no queue fails with
/// `InvalidQueue` and changes nothing.
pub proof fn lemma_invalid_queue_rejected(m: GpuModel, cmd: GpuCmd, q: usize)
    requires
        m.ready,
        q >= NUM_QUEUES,
    ensures
        m.submit_result(cmd, q) == Err::<usize, GpuError>(GpuError::InvalidQueue),
        m.submit_state(cmd, q) == m,
{
}

/// Before the device is ready, every submission fails with `NotInitialized`
/// and changes nothing; so does every gated request whose buffer is within
/// bounds (an oversized buffer is refused first, as too large).
pub proof fn lemma_not_ready_rejected(m: GpuModel, cmd: GpuCmd, q: usize, len: nat, tag: u32)
    requires
        !m.ready,
    ensures
        m.submit_result(cmd, q) == Err::<usize, GpuError>(GpuError::NotInitialized),
        m.submit_state(cmd, q) == m,
        len <= MAX_BUFFER_SIZE ==> m.render_result(len, tag) == Err::<usize, GpuError>(
            GpuError::NotInitialized,
        ),
        m.render_state(len, tag) == m,
{
}

/// A gated request whose buffer is longer than `MAX_BUFFER_SIZE` fails with
/// `BufferTooLarge` and leaves queues and jobs untouched: nothing is submitted.
pub proof fn lemma_oversized_buffer_rejected(m: GpuModel, len: nat, tag: u32)
    requires
        len > MAX_BUFFER_SIZE,
    ensures
        m.render_result(len, tag) == Err::<usize, GpuError>(GpuError::BufferTooLarge),
        m.render_state(len, tag) == m,
{
}

/// A job id handed out by a submission was not issued before, is greater
/// than every id issued before, and is issued afterwards: ids are pairwise
/// distinct and increase in the order they are issued.
pub proof fn lemma_fresh_id_exceeds_issued(m: GpuModel, cmd: GpuCmd, q: usize, earlier: usize)
    requires
        m.submit_result(cmd, q) is Ok,
        m.issued(earlier),
    ensures
        !m.issued(m.submit_result(cmd, q)->Ok_0),
        earlier < m.submit_result(cmd, q)->Ok_0,
        m.submit_state(cmd, q).issued(earlier),
        m.submit_state(cmd, q).issued(m.submit_result(cmd, q)->Ok_0),
{
}

/// Of two submissions in a row, the second gets the greater id.
pub proof fn lemma_consecutive_ids_increase(
    m: GpuModel,
    c1: GpuCmd,
    q1: usize,
    c2: GpuCmd,
    q2: usize,
)
    requires
        m.submit_result(c1, q1) is Ok,
        m.submit_state(c1, q1).submit_result(c2, q2) is Ok,
    ensures
        m.submit_result(c1, q1)->Ok_0 < m.submit_state(c1, q1).submit_result(c2, q2)->Ok_0,
{
}

/// On a ready device, two submissions in a row to one queue with room for
/// both succeed with distinct ids. That queue gains exactly the two entries,
/// each whole and in the order submitted; the other queues are left alone.
/// (Whoever shares a driver serialises such submissions through `&mut`.)
pub proof fn lemma_two_submissions_same_queue(m: GpuModel, c1: GpuCmd, c2: GpuCmd, q: usize)
    requires
        m.wf(),
        m.ready,
        q < NUM_QUEUES,
        m.queues[q as int].len() + 2 <= QUEUE_CAPACITY,
        m.jobs.len() + 2 < usize::MAX,
    ensures
        m.submit_result(c1, q) is Ok,
        m.submit_state(c1, q).submit_result(c2, q) is Ok,
        m.submit_result(c1, q)->Ok_0 != m.submit_state(c1, q).submit_result(c2, q)->Ok_0,
        m.submit_state(c1, q).submit_state(c2, q).queues[q as int] == m.queues[q as int]
            + seq![
            QueueEntry { job_id: m.submit_result(c1, q)->Ok_0, code: cmd_code(c1) },
            QueueEntry {
                job_id: m.submit_state(c1, q).submit_result(c2, q)->Ok_0,
                code: cmd_code(c2),
            },
        ],
        forall|p: int|
            0 <= p < NUM_QUEUES && p != q ==> #[trigger] m.submit_state(c1, q).submit_state(
                c2,
                q,
            ).queues[p] == m.queues[p],
{
    let m1 = m.submit_state(c1, q);
    let m2 = m1.submit_state(c2, q);
    assert(m2.queues[q as int] =~= m.queues[q as int] + seq![
        QueueEntry { job_id: m.submit_result(c1, q)->Ok_0, code: cmd_code(c1) },
        QueueEntry { job_id: m1.submit_result(c2, q)->Ok_0, code: cmd_code(c2) },
    ]);
}

/// Completions neither issue nor forget job ids.
pub proof fn lemma_completion_keeps_issued(m: GpuModel, q: usize, failure: Option<u32>, id: usize)
    requires
        m.wf(),
    ensures
        m.completion_state(q, failure).issued(id) == m.issued(id),
{
    if m.completion_result(q) is Ok {
        let k = m.queues[q as int][0];
        assert(1 <= k.job_id <= m.jobs.len());
    }
}

/// Asking for the state of an id that was never issued gives `UnknownJob`.
pub proof fn lemma_unissued_is_unknown(m: GpuModel, id: usize)
    requires
        !m.issued(id),
    ensures
        m.job_status(id) == Err::<crate::gpu::JobState, GpuError>(GpuError::UnknownJob),
{
}

} // verus!
