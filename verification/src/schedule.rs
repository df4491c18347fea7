use vstd::prelude::*;
use crate::display::{
    advanced, after_wait, finalized, wait_nanos, ActionView, Playhead, Stage,
};
use crate::types::StrFrameView;

verus! {

/// The time in nanoseconds that the first `k` frames of a pass take, where
/// writing frame `j` takes `elapsed[j]`: for each frame the writing and the
/// wait after it.
pub open spec fn pass_time_first(frames: Seq<StrFrameView>, elapsed: Seq<u128>, k: nat) -> int
    decreases k,
{
    if k == 0 {
        0
    } else {
        pass_time_first(frames, elapsed, (k - 1) as nat) + elapsed[k - 1] + wait_nanos(
            frames[k - 1].delay,
            elapsed[k - 1],
        )
    }
}

/// The time in nanoseconds that one pass over `frames` takes.
pub open spec fn pass_time(frames: Seq<StrFrameView>, elapsed: Seq<u128>) -> int {
    pass_time_first(frames, elapsed, frames.len())
}

/// The delays of the first `k` of `frames` together, in nanoseconds.
pub open spec fn total_delay_first(frames: Seq<StrFrameView>, k: nat) -> int
    decreases k,
{
    if k == 0 {
        0
    } else {
        total_delay_first(frames, (k - 1) as nat) + frames[k - 1].delay * 1_000_000
    }
}

/// The delays of `frames` together, in nanoseconds.
pub open spec fn total_delay(frames: Seq<StrFrameView>) -> int {
    total_delay_first(frames, frames.len())
}

/// The wait makes up for the time that the writing took: writing and wait
/// together last as long as the frame's delay. Where the writing alone took
/// that long or longer, the wait is zero.
pub proof fn lemma_wait_compensates(delay_ms: u64, elapsed: u128)
    ensures
        elapsed <= delay_ms * 1_000_000 ==> elapsed + wait_nanos(delay_ms, elapsed) == delay_ms
            * 1_000_000,
        elapsed >= delay_ms * 1_000_000 ==> wait_nanos(delay_ms, elapsed) == 0,
{
}

proof fn lemma_first_take_their_delays(frames: Seq<StrFrameView>, elapsed: Seq<u128>, k: nat)
    requires
        k <= frames.len(),
        elapsed.len() == frames.len(),
        forall|i: int| 0 <= i < frames.len() ==> elapsed[i] <= frames[i].delay * 1_000_000,
    ensures
        pass_time_first(frames, elapsed, k) == total_delay_first(frames, k),
    decreases k,
{
    if k > 0 {
        lemma_first_take_their_delays(frames, elapsed, (k - 1) as nat);
    }
}

/// A pass in which no frame takes longer to write than its delay lasts takes
/// exactly as long as the delays together.
pub proof fn lemma_pass_takes_its_delays(frames: Seq<StrFrameView>, elapsed: Seq<u128>)
    requires
        elapsed.len() == frames.len(),
        forall|i: int| 0 <= i < frames.len() ==> elapsed[i] <= frames[i].delay * 1_000_000,
    ensures
        pass_time(frames, elapsed) == total_delay(frames),
{
    lemma_first_take_their_delays(frames, elapsed, frames.len());
}

proof fn lemma_uniform_delays(frames: Seq<StrFrameView>, delay_ms: u64, k: nat)
    requires
        k <= frames.len(),
        forall|i: int| 0 <= i < frames.len() ==> frames[i].delay == delay_ms,
    ensures
        total_delay_first(frames, k) == k * (delay_ms * 1_000_000),
    decreases k,
{
    let each: int = delay_ms * 1_000_000;
    if k > 0 {
        lemma_uniform_delays(frames, delay_ms, (k - 1) as nat);
        assert(k * each == (k - 1) * each + each) by (nonlinear_arith);
    } else {
        assert(k * each == 0) by (nonlinear_arith)
            requires
                k == 0,
        ;
    }
}

/// A pass over `frames` that each have the delay `delay_ms`, none of which
/// takes longer to write than that, lasts the number of frames times the
/// delay.
pub proof fn lemma_uniform_pass(frames: Seq<StrFrameView>, elapsed: Seq<u128>, delay_ms: u64)
    requires
        elapsed.len() == frames.len(),
        forall|i: int| 0 <= i < frames.len() ==> frames[i].delay == delay_ms,
        forall|i: int| 0 <= i < frames.len() ==> elapsed[i] <= delay_ms * 1_000_000,
    ensures
        pass_time(frames, elapsed) == frames.len() * (delay_ms * 1_000_000),
{
    lemma_pass_takes_its_delays(frames, elapsed);
    lemma_uniform_delays(frames, delay_ms, frames.len());
}

/// The two steps that show a frame, from its `Frame` stage: the write, then
/// the wait for a write that took `elapsed` nanoseconds. The result is the
/// frames and the state after the wait, and the nanoseconds slept.
pub open spec fn round(frames: Seq<StrFrameView>, looping: bool, head: Playhead, elapsed: u128) -> (
    Seq<StrFrameView>,
    Playhead,
    int,
) {
    let written = advanced(frames, looping, head, 0);
    let waited = advanced(written.0, looping, written.1, elapsed);
    (
        waited.0,
        waited.1,
        match waited.2 {
            ActionView::Sleep(nanos) => nanos as int,
            _ => 0,
        },
    )
}

/// The first `k` rounds of a pass that starts at the first frame, with the
/// frames placed at `anchor`: the frames and the state after them, and the
/// time that they took, writing and sleeping together.
pub open spec fn rounds(
    frames: Seq<StrFrameView>,
    looping: bool,
    anchor: (usize, usize),
    elapsed: Seq<u128>,
    k: nat,
) -> (Seq<StrFrameView>, Playhead, int)
    decreases k,
{
    if k == 0 {
        (frames, Playhead { stage: Stage::Frame(0), anchor }, 0)
    } else {
        let before = rounds(frames, looping, anchor, elapsed, (k - 1) as nat);
        let this = round(before.0, looping, before.1, elapsed[k - 1]);
        (this.0, this.1, before.2 + elapsed[k - 1] + this.2)
    }
}

/// The two steps that show frame `i`: the frame is written, placed at the
/// anchor; then the wait that makes up for the `elapsed` time of that write is
/// slept; the next frame in order follows, after the last one the first where
/// playback loops, else the teardown. Only frame `i` changes, and of it only
/// the positioned text.
pub proof fn lemma_frame_round(
    frames: Seq<StrFrameView>,
    looping: bool,
    head: Playhead,
    i: usize,
    elapsed: u128,
)
    requires
        head.stage == Stage::Frame(i),
        i < frames.len(),
    ensures
        advanced(frames, looping, head, 0).2 == ActionView::Write(
            finalized(frames[i as int], head.anchor).final_frame->0,
        ),
        round(frames, looping, head, elapsed) == (
            frames.update(i as int, finalized(frames[i as int], head.anchor)),
            Playhead { stage: after_wait(i, frames.len(), looping), anchor: head.anchor },
            wait_nanos(frames[i as int].delay, elapsed) as int,
        ),
{
}

/// A pass shows the frames in their order and absorbs the time of each write.
/// After the first `k` rounds, frame `k` is next; after the last frame the
/// first again where playback loops, else the teardown. No frame has lost a
/// line or changed its delay, and the rounds took the time that
/// [`pass_time_first`] gives.
pub proof fn lemma_pass_in_order(
    frames: Seq<StrFrameView>,
    looping: bool,
    anchor: (usize, usize),
    elapsed: Seq<u128>,
    k: nat,
)
    requires
        1 <= k <= frames.len() <= usize::MAX,
        elapsed.len() == frames.len(),
    ensures
        ({
            let after = rounds(frames, looping, anchor, elapsed, k);
            &&& after.0.len() == frames.len()
            &&& forall|j: int|
                0 <= j < frames.len() ==> (#[trigger] after.0[j]).delay == frames[j].delay
                    && after.0[j].raw_frame == frames[j].raw_frame && after.0[j].size
                    == frames[j].size
            &&& after.1.anchor == anchor
            &&& after.1.stage == after_wait((k - 1) as usize, frames.len(), looping)
            &&& after.2 == pass_time_first(frames, elapsed, k)
        }),
    decreases k,
{
    let before = rounds(frames, looping, anchor, elapsed, (k - 1) as nat);
    if k > 1 {
        lemma_pass_in_order(frames, looping, anchor, elapsed, (k - 1) as nat);
    }
    assert(before.1.stage == Stage::Frame((k - 1) as usize));
    assert(before.0[k - 1].delay == frames[k - 1].delay);
    lemma_frame_round(before.0, looping, before.1, (k - 1) as usize, elapsed[k - 1]);
    let after = rounds(frames, looping, anchor, elapsed, k);
    assert(before.2 == pass_time_first(frames, elapsed, (k - 1) as nat));
    assert forall|j: int| 0 <= j < frames.len() implies (#[trigger] after.0[j]).delay
        == frames[j].delay && after.0[j].raw_frame == frames[j].raw_frame && after.0[j].size
        == frames[j].size by {
        assert(before.0[j].delay == frames[j].delay);
    }
}

/// One pass without looping over frames that each have the delay `delay_ms`,
/// none of which takes longer to write than that, ends at the teardown after
/// the number of frames times the delay.
pub proof fn lemma_uniform_pass_ends_on_time(
    frames: Seq<StrFrameView>,
    anchor: (usize, usize),
    elapsed: Seq<u128>,
    delay_ms: u64,
)
    requires
        1 <= frames.len() <= usize::MAX,
        elapsed.len() == frames.len(),
        forall|i: int| 0 <= i < frames.len() ==> frames[i].delay == delay_ms,
        forall|i: int| 0 <= i < frames.len() ==> elapsed[i] <= delay_ms * 1_000_000,
    ensures
        rounds(frames, false, anchor, elapsed, frames.len()).1.stage == Stage::Teardown,
        rounds(frames, false, anchor, elapsed, frames.len()).2 == frames.len() * (delay_ms
            * 1_000_000),
{
    lemma_pass_in_order(frames, false, anchor, elapsed, frames.len());
    lemma_uniform_pass(frames, elapsed, delay_ms);
}

/// Once the teardown has been written, every further step asks to stop and
/// changes nothing.
pub proof fn lemma_finished_stays(
    frames: Seq<StrFrameView>,
    looping: bool,
    head: Playhead,
    elapsed: u128,
)
    requires
        head.stage == Stage::Finished,
    ensures
        advanced(frames, looping, head, elapsed) == (frames, head, ActionView::Quit),
{
}

} // verus!
