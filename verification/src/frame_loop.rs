//! What a redraw tick does: the decisions of the frame loop, as a state machine from a
//! state and an event to the next state and the actions to perform. Whoever drives the
//! window and the GPU performs the actions and hands back what came of them.

use crate::framebuffer::{extent_is_empty, Acquisition};
use vstd::prelude::*;

verus! {

/// Where a tick stands.
#[derive(Clone, Copy, Debug, PartialEq, Eq, Structural)]
pub enum Phase {
    /// No tick is under way.
    Idle,
    /// The next swapchain image was asked for.
    Acquiring,
    /// The scene is updated and the commands are recorded.
    Recording,
    /// The commands were submitted, and the outcome is awaited.
    Submitted,
}

/// What the next submission waits for.
#[derive(Clone, Copy, Debug, PartialEq, Eq, Structural)]
pub enum CompletionToken {
    /// Nothing: no earlier frame is in flight.
    Fresh,
    /// The frame that was submitted last.
    LastFrame,
}

/// How a submission ended.
#[derive(Clone, Copy, Debug, PartialEq, Eq, Structural)]
pub enum SubmitOutcome {
    /// The frame was submitted and its image queued for presentation.
    Presented,
    /// The surface was found out of date when presenting.
    OutOfDate,
    /// Any other error.
    Failed,
}

/// Something that happened.
#[derive(Clone, Copy, Debug, PartialEq, Eq)]
pub enum Event {
    /// The window is to be closed.
    CloseRequested,
    /// The window has a new size.
    Resized,
    /// The window is to be drawn; `extent` is its size now.
    RedrawRequested { extent: [u32; 2] },
    /// The swapchain answered the request for its next image.
    Acquired { acquisition: Acquisition },
    /// The commands of the frame are recorded.
    Recorded,
    /// The submission ended.
    Submitted { outcome: SubmitOutcome },
}

/// Something to do.
#[derive(Clone, Copy, Debug, PartialEq, Eq)]
pub enum Action {
    /// Wait until the device is idle, and leave the loop.
    Exit,
    /// Reclaim what the frames that have completed no longer use, without waiting.
    CleanupFinished,
    /// Recreate the swapchain at this extent, and rebuild what is sized by it.
    RecreateSwapchain { extent: [u32; 2] },
    /// Ask the swapchain for its next image.
    AcquireImage,
    /// Update the scene, and record the commands that draw it into this image.
    Record { image_index: u32 },
    /// Submit the commands, to run after `wait_for` and the acquisition, and present the image.
    Submit { image_index: u32, wait_for: CompletionToken },
    /// Keep the completion token of the frame that was just submitted.
    KeepToken,
    /// Drop the frame and start from a fresh completion token.
    ResetToken,
}

/// The state of the frame loop.
#[derive(Clone, Copy, Debug, PartialEq, Eq, Structural)]
pub struct FrameScheduler {
    pub phase: Phase,
    /// The swapchain is to be recreated before the next image is acquired.
    pub recreate_swapchain: bool,
    /// What the next submission waits for.
    pub token: CompletionToken,
    /// The image of the tick that is under way, once it is acquired.
    pub image_index: u32,
}

impl FrameScheduler {
    /// The state before the first tick.
    pub open spec fn initial() -> FrameScheduler {
        FrameScheduler {
            phase: Phase::Idle,
            recreate_swapchain: false,
            token: CompletionToken::Fresh,
            image_index: 0,
        }
    }

    /// The state after a redraw was requested, and what to do. Only an idle loop starts a
    /// tick. What has completed is reclaimed first. A window with a zero dimension is not
    /// drawn, and nothing is rebuilt for it. Else the swapchain is recreated if that was
    /// asked for, and the next image is acquired.
    pub open spec fn on_redraw(self, extent: [u32; 2]) -> (FrameScheduler, Seq<Action>) {
        if self.phase != Phase::Idle {
            (self, Seq::empty())
        } else if extent_is_empty(extent) {
            (self, seq![Action::CleanupFinished])
        } else if self.recreate_swapchain {
            (
                FrameScheduler { phase: Phase::Acquiring, recreate_swapchain: false, ..self },
                seq![
                    Action::CleanupFinished,
                    Action::RecreateSwapchain { extent },
                    Action::AcquireImage,
                ],
            )
        } else {
            (
                FrameScheduler { phase: Phase::Acquiring, ..self },
                seq![Action::CleanupFinished, Action::AcquireImage],
            )
        }
    }

    /// The state after the swapchain answered, and what to do. A stale surface ends the
    /// tick and asks for a rebuild. Any other failure ends the tick and asks for nothing:
    /// the next tick tries again. An image is recorded into; if it is suboptimal, a rebuild
    /// is asked for as well, for the next tick.
    pub open spec fn on_acquired(self, acquisition: Acquisition) -> (FrameScheduler, Seq<Action>) {
        if self.phase != Phase::Acquiring {
            (self, Seq::empty())
        } else {
            match acquisition {
                Acquisition::Stale => (
                    FrameScheduler { phase: Phase::Idle, recreate_swapchain: true, ..self },
                    Seq::empty(),
                ),
                Acquisition::Failed => (FrameScheduler { phase: Phase::Idle, ..self }, Seq::empty()),
                Acquisition::Ready { image_index, suboptimal } => (
                    FrameScheduler {
                        phase: Phase::Recording,
                        recreate_swapchain: self.recreate_swapchain || suboptimal,
                        image_index,
                        ..self
                    },
                    seq![Action::Record { image_index }],
                ),
            }
        }
    }

    /// The state after the commands were recorded, and what to do: submit them.
    pub open spec fn on_recorded(self) -> (FrameScheduler, Seq<Action>) {
        if self.phase != Phase::Recording {
            (self, Seq::empty())
        } else {
            (
                FrameScheduler { phase: Phase::Submitted, ..self },
                seq![Action::Submit { image_index: self.image_index, wait_for: self.token }],
            )
        }
    }

    /// The state after the submission ended, and what to do. The tick is over. After a
    /// success the next frame waits for this one. After an error the frame is dropped and
    /// the next one waits for nothing; a surface out of date asks for a rebuild as well.
    pub open spec fn on_submitted(self, outcome: SubmitOutcome) -> (FrameScheduler, Seq<Action>) {
        if self.phase != Phase::Submitted {
            (self, Seq::empty())
        } else {
            match outcome {
                SubmitOutcome::Presented => (
                    FrameScheduler { phase: Phase::Idle, token: CompletionToken::LastFrame, ..self },
                    seq![Action::KeepToken],
                ),
                SubmitOutcome::OutOfDate => (
                    FrameScheduler {
                        phase: Phase::Idle,
                        recreate_swapchain: true,
                        token: CompletionToken::Fresh,
                        ..self
                    },
                    seq![Action::ResetToken],
                ),
                SubmitOutcome::Failed => (
                    FrameScheduler { phase: Phase::Idle, token: CompletionToken::Fresh, ..self },
                    seq![Action::ResetToken],
                ),
            }
        }
    }

    /// The state after `event`, and what to do. An event that does not belong to the phase
    /// changes nothing and asks for nothing.
    pub open spec fn step(self, event: Event) -> (FrameScheduler, Seq<Action>) {
        match event {
            Event::CloseRequested => (self, seq![Action::Exit]),
            Event::Resized => (FrameScheduler { recreate_swapchain: true, ..self }, Seq::empty()),
            Event::RedrawRequested { extent } => self.on_redraw(extent),
            Event::Acquired { acquisition } => self.on_acquired(acquisition),
            Event::Recorded => self.on_recorded(),
            Event::Submitted { outcome } => self.on_submitted(outcome),
        }
    }

    /// The state after `events`, one after the other, and everything to do, in order.
    pub open spec fn run(self, events: Seq<Event>) -> (FrameScheduler, Seq<Action>)
        decreases events.len(),
    {
        if events.len() == 0 {
            (self, Seq::empty())
        } else {
            let (before, actions) = self.run(events.drop_last());
            let (after, more) = before.step(events.last());
            (after, actions + more)
        }
    }

    /// The scheduler before the first tick.
    pub fn new() -> (scheduler: FrameScheduler)
        ensures
            scheduler == FrameScheduler::initial(),
    {
        FrameScheduler {
            phase: Phase::Idle,
            recreate_swapchain: false,
            token: CompletionToken::Fresh,
            image_index: 0,
        }
    }

    /// Asks for the swapchain to be recreated before the next image is acquired.
    pub fn resize(&mut self)
        ensures
            *final(self) == old(self).step(Event::Resized).0,
    {
        self.recreate_swapchain = true;
    }

    /// Takes `event`: moves to the next state and returns what to do, in order.
    pub fn handle(&mut self, event: Event) -> (actions: Vec<Action>)
        ensures
            (*final(self), actions@) == old(self).step(event),
    {
        let mut actions: Vec<Action> = Vec::new();
        match event {
            Event::CloseRequested => {
                actions.push(Action::Exit);
            },
            Event::Resized => {
                self.recreate_swapchain = true;
            },
            Event::RedrawRequested { extent } => {
                if self.phase == Phase::Idle {
                    actions.push(Action::CleanupFinished);
                    if !(extent[0] == 0 || extent[1] == 0) {
                        if self.recreate_swapchain {
                            actions.push(Action::RecreateSwapchain { extent });
                            self.recreate_swapchain = false;
                        }
                        actions.push(Action::AcquireImage);
                        self.phase = Phase::Acquiring;
                    }
                }
            },
            Event::Acquired { acquisition } => {
                if self.phase == Phase::Acquiring {
                    match acquisition {
                        Acquisition::Stale => {
                            self.recreate_swapchain = true;
                            self.phase = Phase::Idle;
                        },
                        Acquisition::Failed => {
                            self.phase = Phase::Idle;
                        },
                        Acquisition::Ready { image_index, suboptimal } => {
                            if suboptimal {
                                self.recreate_swapchain = true;
                            }
                            self.image_index = image_index;
                            self.phase = Phase::Recording;
                            actions.push(Action::Record { image_index });
                        },
                    }
                }
            },
            Event::Recorded => {
                if self.phase == Phase::Recording {
                    actions.push(
                        Action::Submit { image_index: self.image_index, wait_for: self.token },
                    );
                    self.phase = Phase::Submitted;
                }
            },
            Event::Submitted { outcome } => {
                if self.phase == Phase::Submitted {
                    match outcome {
                        SubmitOutcome::Presented => {
                            self.token = CompletionToken::LastFrame;
                            actions.push(Action::KeepToken);
                        },
                        SubmitOutcome::OutOfDate => {
                            self.recreate_swapchain = true;
                            self.token = CompletionToken::Fresh;
                            actions.push(Action::ResetToken);
                        },
                        SubmitOutcome::Failed => {
                            self.token = CompletionToken::Fresh;
                            actions.push(Action::ResetToken);
                        },
                    }
                    self.phase = Phase::Idle;
                }
            },
        }
        assert(actions@ =~= old(self).step(event).1);
        actions
    }

    /// Takes `events` one after the other, and returns everything to do, in order.
    pub fn handle_all(&mut self, events: &Vec<Event>) -> (actions: Vec<Action>)
        ensures
            (*final(self), actions@) == old(self).run(events@),
    {
        let mut actions: Vec<Action> = Vec::new();
        let mut done: usize = 0;
        while done < events.len()
            invariant
                done <= events@.len(),
                (*self, actions@) == old(self).run(events@.take(done as int)),
            decreases events@.len() - done,
        {
            let mut more = self.handle(events[done]);
            actions.append(&mut more);
            proof {
                assert(events@.take(done + 1).drop_last() =~= events@.take(done as int));
            }
            done += 1;
        }
        assert(events@.take(done as int) =~= events@);
        actions
    }
}

/// The number of submissions among `actions`.
pub open spec fn count_submits(actions: Seq<Action>) -> nat
    decreases actions.len(),
{
    if actions.len() == 0 {
        0
    } else {
        count_submits(actions.drop_last()) + if actions.last() is Submit {
            1nat
        } else {
            0nat
        }
    }
}

/// The number of rebuilds of the swapchain among `actions`.
pub open spec fn count_rebuilds(actions: Seq<Action>) -> nat
    decreases actions.len(),
{
    if actions.len() == 0 {
        0
    } else {
        count_rebuilds(actions.drop_last()) + if actions.last() is RecreateSwapchain {
            1nat
        } else {
            0nat
        }
    }
}

/// The event asks for a rebuild of the swapchain: a resize, a stale or suboptimal
/// acquisition, a presentation that found the surface out of date.
pub open spec fn asks_for_rebuild(event: Event) -> bool {
    match event {
        Event::Resized => true,
        Event::Acquired { acquisition } => match acquisition {
            Acquisition::Stale => true,
            Acquisition::Failed => false,
            Acquisition::Ready { suboptimal, .. } => suboptimal,
        },
        Event::Submitted { outcome } => outcome == SubmitOutcome::OutOfDate,
        _ => false,
    }
}

/// The step rebuilds the swapchain: an idle loop, for which a rebuild was asked, is to
/// redraw a window without a zero dimension.
pub open spec fn rebuilds(state: FrameScheduler, event: Event) -> bool {
    &&& state.phase == Phase::Idle
    &&& state.recreate_swapchain
    &&& event matches Event::RedrawRequested { extent }
    &&& !extent_is_empty(extent)
}

/// The number of events among `events` that can ask for a rebuild.
pub open spec fn count_rebuild_requests(events: Seq<Event>) -> nat
    decreases events.len(),
{
    if events.len() == 0 {
        0
    } else {
        count_rebuild_requests(events.drop_last()) + if asks_for_rebuild(events.last()) {
            1nat
        } else {
            0nat
        }
    }
}

/// The number of ended submissions among `events`.
pub open spec fn count_outcomes(events: Seq<Event>) -> nat
    decreases events.len(),
{
    if events.len() == 0 {
        0
    } else {
        count_outcomes(events.drop_last()) + if events.last() is Submitted {
            1nat
        } else {
            0nat
        }
    }
}

/// None of `events` requests a redraw.
pub open spec fn without_redraw(events: Seq<Event>) -> bool {
    forall|i: int| 0 <= i < events.len() ==> !((#[trigger] events[i]) is RedrawRequested)
}

/// Counting submissions in two runs of actions is counting them in both together.
pub proof fn count_submits_concat(first: Seq<Action>, second: Seq<Action>)
    ensures
        count_submits(first + second) == count_submits(first) + count_submits(second),
    decreases second.len(),
{
    if second.len() == 0 {
        assert(first + second =~= first);
    } else {
        assert((first + second).drop_last() =~= first + second.drop_last());
        count_submits_concat(first, second.drop_last());
    }
}

/// Counting rebuilds in two runs of actions is counting them in both together.
pub proof fn count_rebuilds_concat(first: Seq<Action>, second: Seq<Action>)
    ensures
        count_rebuilds(first + second) == count_rebuilds(first) + count_rebuilds(second),
    decreases second.len(),
{
    if second.len() == 0 {
        assert(first + second =~= first);
    } else {
        assert((first + second).drop_last() =~= first + second.drop_last());
        count_rebuilds_concat(first, second.drop_last());
    }
}

/// One step submits only out of the recording phase, and then once. It rebuilds only
/// where `rebuilds` says so, once, and takes the request back. A request for a rebuild
/// comes up only by an event that asks for one.
pub proof fn step_counts(state: FrameScheduler, event: Event)
    ensures
        count_submits(state.step(event).1) == if state.phase == Phase::Recording && event is Recorded {
            1nat
        } else {
            0nat
        },
        count_rebuilds(state.step(event).1) == if rebuilds(state, event) {
            1nat
        } else {
            0nat
        },
        rebuilds(state, event) ==> !state.step(event).0.recreate_swapchain,
        state.step(event).0.recreate_swapchain && !state.recreate_swapchain ==> asks_for_rebuild(event),
{
    let actions = state.step(event).1;
    reveal_with_fuel(count_submits, 4);
    reveal_with_fuel(count_rebuilds, 4);
    if actions.len() == 1 {
        assert(actions.drop_last() =~= Seq::<Action>::empty());
    } else if actions.len() == 2 {
        assert(actions.drop_last().drop_last() =~= Seq::<Action>::empty());
    } else if actions.len() == 3 {
        assert(actions.drop_last().drop_last().drop_last() =~= Seq::<Action>::empty());
    }
}

/// If the acquisition reports a stale surface, nothing is recorded or submitted in that
/// tick: the tick ends at once, a rebuild is asked for, and until the next redraw is
/// requested no event brings a recording or a submission about.
pub proof fn stale_acquisition_submits_nothing(state: FrameScheduler, later: Seq<Event>)
    requires
        state.phase == Phase::Acquiring,
        without_redraw(later),
    ensures
        ({
            let (stale, at_once) = state.step(Event::Acquired { acquisition: Acquisition::Stale });
            let (end, actions) = stale.run(later);
            &&& at_once == Seq::<Action>::empty()
            &&& stale.phase == Phase::Idle
            &&& stale.recreate_swapchain
            &&& end.phase == Phase::Idle
            &&& end.recreate_swapchain
            &&& forall|i: int|
                0 <= i < actions.len() ==> (#[trigger] actions[i]) is Exit
        }),
{
    let stale = state.step(Event::Acquired { acquisition: Acquisition::Stale }).0;
    idle_without_redraw_stays_idle(stale, later);
}

/// If the acquisition fails with any other error, the loop goes on: the tick ends at
/// once with nothing recorded or submitted, no rebuild is asked for on that account, the
/// completion token stays, and until the next redraw is requested no event brings a
/// recording or a submission about. The next redraw starts a tick as any other.
pub proof fn failed_acquisition_submits_nothing(
    state: FrameScheduler,
    later: Seq<Event>,
    extent: [u32; 2],
)
    requires
        state.phase == Phase::Acquiring,
        without_redraw(later),
        !extent_is_empty(extent),
    ensures
        ({
            let (failed, at_once) = state.step(Event::Acquired { acquisition: Acquisition::Failed });
            let (end, actions) = failed.run(later);
            let (next, retry) = end.step(Event::RedrawRequested { extent });
            &&& at_once == Seq::<Action>::empty()
            &&& failed == FrameScheduler { phase: Phase::Idle, ..state }
            &&& end.phase == Phase::Idle
            &&& end.token == state.token
            &&& forall|i: int| 0 <= i < actions.len() ==> (#[trigger] actions[i]) is Exit
            &&& next.phase == Phase::Acquiring
            &&& retry.len() >= 2
            &&& retry.last() == Action::AcquireImage
        }),
{
    let failed = state.step(Event::Acquired { acquisition: Acquisition::Failed }).0;
    idle_without_redraw_stays_idle(failed, later);
}

/// An idle loop stays idle until a redraw is requested: whatever else happens, nothing is
/// acquired, recorded, submitted or rebuilt, and a request for a rebuild is not lost.
pub proof fn idle_without_redraw_stays_idle(state: FrameScheduler, events: Seq<Event>)
    requires
        state.phase == Phase::Idle,
        without_redraw(events),
    ensures
        state.run(events).0.phase == Phase::Idle,
        state.recreate_swapchain ==> state.run(events).0.recreate_swapchain,
        state.run(events).0.token == state.token,
        forall|i: int|
            0 <= i < state.run(events).1.len() ==> (#[trigger] state.run(events).1[i]) is Exit,
    decreases events.len(),
{
    if events.len() > 0 {
        let earlier = events.drop_last();
        assert forall|i: int| 0 <= i < earlier.len() implies !((#[trigger] earlier[i]) is RedrawRequested) by {
            assert(earlier[i] == events[i]);
        }
        idle_without_redraw_stays_idle(state, earlier);
        assert(!(events[events.len() - 1] is RedrawRequested));
    }
}

/// A redraw of a window with a zero dimension is skipped: the state stays as it is,
/// nothing is rebuilt, acquired, recorded or submitted. An idle loop only reclaims what
/// has completed.
pub proof fn empty_extent_skips_the_tick(state: FrameScheduler, extent: [u32; 2])
    requires
        extent_is_empty(extent),
    ensures
        state.step(Event::RedrawRequested { extent }).0 == state,
        state.step(Event::RedrawRequested { extent }).1 == if state.phase == Phase::Idle {
            seq![Action::CleanupFinished]
        } else {
            Seq::<Action>::empty()
        },
{
}

/// The four events of a tick in which everything succeeds.
pub open spec fn successful_tick(extent: [u32; 2], image_index: u32) -> Seq<Event> {
    seq![
        Event::RedrawRequested { extent },
        Event::Acquired { acquisition: Acquisition::Ready { image_index, suboptimal: false } },
        Event::Recorded,
        Event::Submitted { outcome: SubmitOutcome::Presented },
    ]
}

/// The actions of a tick in which everything succeeds, without those of a rebuild.
pub open spec fn successful_tick_actions(image_index: u32, wait_for: CompletionToken) -> Seq<Action> {
    seq![
        Action::AcquireImage,
        Action::Record { image_index },
        Action::Submit { image_index, wait_for },
        Action::KeepToken,
    ]
}

/// A tick in which everything succeeds, for a window without a zero dimension, out of an
/// idle loop: if a rebuild was asked for, the swapchain is rebuilt exactly once, at the
/// window's extent and before the image is acquired, and the request is gone afterwards;
/// if none was asked for, nothing is rebuilt. Either way one frame is recorded and
/// submitted, and the next frame waits for it.
pub proof fn successful_tick_rebuilds_once(state: FrameScheduler, extent: [u32; 2], image_index: u32)
    requires
        state.phase == Phase::Idle,
        !extent_is_empty(extent),
    ensures
        ({
            let (end, actions) = state.run(successful_tick(extent, image_index));
            &&& end == FrameScheduler {
                phase: Phase::Idle,
                recreate_swapchain: false,
                token: CompletionToken::LastFrame,
                image_index,
            }
            &&& actions == if state.recreate_swapchain {
                seq![Action::CleanupFinished, Action::RecreateSwapchain { extent }]
            } else {
                seq![Action::CleanupFinished]
            } + successful_tick_actions(image_index, state.token)
            &&& count_rebuilds(actions) == if state.recreate_swapchain {
                1nat
            } else {
                0nat
            }
            &&& count_submits(actions) == 1
        }),
{
    let events = successful_tick(extent, image_index);
    let e3 = events.drop_last();
    let e2 = e3.drop_last();
    let e1 = e2.drop_last();
    let e0 = e1.drop_last();
    assert(e0 =~= Seq::<Event>::empty());
    assert(state.run(e0) == (state, Seq::<Action>::empty()));
    let (s1, a1) = state.run(e1);
    assert(e1.last() == events[0]);
    let (s2, a2) = state.run(e2);
    assert(e2.last() == events[1]);
    let (s3, a3) = state.run(e3);
    assert(e3.last() == events[2]);
    let (s4, a4) = state.run(events);
    assert(events.last() == events[3]);
    let expected = if state.recreate_swapchain {
        seq![Action::CleanupFinished, Action::RecreateSwapchain { extent }]
    } else {
        seq![Action::CleanupFinished]
    } + successful_tick_actions(image_index, state.token);
    assert(a4 =~= expected);
    step_counts(state, events[0]);
    step_counts(s1, events[1]);
    step_counts(s2, events[2]);
    step_counts(s3, events[3]);
    count_rebuilds_concat(Seq::<Action>::empty(), state.step(events[0]).1);
    count_rebuilds_concat(a1, s1.step(events[1]).1);
    count_rebuilds_concat(a2, s2.step(events[2]).1);
    count_rebuilds_concat(a3, s3.step(events[3]).1);
    count_submits_concat(Seq::<Action>::empty(), state.step(events[0]).1);
    count_submits_concat(a1, s1.step(events[1]).1);
    count_submits_concat(a2, s2.step(events[2]).1);
    count_submits_concat(a3, s3.step(events[3]).1);
}

/// The events of a window that is first drawn with a zero dimension, then resized, then
/// drawn at a size without a zero dimension, in a tick in which everything succeeds.
pub open spec fn resize_after_skipped_tick(empty: [u32; 2], extent: [u32; 2], image_index: u32) -> Seq<
    Event,
> {
    seq![Event::RedrawRequested { extent: empty }, Event::Resized] + successful_tick(
        extent,
        image_index,
    )
}

/// A window with a zero dimension is not drawn and nothing is rebuilt for it; once it is
/// resized to an extent without a zero dimension, the swapchain is rebuilt exactly once, at
/// that extent, before the frame is submitted, and exactly one frame is submitted.
pub proof fn resize_after_skipped_tick_rebuilds_once(
    state: FrameScheduler,
    empty: [u32; 2],
    extent: [u32; 2],
    image_index: u32,
)
    requires
        state.phase == Phase::Idle,
        extent_is_empty(empty),
        !extent_is_empty(extent),
    ensures
        ({
            let (end, actions) = state.run(resize_after_skipped_tick(empty, extent, image_index));
            &&& actions == seq![
                Action::CleanupFinished,
                Action::CleanupFinished,
                Action::RecreateSwapchain { extent },
            ] + successful_tick_actions(image_index, state.token)
            &&& count_rebuilds(actions) == 1
            &&& count_submits(actions) == 1
            &&& end.phase == Phase::Idle
            &&& !end.recreate_swapchain
        }),
{
    let skipped = seq![Event::RedrawRequested { extent: empty }, Event::Resized];
    let tick = successful_tick(extent, image_index);
    run_concat(state, skipped, tick);
    let first = skipped.drop_last();
    assert(first.drop_last() =~= Seq::<Event>::empty());
    assert(state.run(first.drop_last()) == (state, Seq::<Action>::empty()));
    assert(first.last() == skipped[0]);
    assert(state.run(first) == (state, seq![Action::CleanupFinished])) by {
        assert(state.step(skipped[0]) == (state, seq![Action::CleanupFinished]));
        assert(Seq::<Action>::empty() + seq![Action::CleanupFinished] =~= seq![
            Action::CleanupFinished,
        ]);
    }
    assert(skipped.last() == skipped[1]);
    let (resized, before) = state.run(skipped);
    assert(state.step(skipped[1]).1 =~= Seq::<Action>::empty());
    assert(before =~= seq![Action::CleanupFinished]);
    assert(resized == FrameScheduler { recreate_swapchain: true, ..state });
    successful_tick_rebuilds_once(resized, extent, image_index);
    let (end, after) = resized.run(tick);
    let actions = before + after;
    assert(actions =~= seq![
        Action::CleanupFinished,
        Action::CleanupFinished,
        Action::RecreateSwapchain { extent },
    ] + successful_tick_actions(image_index, state.token));
    count_rebuilds_concat(before, after);
    count_submits_concat(before, after);
    reveal_with_fuel(count_rebuilds, 2);
    reveal_with_fuel(count_submits, 2);
    assert(before.drop_last() =~= Seq::<Action>::empty());
}

/// Running the loop over two runs of events one after the other is running it over both
/// together.
pub proof fn run_concat(state: FrameScheduler, first: Seq<Event>, second: Seq<Event>)
    ensures
        state.run(first + second) == ({
            let (middle, actions) = state.run(first);
            let (end, more) = middle.run(second);
            (end, actions + more)
        }),
    decreases second.len(),
{
    let (middle, actions) = state.run(first);
    if second.len() == 0 {
        assert(first + second =~= first);
        assert(actions + Seq::<Action>::empty() =~= actions);
    } else {
        assert((first + second).drop_last() =~= first + second.drop_last());
        run_concat(state, first, second.drop_last());
        let (before, some) = middle.run(second.drop_last());
        let (end, last) = before.step(second.last());
        assert(actions + (some + last) =~= (actions + some) + last);
    }
}

/// The swapchain is rebuilt only in answer to a request, and once for each: in any run of
/// events there are no more rebuilds than events that ask for one, counting a request that
/// was open at the start and leaving out one that is open at the end.
pub proof fn rebuilds_answer_requests(state: FrameScheduler, events: Seq<Event>)
    ensures
        ({
            let (end, actions) = state.run(events);
            count_rebuilds(actions) + (if end.recreate_swapchain {
                1nat
            } else {
                0nat
            }) <= count_rebuild_requests(events) + (if state.recreate_swapchain {
                1nat
            } else {
                0nat
            })
        }),
    decreases events.len(),
{
    if events.len() > 0 {
        let earlier = events.drop_last();
        rebuilds_answer_requests(state, earlier);
        let (before, actions) = state.run(earlier);
        step_counts(before, events.last());
        count_rebuilds_concat(actions, before.step(events.last()).1);
    }
}

/// At most one submission is outstanding at any time: out of any state that awaits no
/// outcome, the submissions of a run are never more than one ahead of the outcomes that
/// were handed back, and they are one ahead exactly while an outcome is awaited.
pub proof fn one_submission_at_a_time(state: FrameScheduler, events: Seq<Event>)
    requires
        state.phase != Phase::Submitted,
    ensures
        ({
            let (end, actions) = state.run(events);
            &&& count_submits(actions) <= count_outcomes(events) + 1
            &&& end.phase == Phase::Submitted ==> count_submits(actions) >= 1
        }),
    decreases events.len(),
{
    submissions_and_outcomes(state, events);
}

/// The number of outcomes among `events` that end a submission which `state` awaits, each
/// counted where it arrives.
pub open spec fn count_answered(state: FrameScheduler, events: Seq<Event>) -> nat
    decreases events.len(),
{
    if events.len() == 0 {
        0
    } else {
        count_answered(state, events.drop_last()) + if events.last() is Submitted && state.run(
            events.drop_last(),
        ).0.phase == Phase::Submitted {
            1nat
        } else {
            0nat
        }
    }
}

/// Submissions and their outcomes alternate: out of a state that awaits no outcome, a run
/// has submitted as often as outcomes were taken, and once more while one is awaited.
pub proof fn submissions_and_outcomes(state: FrameScheduler, events: Seq<Event>)
    requires
        state.phase != Phase::Submitted,
    ensures
        count_submits(state.run(events).1) == count_answered(state, events) + if state.run(
            events,
        ).0.phase == Phase::Submitted {
            1nat
        } else {
            0nat
        },
        count_answered(state, events) <= count_outcomes(events),
    decreases events.len(),
{
    if events.len() > 0 {
        let earlier = events.drop_last();
        submissions_and_outcomes(state, earlier);
        let (before, actions) = state.run(earlier);
        step_counts(before, events.last());
        count_submits_concat(actions, before.step(events.last()).1);
    }
}

} // verus!
