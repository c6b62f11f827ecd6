use mini_engine::frame_loop::{
    Action, CompletionToken, Event, FrameScheduler, Phase, SubmitOutcome,
};
use mini_engine::framebuffer::Acquisition;

const EXTENT: [u32; 2] = [800, 600];

fn redraw(extent: [u32; 2]) -> Event {
    Event::RedrawRequested { extent }
}

fn acquired(image_index: u32, suboptimal: bool) -> Event {
    Event::Acquired { acquisition: Acquisition::Ready { image_index, suboptimal } }
}

fn stale() -> Event {
    Event::Acquired { acquisition: Acquisition::Stale }
}

fn submitted(outcome: SubmitOutcome) -> Event {
    Event::Submitted { outcome }
}

fn is_submit(action: &Action) -> bool {
    matches!(action, Action::Submit { .. })
}

fn is_rebuild(action: &Action) -> bool {
    matches!(action, Action::RecreateSwapchain { .. })
}

#[test]
fn new_scheduler_is_idle_with_a_fresh_token() {
    assert_eq!(
        FrameScheduler::new(),
        FrameScheduler {
            phase: Phase::Idle,
            recreate_swapchain: false,
            token: CompletionToken::Fresh,
            image_index: 0,
        }
    );
}

#[test]
fn a_tick_goes_through_the_four_phases() {
    let mut scheduler = FrameScheduler::new();
    assert_eq!(scheduler.handle(redraw(EXTENT)), vec![Action::CleanupFinished, Action::AcquireImage]);
    assert_eq!(scheduler.phase, Phase::Acquiring);
    assert_eq!(scheduler.handle(acquired(2, false)), vec![Action::Record { image_index: 2 }]);
    assert_eq!(scheduler.phase, Phase::Recording);
    assert_eq!(
        scheduler.handle(Event::Recorded),
        vec![Action::Submit { image_index: 2, wait_for: CompletionToken::Fresh }]
    );
    assert_eq!(scheduler.phase, Phase::Submitted);
    assert_eq!(scheduler.handle(submitted(SubmitOutcome::Presented)), vec![Action::KeepToken]);
    assert_eq!(scheduler.phase, Phase::Idle);
    assert_eq!(scheduler.token, CompletionToken::LastFrame);
    assert!(!scheduler.recreate_swapchain);
}

#[test]
fn next_frame_waits_for_the_last_one() {
    let mut scheduler = FrameScheduler::new();
    let tick = vec![
        redraw(EXTENT),
        acquired(0, false),
        Event::Recorded,
        submitted(SubmitOutcome::Presented),
        redraw(EXTENT),
        acquired(1, false),
        Event::Recorded,
    ];
    let actions = scheduler.handle_all(&tick);
    assert_eq!(
        *actions.last().unwrap(),
        Action::Submit { image_index: 1, wait_for: CompletionToken::LastFrame }
    );
}

#[test]
fn stale_acquisition_submits_nothing_that_tick() {
    let mut scheduler = FrameScheduler::new();
    scheduler.handle(redraw(EXTENT));
    assert_eq!(scheduler.handle(stale()), Vec::new());
    assert_eq!(scheduler.phase, Phase::Idle);
    assert!(scheduler.recreate_swapchain);
    let later = vec![Event::Recorded, submitted(SubmitOutcome::Presented), Event::Resized, stale()];
    let actions = scheduler.handle_all(&later);
    assert_eq!(actions, Vec::new());
    assert_eq!(scheduler.phase, Phase::Idle);
    assert_eq!(scheduler.token, CompletionToken::Fresh);
}

#[test]
fn stale_acquisition_rebuilds_before_the_next_acquisition() {
    let mut scheduler = FrameScheduler::new();
    scheduler.handle(redraw(EXTENT));
    scheduler.handle(stale());
    assert_eq!(
        scheduler.handle(redraw([640, 480])),
        vec![
            Action::CleanupFinished,
            Action::RecreateSwapchain { extent: [640, 480] },
            Action::AcquireImage,
        ]
    );
    assert!(!scheduler.recreate_swapchain);
}

#[test]
fn suboptimal_image_is_presented_and_rebuilt_next_tick() {
    let mut scheduler = FrameScheduler::new();
    let tick = vec![
        redraw(EXTENT),
        acquired(1, true),
        Event::Recorded,
        submitted(SubmitOutcome::Presented),
    ];
    let actions = scheduler.handle_all(&tick);
    assert_eq!(
        actions,
        vec![
            Action::CleanupFinished,
            Action::AcquireImage,
            Action::Record { image_index: 1 },
            Action::Submit { image_index: 1, wait_for: CompletionToken::Fresh },
            Action::KeepToken,
        ]
    );
    assert!(scheduler.recreate_swapchain);
    let next = scheduler.handle(redraw(EXTENT));
    assert_eq!(next[1], Action::RecreateSwapchain { extent: EXTENT });
}

#[test]
fn zero_extent_skips_the_tick_and_a_later_resize_rebuilds_once() {
    let mut scheduler = FrameScheduler::new();
    scheduler.handle(Event::Resized);
    for extent in [[0, 0], [0, 600], [800, 0]] {
        let before = scheduler;
        assert_eq!(scheduler.handle(redraw(extent)), vec![Action::CleanupFinished]);
        assert_eq!(scheduler, before);
        assert_eq!(scheduler.phase, Phase::Idle);
    }
    scheduler.handle(Event::Resized);
    let tick = vec![
        redraw(EXTENT),
        acquired(0, false),
        Event::Recorded,
        submitted(SubmitOutcome::Presented),
    ];
    let actions = scheduler.handle_all(&tick);
    assert_eq!(
        actions,
        vec![
            Action::CleanupFinished,
            Action::RecreateSwapchain { extent: EXTENT },
            Action::AcquireImage,
            Action::Record { image_index: 0 },
            Action::Submit { image_index: 0, wait_for: CompletionToken::Fresh },
            Action::KeepToken,
        ]
    );
    assert_eq!(actions.iter().filter(|a| is_rebuild(a)).count(), 1);
    let rebuild = actions.iter().position(is_rebuild).unwrap();
    let submit = actions.iter().position(is_submit).unwrap();
    assert!(rebuild < submit);
    let again = scheduler.handle_all(&tick);
    assert_eq!(again.iter().filter(|a| is_rebuild(a)).count(), 0);
}

#[test]
fn surface_out_of_date_at_present_resets_the_token_and_asks_for_a_rebuild() {
    let mut scheduler = FrameScheduler::new();
    scheduler.token = CompletionToken::LastFrame;
    scheduler.handle_all(&vec![redraw(EXTENT), acquired(0, false), Event::Recorded]);
    assert_eq!(scheduler.handle(submitted(SubmitOutcome::OutOfDate)), vec![Action::ResetToken]);
    assert_eq!(scheduler.phase, Phase::Idle);
    assert_eq!(scheduler.token, CompletionToken::Fresh);
    assert!(scheduler.recreate_swapchain);
}

#[test]
fn other_submission_error_drops_the_frame_and_the_loop_goes_on() {
    let mut scheduler = FrameScheduler::new();
    scheduler.token = CompletionToken::LastFrame;
    scheduler.handle_all(&vec![redraw(EXTENT), acquired(0, false), Event::Recorded]);
    assert_eq!(scheduler.handle(submitted(SubmitOutcome::Failed)), vec![Action::ResetToken]);
    assert_eq!(scheduler.phase, Phase::Idle);
    assert_eq!(scheduler.token, CompletionToken::Fresh);
    assert!(!scheduler.recreate_swapchain);
    assert_eq!(scheduler.handle(redraw(EXTENT)), vec![Action::CleanupFinished, Action::AcquireImage]);
}

#[test]
fn close_request_asks_to_exit() {
    let mut scheduler = FrameScheduler::new();
    let before = scheduler;
    assert_eq!(scheduler.handle(Event::CloseRequested), vec![Action::Exit]);
    assert_eq!(scheduler, before);
}

#[test]
fn events_out_of_phase_change_nothing() {
    let mut scheduler = FrameScheduler::new();
    let before = scheduler;
    let actions = scheduler.handle_all(&vec![
        acquired(0, true),
        stale(),
        Event::Recorded,
        submitted(SubmitOutcome::OutOfDate),
    ]);
    assert_eq!(actions, Vec::new());
    assert_eq!(scheduler, before);
    scheduler.handle(redraw(EXTENT));
    let acquiring = scheduler;
    let actions = scheduler.handle_all(&vec![
        redraw(EXTENT),
        Event::Recorded,
        submitted(SubmitOutcome::Presented),
    ]);
    assert_eq!(actions, Vec::new());
    assert_eq!(scheduler, acquiring);
}

#[test]
fn resize_during_a_tick_is_kept_for_the_next() {
    let mut scheduler = FrameScheduler::new();
    scheduler.handle(redraw(EXTENT));
    scheduler.handle(Event::Resized);
    let actions = scheduler.handle_all(&vec![
        acquired(0, false),
        Event::Recorded,
        submitted(SubmitOutcome::Presented),
    ]);
    assert_eq!(actions.iter().filter(|a| is_rebuild(a)).count(), 0);
    assert_eq!(actions.iter().filter(|a| is_submit(a)).count(), 1);
    assert!(scheduler.recreate_swapchain);
}

#[test]
fn resize_method_is_the_resized_event() {
    let mut by_method = FrameScheduler::new();
    by_method.resize();
    let mut by_event = FrameScheduler::new();
    by_event.handle(Event::Resized);
    assert_eq!(by_method, by_event);
    assert!(by_method.recreate_swapchain);
}

#[test]
fn handle_all_on_no_events_does_nothing() {
    let mut scheduler = FrameScheduler::new();
    assert_eq!(scheduler.handle_all(&Vec::new()), Vec::new());
    assert_eq!(scheduler, FrameScheduler::new());
}

#[test]
fn failed_acquisition_ends_the_tick_and_the_loop_goes_on() {
    let mut scheduler = FrameScheduler::new();
    scheduler.token = CompletionToken::LastFrame;
    scheduler.handle(redraw(EXTENT));
    let failed = Event::Acquired { acquisition: Acquisition::Failed };
    assert_eq!(scheduler.handle(failed), Vec::new());
    assert_eq!(scheduler.phase, Phase::Idle);
    assert!(!scheduler.recreate_swapchain);
    assert_eq!(scheduler.token, CompletionToken::LastFrame);
    let later = vec![Event::Recorded, submitted(SubmitOutcome::Presented), failed];
    assert_eq!(scheduler.handle_all(&later), Vec::new());
    assert_eq!(scheduler.phase, Phase::Idle);
    let tick = vec![
        redraw(EXTENT),
        acquired(1, false),
        Event::Recorded,
        submitted(SubmitOutcome::Presented),
    ];
    assert_eq!(
        scheduler.handle_all(&tick),
        vec![
            Action::CleanupFinished,
            Action::AcquireImage,
            Action::Record { image_index: 1 },
            Action::Submit { image_index: 1, wait_for: CompletionToken::LastFrame },
            Action::KeepToken,
        ]
    );
}

#[test]
fn failed_acquisition_keeps_a_rebuild_that_was_asked_for() {
    let mut scheduler = FrameScheduler::new();
    scheduler.handle(redraw(EXTENT));
    scheduler.handle(Event::Resized);
    scheduler.handle(Event::Acquired { acquisition: Acquisition::Failed });
    assert!(scheduler.recreate_swapchain);
    assert_eq!(scheduler.handle(redraw(EXTENT))[1], Action::RecreateSwapchain { extent: EXTENT });
}
