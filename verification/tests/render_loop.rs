use dm_panes::event::{InputEvent, Key};
use dm_panes::render_loop::{LoopAction, LoopOutcome, LoopState, RenderLoop};

/// Runs the loop against a terminal that draws every frame but the one whose
/// number is `failing_draw`, and delivers `events` in turn. Returns the number
/// of frames drawn, the number of events read, and the result.
fn drive(
    events: &[InputEvent],
    failing_draw: Option<usize>,
) -> (usize, usize, Option<Result<(), String>>) {
    let mut lp: RenderLoop<String> = RenderLoop::new();
    let mut draws = 0;
    let mut reads = 0;
    loop {
        match lp.action() {
            LoopAction::Draw => {
                if failing_draw == Some(draws + 1) {
                    lp = lp.advance(LoopOutcome::Failed(format!("draw {} failed", draws + 1)));
                } else {
                    draws += 1;
                    lp = lp.advance(LoopOutcome::Drawn);
                }
            }
            LoopAction::ReadEvent => {
                if reads == events.len() {
                    return (draws, reads, lp.result());
                }
                lp = lp.advance(LoopOutcome::Received(events[reads]));
                reads += 1;
            }
            LoopAction::Return => return (draws, reads, lp.result()),
        }
    }
}

#[test]
fn mouse_then_a_then_q_redraws_twice_and_ends_on_the_third_event() {
    let events = [InputEvent::Mouse, InputEvent::Key(Key::Char('a')), InputEvent::Key(Key::Char('q'))];
    let (draws, reads, result) = drive(&events, None);
    assert_eq!(draws, 3);
    assert_eq!(draws - 1, 2);
    assert_eq!(reads, 3);
    assert_eq!(result, Some(Ok(())));
}

#[test]
fn new_loop_is_running_and_asks_for_a_frame() {
    let lp: RenderLoop<String> = RenderLoop::new();
    assert_eq!(lp, RenderLoop::Drawing);
    assert_eq!(lp.state(), LoopState::Running);
    assert_eq!(lp.action(), LoopAction::Draw);
    assert_eq!(lp.result(), None);
}

#[test]
fn drawn_frame_is_followed_by_a_wait() {
    let lp: RenderLoop<String> = RenderLoop::new().advance(LoopOutcome::Drawn);
    assert_eq!(lp, RenderLoop::Waiting);
    assert_eq!(lp.state(), LoopState::Running);
    assert_eq!(lp.action(), LoopAction::ReadEvent);
}

#[test]
fn q_ends_the_loop_with_success() {
    let lp: RenderLoop<String> = RenderLoop::new()
        .advance(LoopOutcome::Drawn)
        .advance(LoopOutcome::Received(InputEvent::Key(Key::Char('q'))));
    assert_eq!(lp.state(), LoopState::Terminated);
    assert_eq!(lp.action(), LoopAction::Return);
    assert_eq!(lp.result(), Some(Ok(())));
}

#[test]
fn events_other_than_q_ask_for_the_next_frame() {
    let others = [
        InputEvent::Mouse,
        InputEvent::Resize(120, 50),
        InputEvent::Other,
        InputEvent::Key(Key::Other),
        InputEvent::Key(Key::Char('Q')),
        InputEvent::Key(Key::Char('x')),
    ];
    for event in others {
        let lp: RenderLoop<String> =
            RenderLoop::new().advance(LoopOutcome::Drawn).advance(LoopOutcome::Received(event));
        assert_eq!(lp, RenderLoop::Drawing);
        assert_eq!(lp.state(), LoopState::Running);
    }
}

#[test]
fn loop_keeps_running_through_many_events_that_are_not_q() {
    let mut events = Vec::new();
    for i in 0..500u16 {
        events.push(match i % 4 {
            0 => InputEvent::Mouse,
            1 => InputEvent::Resize(i, i),
            2 => InputEvent::Key(Key::Char('a')),
            _ => InputEvent::Other,
        });
    }
    let (draws, reads, result) = drive(&events, None);
    assert_eq!(draws, 501);
    assert_eq!(reads, 500);
    assert_eq!(result, None);
}

#[test]
fn events_after_q_are_not_read() {
    let events = [InputEvent::Key(Key::Char('q')), InputEvent::Mouse, InputEvent::Mouse];
    let (draws, reads, result) = drive(&events, None);
    assert_eq!(draws, 1);
    assert_eq!(reads, 1);
    assert_eq!(result, Some(Ok(())));
}

#[test]
fn failed_draw_ends_the_loop_with_its_error() {
    let events = [InputEvent::Mouse, InputEvent::Mouse, InputEvent::Key(Key::Char('q'))];
    let (draws, reads, result) = drive(&events, Some(2));
    assert_eq!(draws, 1);
    assert_eq!(reads, 1);
    assert_eq!(result, Some(Err("draw 2 failed".to_string())));
}

#[test]
fn failed_first_draw_ends_the_loop_before_any_read() {
    let (draws, reads, result) = drive(&[InputEvent::Key(Key::Char('q'))], Some(1));
    assert_eq!(draws, 0);
    assert_eq!(reads, 0);
    assert_eq!(result, Some(Err("draw 1 failed".to_string())));
}

#[test]
fn failed_read_ends_the_loop_with_its_error() {
    let lp: RenderLoop<&str> =
        RenderLoop::new().advance(LoopOutcome::Drawn).advance(LoopOutcome::Failed("stdin closed"));
    assert_eq!(lp, RenderLoop::Terminated(Err("stdin closed")));
    assert_eq!(lp.state(), LoopState::Terminated);
    assert_eq!(lp.result(), Some(Err("stdin closed")));
}

#[test]
fn ended_loop_stays_as_it_is() {
    let ended: RenderLoop<&str> = RenderLoop::Terminated(Ok(()));
    assert_eq!(ended.advance(LoopOutcome::Drawn), RenderLoop::Terminated(Ok(())));
    let ended: RenderLoop<&str> = RenderLoop::Terminated(Ok(()));
    assert_eq!(ended.advance(LoopOutcome::Failed("late")), RenderLoop::Terminated(Ok(())));
    let failed: RenderLoop<&str> = RenderLoop::Terminated(Err("first"));
    assert_eq!(
        failed.advance(LoopOutcome::Received(InputEvent::Key(Key::Char('q')))),
        RenderLoop::Terminated(Err("first"))
    );
    let failed: RenderLoop<&str> = RenderLoop::Terminated(Err("first"));
    assert_eq!(failed.advance(LoopOutcome::Failed("second")), RenderLoop::Terminated(Err("first")));
}

#[test]
fn outcome_that_answers_nothing_is_ignored() {
    let drawing: RenderLoop<&str> = RenderLoop::new();
    assert_eq!(
        drawing.advance(LoopOutcome::Received(InputEvent::Key(Key::Char('q')))),
        RenderLoop::Drawing
    );
    let waiting: RenderLoop<&str> = RenderLoop::new().advance(LoopOutcome::Drawn);
    assert_eq!(waiting.advance(LoopOutcome::Drawn), RenderLoop::Waiting);
}

#[test]
fn drawing_twice_leaves_the_loop_where_drawing_once_does() {
    let once: RenderLoop<&str> = RenderLoop::new().advance(LoopOutcome::Drawn);
    let twice: RenderLoop<&str> =
        RenderLoop::new().advance(LoopOutcome::Drawn).advance(LoopOutcome::Drawn);
    assert_eq!(once, twice);
}
