use macro_recorder::ydotool::{
    command_line, decimal, Ydotool, YdotoolRun, YdotoolStep, RESET_MILLIS,
};

#[test]
fn the_daemon_is_started_by_its_own_program() {
    assert_eq!(Ydotool::start_daemon(), vec![YdotoolStep::StartDaemon]);
    assert_eq!(command_line(YdotoolStep::StartDaemon), vec!["ydotoold"]);
}

#[test]
fn a_move_goes_through_the_origin() {
    assert_eq!(
        Ydotool::move_mouse(100, 51),
        vec![YdotoolStep::ResetPointer, YdotoolStep::Pause(100), YdotoolStep::MoveBy(50, 25)]
    );
    assert_eq!(
        Ydotool::move_mouse(0, 1),
        vec![YdotoolStep::ResetPointer, YdotoolStep::Pause(100), YdotoolStep::MoveBy(0, 0)]
    );
    assert_eq!(
        Ydotool::move_mouse(u16::MAX, u16::MAX),
        vec![
            YdotoolStep::ResetPointer,
            YdotoolStep::Pause(100),
            YdotoolStep::MoveBy(32767, 32767)
        ]
    );
    assert_eq!(RESET_MILLIS, 100);
}

#[test]
fn a_click_at_a_pixel_moves_then_clicks() {
    assert_eq!(Ydotool::click(), vec![YdotoolStep::Click]);
    assert_eq!(
        Ydotool::click_at(7, 8),
        vec![
            YdotoolStep::ResetPointer,
            YdotoolStep::Pause(100),
            YdotoolStep::MoveBy(3, 4),
            YdotoolStep::Click
        ]
    );
}

#[test]
fn each_step_has_its_command_line() {
    assert_eq!(
        command_line(YdotoolStep::ResetPointer),
        vec!["ydotool", "mousemove", "--absolute", "-x", "0", "-y", "0"]
    );
    assert_eq!(
        command_line(YdotoolStep::MoveBy(960, 5)),
        vec!["ydotool", "mousemove", "-x", "960", "-y", "5"]
    );
    assert_eq!(
        command_line(YdotoolStep::MoveBy(0, 65535)),
        vec!["ydotool", "mousemove", "-x", "0", "-y", "65535"]
    );
    assert_eq!(command_line(YdotoolStep::Click), vec!["ydotool", "click", "C0"]);
    assert_eq!(command_line(YdotoolStep::Pause(100)), Vec::<String>::new());
}

#[test]
fn numbers_are_written_in_decimal() {
    assert_eq!(decimal(0), "0");
    assert_eq!(decimal(9), "9");
    assert_eq!(decimal(10), "10");
    assert_eq!(decimal(101), "101");
    assert_eq!(decimal(4096), "4096");
    assert_eq!(decimal(65535), "65535");
    for number in [0u16, 1, 19, 200, 999, 1000, 12345, 54321, 65535] {
        assert_eq!(decimal(number), number.to_string());
    }
}

#[test]
fn a_run_hands_out_its_steps_in_order() {
    let mut run = YdotoolRun::new(Ydotool::click_at(7, 8));
    let mut done = Vec::new();
    while let Some(step) = run.next_step() {
        done.push(step);
        run.report(true);
    }
    assert_eq!(done, Ydotool::click_at(7, 8));
    assert!(!run.has_failed());
    assert_eq!(run.done(), 4);
    run.report(false);
    assert!(!run.has_failed());
    assert_eq!(run.next_step(), None);
}

#[test]
fn a_failed_step_ends_the_run() {
    let mut run = YdotoolRun::new(Ydotool::click_at(7, 8));
    assert_eq!(run.next_step(), Some(YdotoolStep::ResetPointer));
    run.report(true);
    assert_eq!(run.next_step(), Some(YdotoolStep::Pause(100)));
    run.report(false);
    assert!(run.has_failed());
    assert_eq!(run.next_step(), None);
    assert_eq!(run.done(), 1);
    run.report(true);
    assert!(run.has_failed());
    assert_eq!(run.next_step(), None);
    assert_eq!(run.done(), 1);
}

#[test]
fn a_run_of_nothing_has_no_step() {
    let run = YdotoolRun::new(Vec::new());
    assert_eq!(run.next_step(), None);
    assert!(!run.has_failed());
    assert_eq!(run.done(), 0);
}
