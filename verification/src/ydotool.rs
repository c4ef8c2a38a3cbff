//! A synthesis backend that drives the pointer through the `ydotool`
//! command and its daemon `ydotoold`: which commands an operation runs, in
//! which order, and with which arguments. Running them is the host's part.

use vstd::prelude::*;
use vstd::string::StringExecFns;

verus! {

/// Milliseconds to wait after the pointer was sent to the origin.
pub const RESET_MILLIS: u64 = 100;

/// One thing that the host does for the backend.
#[derive(Clone, Copy, Debug, PartialEq, Eq, Structural)]
pub enum YdotoolStep {
    /// Start the daemon and keep it running.
    StartDaemon,
    /// Send the pointer to the origin of the screen.
    ResetPointer,
    /// Wait for so many milliseconds.
    Pause(u64),
    /// Move the pointer by an offset from where it is.
    MoveBy(u16, u16),
    /// Click the left mouse button where the pointer is.
    Click,
}

/// The operations of the backend. Each gives the steps that perform it, in
/// order; a `YdotoolRun` hands them out one by one and ends the operation at
/// the first step that fails.
pub struct Ydotool;

/// The steps that take the pointer to the raw pixel `(x, y)`: to the
/// origin first, then, after a pause, by half of each coordinate.
pub open spec fn move_steps(x: u16, y: u16) -> Seq<YdotoolStep> {
    seq![
        YdotoolStep::ResetPointer,
        YdotoolStep::Pause(RESET_MILLIS),
        YdotoolStep::MoveBy(x / 2, y / 2),
    ]
}

impl Ydotool {
    /// Starting the daemon, which has to run before any other step.
    pub fn start_daemon() -> (steps: Vec<YdotoolStep>)
        ensures
            steps@ == seq![YdotoolStep::StartDaemon],
    {
        let mut steps: Vec<YdotoolStep> = Vec::new();
        steps.push(YdotoolStep::StartDaemon);
        steps
    }

    /// Taking the pointer to the raw pixel `(x, y)`.
    pub fn move_mouse(x: u16, y: u16) -> (steps: Vec<YdotoolStep>)
        ensures
            steps@ == move_steps(x, y),
    {
        let mut steps: Vec<YdotoolStep> = Vec::new();
        steps.push(YdotoolStep::ResetPointer);
        steps.push(YdotoolStep::Pause(RESET_MILLIS));
        steps.push(YdotoolStep::MoveBy(x / 2, y / 2));
        steps
    }

    /// Clicking where the pointer is.
    pub fn click() -> (steps: Vec<YdotoolStep>)
        ensures
            steps@ == seq![YdotoolStep::Click],
    {
        let mut steps: Vec<YdotoolStep> = Vec::new();
        steps.push(YdotoolStep::Click);
        steps
    }

    /// Taking the pointer to the raw pixel `(x, y)` and clicking there.
    pub fn click_at(x: u16, y: u16) -> (steps: Vec<YdotoolStep>)
        ensures
            steps@ == move_steps(x, y).push(YdotoolStep::Click),
    {
        let mut steps = Ydotool::move_mouse(x, y);
        steps.push(YdotoolStep::Click);
        steps
    }
}

/// What a `YdotoolRun` is, as plain values.
pub struct StepRunView {
    /// All the steps of the operation, in order.
    pub steps: Seq<YdotoolStep>,
    /// How many of them were done and succeeded.
    pub done: nat,
    /// Whether a step has failed.
    pub failed: bool,
}

/// The step that is to be done next, if there is one.
pub open spec fn pending_step(run: StepRunView) -> Option<YdotoolStep> {
    if !run.failed && run.done < run.steps.len() {
        Some(run.steps[run.done as int])
    } else {
        None
    }
}

/// The run after the host has reported on the pending step: one more step
/// is done if it succeeded, the run has failed if it did not. With no step
/// pending a report changes nothing.
pub open spec fn after_step_report(run: StepRunView, succeeded: bool) -> StepRunView {
    if pending_step(run) is None {
        run
    } else if succeeded {
        StepRunView { steps: run.steps, done: run.done + 1, failed: false }
    } else {
        StepRunView { steps: run.steps, done: run.done, failed: true }
    }
}

/// One operation of the backend, step by step.
///
/// The host asks for the next step, does it, and reports whether it
/// succeeded. Steps come in order, one at a time, and after the first
/// failure no further step is handed out.
pub struct YdotoolRun {
    steps: Vec<YdotoolStep>,
    done: usize,
    failed: bool,
}

impl View for YdotoolRun {
    type V = StepRunView;

    closed spec fn view(&self) -> StepRunView {
        StepRunView { steps: self.steps@, done: self.done as nat, failed: self.failed }
    }
}

impl YdotoolRun {
    #[verifier::type_invariant]
    spec fn in_bounds(self) -> bool {
        self.done <= self.steps.len()
    }

    /// A run of `steps` with none of them done yet.
    pub fn new(steps: Vec<YdotoolStep>) -> (run: Self)
        ensures
            run@ == (StepRunView { steps: steps@, done: 0, failed: false }),
    {
        YdotoolRun { steps, done: 0, failed: false }
    }

    /// The step to do next; `None` once all are done or one has failed.
    pub fn next_step(&self) -> (step: Option<YdotoolStep>)
        ensures
            step == pending_step(self@),
    {
        proof {
            use_type_invariant(self);
        }
        if !self.failed && self.done < self.steps.len() {
            Some(self.steps[self.done])
        } else {
            None
        }
    }

    /// Takes the host's answer for the step that `next_step` handed out.
    pub fn report(&mut self, succeeded: bool)
        ensures
            final(self)@ == after_step_report(old(self)@, succeeded),
    {
        proof {
            use_type_invariant(&*self);
        }
        if !self.failed && self.done < self.steps.len() {
            if succeeded {
                self.done = self.done + 1;
            } else {
                self.failed = true;
            }
        }
    }

    /// Whether a step has failed.
    pub fn has_failed(&self) -> (failed: bool)
        ensures
            failed == self@.failed,
    {
        self.failed
    }

    /// How many steps were done and succeeded.
    pub fn done(&self) -> (count: usize)
        ensures
            count == self@.done,
    {
        self.done
    }
}

/// The character of a decimal digit.
pub open spec fn digit_char(digit: nat) -> char {
    if digit == 0 {
        '0'
    } else if digit == 1 {
        '1'
    } else if digit == 2 {
        '2'
    } else if digit == 3 {
        '3'
    } else if digit == 4 {
        '4'
    } else if digit == 5 {
        '5'
    } else if digit == 6 {
        '6'
    } else if digit == 7 {
        '7'
    } else if digit == 8 {
        '8'
    } else {
        '9'
    }
}

/// A number in decimal digits, without a sign and without leading zeros.
pub open spec fn decimal_text(number: nat) -> Seq<char>
    decreases number,
{
    if number < 10 {
        seq![digit_char(number)]
    } else {
        decimal_text(number / 10).push(digit_char(number % 10))
    }
}

/// The texts of a list of strings.
pub open spec fn texts(words: Seq<String>) -> Seq<Seq<char>> {
    words.map_values(|word: String| word@)
}

/// The program a step runs and the arguments it runs it with, the program
/// first. A pause runs nothing.
pub open spec fn command_words(step: YdotoolStep) -> Seq<Seq<char>> {
    match step {
        YdotoolStep::StartDaemon => seq!["ydotoold"@],
        YdotoolStep::ResetPointer => seq![
            "ydotool"@,
            "mousemove"@,
            "--absolute"@,
            "-x"@,
            "0"@,
            "-y"@,
            "0"@,
        ],
        YdotoolStep::Pause(_) => Seq::empty(),
        YdotoolStep::MoveBy(x, y) => seq![
            "ydotool"@,
            "mousemove"@,
            "-x"@,
            decimal_text(x as nat),
            "-y"@,
            decimal_text(y as nat),
        ],
        YdotoolStep::Click => seq!["ydotool"@, "click"@, "C0"@],
    }
}

fn digit_text(digit: u16) -> (text: &'static str)
    requires
        digit < 10,
    ensures
        text@ == seq![digit_char(digit as nat)],
{
    proof {
        reveal_strlit("0");
        reveal_strlit("1");
        reveal_strlit("2");
        reveal_strlit("3");
        reveal_strlit("4");
        reveal_strlit("5");
        reveal_strlit("6");
        reveal_strlit("7");
        reveal_strlit("8");
        reveal_strlit("9");
    }
    if digit == 0 {
        "0"
    } else if digit == 1 {
        "1"
    } else if digit == 2 {
        "2"
    } else if digit == 3 {
        "3"
    } else if digit == 4 {
        "4"
    } else if digit == 5 {
        "5"
    } else if digit == 6 {
        "6"
    } else if digit == 7 {
        "7"
    } else if digit == 8 {
        "8"
    } else {
        "9"
    }
}

/// Writes a number in decimal digits.
pub fn decimal(number: u16) -> (text: String)
    ensures
        text@ == decimal_text(number as nat),
    decreases number,
{
    if number < 10 {
        digit_text(number).to_owned()
    } else {
        decimal(number / 10).concat(digit_text(number % 10))
    }
}

/// The command line of a step: the program and its arguments, the program
/// first, and nothing for a pause.
pub fn command_line(step: YdotoolStep) -> (words: Vec<String>)
    ensures
        texts(words@) == command_words(step),
{
    let mut words: Vec<String> = Vec::new();
    match step {
        YdotoolStep::StartDaemon => {
            words.push("ydotoold".to_owned());
        },
        YdotoolStep::ResetPointer => {
            words.push("ydotool".to_owned());
            words.push("mousemove".to_owned());
            words.push("--absolute".to_owned());
            words.push("-x".to_owned());
            words.push("0".to_owned());
            words.push("-y".to_owned());
            words.push("0".to_owned());
        },
        YdotoolStep::Pause(_) => {},
        YdotoolStep::MoveBy(x, y) => {
            words.push("ydotool".to_owned());
            words.push("mousemove".to_owned());
            words.push("-x".to_owned());
            words.push(decimal(x));
            words.push("-y".to_owned());
            words.push(decimal(y));
        },
        YdotoolStep::Click => {
            words.push("ydotool".to_owned());
            words.push("click".to_owned());
            words.push("C0".to_owned());
        },
    }
    words
}

} // verus!
