//! The bookkeeping and the report lines of the on-device test runner.
//!
//! A [`TestRunner`] records which test cases failed and composes every line of the test
//! report; writing the lines to the output and quitting are left to the caller, which does
//! what [`TestRunner::mode`] and [`QuitAction`] say.
use vstd::prelude::*;
use vstd::string::StringExecFns;

verus! {

/// The file the report goes to when a file runner is used without another path.
pub const OUTPUT_FILENAME: &'static str = "psp_output_file.log";

/// The named pipe the report goes to with a FIFO runner.
pub const OUTPUT_FIFO: &'static str = "psp_output_pipe.fifo";

/// The line that starts a report.
pub const STARTING_TOKEN: &'static str = "STARTING_TESTS";

/// The line that ends a report without failures.
pub const SUCCESS_TOKEN: &'static str = "FINAL_SUCCESS";

/// The line that ends a report with failures.
pub const FAILURE_TOKEN: &'static str = "FINAL_FAILURE";

/// The directory of the memory stick that the runner's files live in.
pub const PSP_TEST_DIR: &'static str = "ms0:/PSP/GAME/ATEST/";

/// The character of a decimal digit.
pub open spec fn digit_char(d: nat) -> char {
    if d == 0 {
        '0'
    } else if d == 1 {
        '1'
    } else if d == 2 {
        '2'
    } else if d == 3 {
        '3'
    } else if d == 4 {
        '4'
    } else if d == 5 {
        '5'
    } else if d == 6 {
        '6'
    } else if d == 7 {
        '7'
    } else if d == 8 {
        '8'
    } else {
        '9'
    }
}

/// The decimal digits of a natural number, without leading zeros.
pub open spec fn digits(n: nat) -> Seq<char>
    decreases n,
{
    if n < 10 {
        seq![digit_char(n)]
    } else {
        digits(n / 10).push(digit_char(n % 10))
    }
}

/// The decimal text of an integer, with a leading `-` when it is negative.
pub open spec fn decimal_text(v: int) -> Seq<char> {
    if v < 0 {
        seq!['-'] + digits((-v) as nat)
    } else {
        digits(v as nat)
    }
}

/// The text that `{:?}` prints for a list of names: the names, each quoted and escaped as
/// Rust string literals, between brackets and separated by `, `.
pub uninterp spec fn debug_list_text(names: Seq<Seq<char>>) -> Seq<char>;

/// The text of the decimal digit `d`.
fn digit_str(d: u32) -> (r: &'static str)
    requires
        d < 10,
    ensures
        r@ == seq![digit_char(d as nat)],
{
    proof {
        reveal_strlit("0");
        reveal_strlit("1");
        reveal_strlit("2");
        reveal_strlit("3");
        reveal_strlit("4");
        reveal_strlit("5");
        reveal_strlit("6");
        reveal_strlit("7");
        reveal_strlit("8");
        reveal_strlit("9");
    }
    if d == 0 {
        "0"
    } else if d == 1 {
        "1"
    } else if d == 2 {
        "2"
    } else if d == 3 {
        "3"
    } else if d == 4 {
        "4"
    } else if d == 5 {
        "5"
    } else if d == 6 {
        "6"
    } else if d == 7 {
        "7"
    } else if d == 8 {
        "8"
    } else {
        "9"
    }
}

/// Appends the decimal digits of `n` to `text`.
fn push_digits(text: &mut String, n: u32)
    ensures
        final(text)@ == old(text)@ + digits(n as nat),
    decreases n,
{
    if n < 10 {
        text.append(digit_str(n));
    } else {
        push_digits(text, n / 10);
        text.append(digit_str(n % 10));
        assert(text@ =~= old(text)@ + digits(n as nat));
    }
}

/// The decimal text of `v`, as `i32`'s `Display` prints it.
fn decimal(v: i32) -> (r: String)
    ensures
        r@ == decimal_text(v as int),
{
    let mut text = String::new();
    if v < 0 {
        proof {
            reveal_strlit("-");
        }
        text.append("-");
        let magnitude: u32 = if v == i32::MIN {
            0x8000_0000
        } else {
            (-v) as u32
        };
        push_digits(&mut text, magnitude);
        assert(text@ =~= seq!['-'] + digits((-v) as nat));
    } else {
        push_digits(&mut text, v as u32);
        assert(text@ =~= digits(v as nat));
    }
    text
}

/// The text that `{:?}` prints for the list of names, through `Debug` for `Vec<&str>`.
#[verifier::external_body]
fn debug_names(names: &Vec<&str>) -> (r: String)
    ensures
        r@ == debug_list_text(names@.map_values(|s: &str| s@)),
{
    format!("{:?}", names)
}

/// The line that records a passing test case.
pub open spec fn pass_line(name: Seq<char>, msg: Seq<char>) -> Seq<char> {
    "[PASS]: ("@ + name + ") "@ + msg + "\n"@
}

/// The line of a note on a test case.
pub open spec fn note_line(name: Seq<char>, msg: Seq<char>) -> Seq<char> {
    "[NOTE]: ("@ + name + ") "@ + msg + "\n"@
}

/// The line that records a failing test case.
pub open spec fn fail_line(name: Seq<char>, msg: Seq<char>) -> Seq<char> {
    "[FAIL]: ("@ + name + ") "@ + msg + "\n"@
}

/// The line of a test case that returned an exit code other than success.
pub open spec fn exit_line(name: Seq<char>, code: i32) -> Seq<char> {
    "[FAIL]: ("@ + name + ") exited with: "@ + decimal_text(code as int) + "\n"@
}

/// The line of a test case that panicked with a text payload.
pub open spec fn panic_line(name: Seq<char>, msg: Seq<char>) -> Seq<char> {
    "[FAIL]: ("@ + name + ") panicked: "@ + msg + "\n"@
}

/// The line of a test case that panicked with a payload that is not text.
pub open spec fn unknown_panic_line(name: Seq<char>) -> Seq<char> {
    "[FAIL]: ("@ + name + ") panicked: unknown panic payload\n"@
}

/// The line of a test case that was expected to panic and did not.
pub open spec fn no_panic_line(name: Seq<char>) -> Seq<char> {
    "[FAIL]: ("@ + name + "): does not panicked\n"@
}

/// The lines that end a report.
pub open spec fn final_lines(failures: Seq<Seq<char>>) -> Seq<char> {
    if failures.len() > 0 {
        "Failing tests: "@ + debug_list_text(failures) + "\n"@ + FAILURE_TOKEN@ + "\n"@
    } else {
        SUCCESS_TOKEN@ + "\n"@
    }
}

/// The path of a file of the test directory, ending in a NUL byte for the system interface.
pub fn psp_filename(filename: &str) -> (r: String)
    ensures
        r@ == PSP_TEST_DIR@ + filename@ + "\0"@,
{
    let mut path = String::from_str(PSP_TEST_DIR);
    path.append(filename);
    path.append("\0");
    path
}

/// Where a test runner writes its report.
#[derive(Debug, Clone, Copy, PartialEq, Eq, Structural)]
pub enum TestRunnerMode {
    /// To the named pipe [`OUTPUT_FIFO`], open as the given file descriptor.
    Fifo(i32),
    /// To a file, open as the given file descriptor.
    File(i32),
    /// To the standard output.
    Stdout,
    /// To the debug screen.
    Screen,
}

/// What the program does once the report is complete.
#[derive(Debug, Clone, Copy, PartialEq, Eq, Structural)]
pub enum QuitAction {
    /// Close the report's file descriptor and exit the program.
    ExitGame,
    /// Put the main thread to sleep, leaving the report on display.
    SleepThread,
}

/// How a test case ended.
#[derive(Debug, PartialEq, Eq)]
pub enum TestOutcome {
    /// The test case returned; its report has this exit code (0 is success).
    Returned(i32),
    /// The test case panicked, with this text as payload if the payload is text.
    Panicked(Option<String>),
}

/// The state of a test run: where the report goes, and the test cases that failed.
pub struct TestRunner<'a> {
    mode: TestRunnerMode,
    failure: bool,
    failures: Vec<&'a str>,
}

impl<'a> TestRunner<'a> {
    /// Where the report goes.
    pub closed spec fn spec_mode(&self) -> TestRunnerMode {
        self.mode
    }

    /// Whether some test case failed.
    pub closed spec fn failed(&self) -> bool {
        self.failure
    }

    /// The names of the failed test cases, in the order they failed.
    pub closed spec fn failures(&self) -> Seq<Seq<char>> {
        self.failures@.map_values(|s: &str| s@)
    }

    /// The runner's state is consistent: it has failed exactly when some test case is
    /// recorded as failed.
    #[verifier::type_invariant]
    spec fn wf(&self) -> bool {
        self.failure == (self.failures@.len() > 0)
    }

    /// A runner that has not run a test case yet.
    pub open spec fn fresh(&self, mode: TestRunnerMode) -> bool {
        &&& self.spec_mode() == mode
        &&& !self.failed()
        &&& self.failures() == Seq::<Seq<char>>::empty()
    }

    /// A runner that reports to the test pipe, open as the file descriptor `fd`.
    pub fn fifo_runner(fd: i32) -> (r: TestRunner<'a>)
        ensures
            r.fresh(TestRunnerMode::Fifo(fd)),
    {
        let r = TestRunner { mode: TestRunnerMode::Fifo(fd), failure: false, failures: Vec::new() };
        assert(r.failures() =~= Seq::<Seq<char>>::empty());
        r
    }

    /// A runner that reports to a file, open as the file descriptor `fd`.
    pub fn file_runner(fd: i32) -> (r: TestRunner<'a>)
        ensures
            r.fresh(TestRunnerMode::File(fd)),
    {
        let r = TestRunner { mode: TestRunnerMode::File(fd), failure: false, failures: Vec::new() };
        assert(r.failures() =~= Seq::<Seq<char>>::empty());
        r
    }

    /// A runner that reports to the standard output.
    pub fn stdout_runner() -> (r: TestRunner<'a>)
        ensures
            r.fresh(TestRunnerMode::Stdout),
    {
        let r = TestRunner { mode: TestRunnerMode::Stdout, failure: false, failures: Vec::new() };
        assert(r.failures() =~= Seq::<Seq<char>>::empty());
        r
    }

    /// A runner that reports to the debug screen.
    pub fn screen_runner() -> (r: TestRunner<'a>)
        ensures
            r.fresh(TestRunnerMode::Screen),
    {
        let r = TestRunner { mode: TestRunnerMode::Screen, failure: false, failures: Vec::new() };
        assert(r.failures() =~= Seq::<Seq<char>>::empty());
        r
    }

    /// Where the report goes.
    pub fn mode(&self) -> (r: TestRunnerMode)
        ensures
            r == self.spec_mode(),
    {
        self.mode
    }

    /// Whether some test case failed.
    pub fn has_failed(&self) -> (r: bool)
        ensures
            r == self.failed(),
            r == (self.failures().len() > 0),
    {
        proof {
            use_type_invariant(self);
        }
        self.failure
    }

    /// The line that starts the report.
    pub fn start_run(&self) -> (r: String)
        ensures
            r@ == "\n\n"@ + STARTING_TOKEN@ + "\n"@,
    {
        let mut line = String::from_str("\n\n");
        line.append(STARTING_TOKEN);
        line.append("\n");
        line
    }

    /// The line that records `testcase_name` as passing, with a message.
    pub fn pass(&self, testcase_name: &str, msg: &str) -> (r: String)
        ensures
            r@ == pass_line(testcase_name@, msg@),
    {
        let mut line = String::from_str("[PASS]: (");
        line.append(testcase_name);
        line.append(") ");
        line.append(msg);
        line.append("\n");
        line
    }

    /// The line of a note on `testcase_name`.
    pub fn dbg(&self, testcase_name: &str, msg: &str) -> (r: String)
        ensures
            r@ == note_line(testcase_name@, msg@),
    {
        let mut line = String::from_str("[NOTE]: (");
        line.append(testcase_name);
        line.append(") ");
        line.append(msg);
        line.append("\n");
        line
    }

    /// Records the failure of `testcase_name`.
    fn record_failure(&mut self, testcase_name: &'a str)
        ensures
            final(self).failed(),
            final(self).failures() == old(self).failures().push(testcase_name@),
            final(self).spec_mode() == old(self).spec_mode(),
    {
        // The runner must be consistent at every step, so an empty one stands in for it while
        // the list of failures grows.
        let mut before = TestRunner { mode: self.mode, failure: false, failures: Vec::new() };
        core::mem::swap(self, &mut before);
        let TestRunner { mode, failure: _, failures: mut names } = before;
        names.push(testcase_name);
        *self = TestRunner { mode, failure: true, failures: names };
        assert(self.failures() =~= old(self).failures().push(testcase_name@));
    }

    /// Records `testcase_name` as failed and returns the line that says so, with a message.
    pub fn fail(&mut self, testcase_name: &'a str, msg: &str) -> (r: String)
        ensures
            final(self).failed(),
            final(self).failures() == old(self).failures().push(testcase_name@),
            final(self).spec_mode() == old(self).spec_mode(),
            r@ == fail_line(testcase_name@, msg@),
    {
        self.record_failure(testcase_name);
        let mut line = String::from_str("[FAIL]: (");
        line.append(testcase_name);
        line.append(") ");
        line.append(msg);
        line.append("\n");
        line
    }

    /// Records how the test case `testcase_name` ended and returns its report line: it passes
    /// when it returned the success exit code 0, and fails when it returned another code or
    /// panicked.
    pub fn test(&mut self, testcase_name: &'a str, outcome: TestOutcome) -> (r: String)
        ensures
            final(self).spec_mode() == old(self).spec_mode(),
            outcome == TestOutcome::Returned(0) ==> final(self).failed() == old(self).failed()
                && final(self).failures() == old(self).failures() && r@ == pass_line(
                testcase_name@,
                "ok"@,
            ),
            outcome != TestOutcome::Returned(0) ==> final(self).failed() && final(self).failures()
                == old(self).failures().push(testcase_name@),
            outcome matches TestOutcome::Returned(code) ==> (code != 0 ==> r@ == exit_line(
                testcase_name@,
                code,
            )),
            outcome matches TestOutcome::Panicked(Some(msg)) ==> r@ == panic_line(
                testcase_name@,
                msg@,
            ),
            outcome matches TestOutcome::Panicked(None) ==> r@ == unknown_panic_line(
                testcase_name@,
            ),
    {
        match outcome {
            TestOutcome::Returned(code) => {
                if code == 0 {
                    self.pass(testcase_name, "ok")
                } else {
                    self.record_failure(testcase_name);
                    let mut line = String::from_str("[FAIL]: (");
                    line.append(testcase_name);
                    line.append(") exited with: ");
                    let text = decimal(code);
                    line.append(text.as_str());
                    line.append("\n");
                    line
                }
            },
            TestOutcome::Panicked(payload) => {
                self.record_failure(testcase_name);
                let mut line = String::from_str("[FAIL]: (");
                line.append(testcase_name);
                match payload {
                    Some(msg) => {
                        line.append(") panicked: ");
                        line.append(msg.as_str());
                        line.append("\n");
                    },
                    None => {
                        line.append(") panicked: unknown panic payload\n");
                    },
                }
                line
            },
        }
    }

    /// Records how the test case `testcase_name`, which is expected to panic, ended and
    /// returns its report line: it passes when it panicked and fails otherwise.
    pub fn should_panic(&mut self, testcase_name: &'a str, panicked: bool) -> (r: String)
        ensures
            final(self).spec_mode() == old(self).spec_mode(),
            panicked ==> final(self).failed() == old(self).failed() && final(self).failures()
                == old(self).failures() && r@ == pass_line(testcase_name@, "ok"@),
            !panicked ==> final(self).failed() && final(self).failures() == old(
                self,
            ).failures().push(testcase_name@) && r@ == no_panic_line(testcase_name@),
    {
        if panicked {
            self.pass(testcase_name, "ok")
        } else {
            self.record_failure(testcase_name);
            let mut line = String::from_str("[FAIL]: (");
            line.append(testcase_name);
            line.append("): does not panicked\n");
            line
        }
    }

    /// Runs a group of test cases on this runner.
    pub fn run_group<F: Fn(&mut TestRunner<'a>)>(&mut self, f: F)
        requires
            forall|s: &mut TestRunner<'a>| f.requires((s,)),
        ensures
            exists|s: &mut TestRunner<'a>|
                *s == *old(self) && *final(s) == *final(self) && f.ensures((s,), ()),
    {
        f(self)
    }

    /// What the program does once the report is complete: a runner that writes to a file or
    /// pipe exits, one that writes to a display sleeps.
    pub fn quit(self) -> (r: QuitAction)
        ensures
            r == match self.spec_mode() {
                TestRunnerMode::Fifo(_) | TestRunnerMode::File(_) => QuitAction::ExitGame,
                TestRunnerMode::Stdout | TestRunnerMode::Screen => QuitAction::SleepThread,
            },
    {
        match self.mode {
            TestRunnerMode::Fifo(_) | TestRunnerMode::File(_) => QuitAction::ExitGame,
            TestRunnerMode::Stdout | TestRunnerMode::Screen => QuitAction::SleepThread,
        }
    }

    /// Ends the run: returns the lines that end the report (the failing test cases and the
    /// failure token, or the success token) and what to do next.
    pub fn finish_run(self) -> (r: (String, QuitAction))
        ensures
            r.0@ == final_lines(self.failures()),
            r.1 == match self.spec_mode() {
                TestRunnerMode::Fifo(_) | TestRunnerMode::File(_) => QuitAction::ExitGame,
                TestRunnerMode::Stdout | TestRunnerMode::Screen => QuitAction::SleepThread,
            },
    {
        proof {
            use_type_invariant(&self);
        }
        let mut lines;
        if self.failure {
            lines = String::from_str("Failing tests: ");
            let names = debug_names(&self.failures);
            lines.append(names.as_str());
            lines.append("\n");
            lines.append(FAILURE_TOKEN);
            lines.append("\n");
        } else {
            lines = String::from_str(SUCCESS_TOKEN);
            lines.append("\n");
        }
        let action = self.quit();
        (lines, action)
    }
}

} // verus!
