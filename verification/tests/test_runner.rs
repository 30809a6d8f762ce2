use pspsdk::testrt::{psp_filename, QuitAction, TestOutcome, TestRunner, TestRunnerMode};

#[test]
fn report_lines() {
    let r = TestRunner::stdout_runner();
    assert_eq!(r.start_run(), "\n\nSTARTING_TESTS\n");
    assert_eq!(r.pass("alpha", "ok"), "[PASS]: (alpha) ok\n");
    assert_eq!(r.dbg("alpha", "note"), "[NOTE]: (alpha) note\n");
}

#[test]
fn failures_are_recorded() {
    let mut r = TestRunner::screen_runner();
    assert!(!r.has_failed());
    assert_eq!(r.fail("beta", "bad"), "[FAIL]: (beta) bad\n");
    assert!(r.has_failed());
    let (lines, action) = r.finish_run();
    assert_eq!(lines, "Failing tests: [\"beta\"]\nFINAL_FAILURE\n");
    assert_eq!(action, QuitAction::SleepThread);
}

#[test]
fn successful_run_ends_with_success_token() {
    let mut r = TestRunner::fifo_runner(3);
    assert_eq!(r.mode(), TestRunnerMode::Fifo(3));
    assert_eq!(r.test("gamma", TestOutcome::Returned(0)), "[PASS]: (gamma) ok\n");
    assert_eq!(r.should_panic("delta", true), "[PASS]: (delta) ok\n");
    let (lines, action) = r.finish_run();
    assert_eq!(lines, "FINAL_SUCCESS\n");
    assert_eq!(action, QuitAction::ExitGame);
}

#[test]
fn test_outcomes_give_their_lines() {
    let mut r = TestRunner::file_runner(4);
    assert_eq!(r.test("e", TestOutcome::Returned(3)), "[FAIL]: (e) exited with: 3\n");
    assert_eq!(r.test("f", TestOutcome::Returned(-12)), "[FAIL]: (f) exited with: -12\n");
    assert_eq!(
        r.test("g", TestOutcome::Panicked(Some(String::from("boom")))),
        "[FAIL]: (g) panicked: boom\n"
    );
    assert_eq!(
        r.test("h", TestOutcome::Panicked(None)),
        "[FAIL]: (h) panicked: unknown panic payload\n"
    );
    assert_eq!(r.should_panic("i", false), "[FAIL]: (i): does not panicked\n");
    let (lines, action) = r.finish_run();
    assert_eq!(
        lines,
        "Failing tests: [\"e\", \"f\", \"g\", \"h\", \"i\"]\nFINAL_FAILURE\n"
    );
    assert_eq!(action, QuitAction::ExitGame);
}

#[test]
fn run_group_runs_on_the_runner() {
    let mut r = TestRunner::stdout_runner();
    r.run_group(|t| {
        let _ = t.fail("grouped", "x");
    });
    assert!(r.has_failed());
    assert_eq!(r.quit(), QuitAction::SleepThread);
}

#[test]
fn test_file_paths() {
    assert_eq!(psp_filename("psp_output_pipe.fifo"), "ms0:/PSP/GAME/ATEST/psp_output_pipe.fifo\0");
}

#[test]
fn exit_codes_print_in_decimal() {
    let mut r = TestRunner::file_runner(3);
    assert_eq!(r.test("zero_digits", TestOutcome::Returned(10)), "[FAIL]: (zero_digits) exited with: 10\n");
    assert_eq!(
        r.test("lowest", TestOutcome::Returned(i32::MIN)),
        "[FAIL]: (lowest) exited with: -2147483648\n"
    );
    assert_eq!(
        r.test("highest", TestOutcome::Returned(i32::MAX)),
        "[FAIL]: (highest) exited with: 2147483647\n"
    );
    assert_eq!(r.test("minus_one", TestOutcome::Returned(-1)), "[FAIL]: (minus_one) exited with: -1\n");
}
