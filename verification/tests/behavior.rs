use panic_message_checking::capture::{capture, CallbackBehavior, CaptureOutcome};
use panic_message_checking::guard::GlobalInterceptionGuard;
use panic_message_checking::protocol::{evaluate, ProcessState, Verdict};
use panic_message_checking::relay::MessageRelay;
use panic_message_checking::text::{contains_substring, mismatch_diagnostic, no_failure_diagnostic};

const REFERENCE_TEXT: &str = "Character: \u{2013} U+2013
Name: EN DASH
General Character Properties
Block: General Punctuation
Unicode category: Punctuation, Dash
Various Useful Representations
UTF-8: 0xE2 0x80 0x93
UTF-16: 0x2013
C octal escaped UTF-8: \\342\\200\\223
XML decimal entity: &#8211;";

#[test]
fn passes_when_message_contains_expected() {
    let mut state = ProcessState::new();
    let verdict = state.run_assertion(
        CallbackBehavior::FailsWith(REFERENCE_TEXT.to_string()),
        REFERENCE_TEXT,
    );
    assert!(matches!(verdict, Verdict::Pass));
}

#[test]
fn mismatch_reports_both_strings() {
    let mut state = ProcessState::new();
    let verdict = state.run_assertion(
        CallbackBehavior::FailsWith("SOMETHING_DIFFERENT".to_string()),
        REFERENCE_TEXT,
    );
    match verdict {
        Verdict::Mismatch(diagnostic) => {
            assert!(diagnostic.starts_with("MISMATCH"));
            assert!(diagnostic.contains("SOMETHING_DIFFERENT"));
            assert!(diagnostic.contains(REFERENCE_TEXT));
        }
        _ => panic!("expected a mismatch verdict"),
    }
}

#[test]
fn no_failure_when_callback_returns() {
    let mut state = ProcessState::new();
    let verdict = state.run_assertion(CallbackBehavior::Returns, REFERENCE_TEXT);
    match verdict {
        Verdict::NoFailure(diagnostic) => {
            assert_eq!(diagnostic, "callable provided did not fail at all.");
            assert!(diagnostic.contains("did not fail at all."));
        }
        _ => panic!("expected a no-failure verdict"),
    }
}

#[test]
fn serialized_distinct_calls_both_pass() {
    let mut state = ProcessState::new();

    let first = state.run_assertion(
        CallbackBehavior::FailsWith("first failure: alpha".to_string()),
        "alpha",
    );
    assert!(matches!(first, Verdict::Pass));
    assert!(!state.is_guard_held());
    assert!(state.hook_is_default());

    let second = state.run_assertion(
        CallbackBehavior::FailsWith("second failure: beta".to_string()),
        "beta",
    );
    assert!(matches!(second, Verdict::Pass));
    assert!(!state.is_guard_held());
    assert!(state.hook_is_default());
}

#[test]
fn cross_matched_expectations_mismatch() {
    let mut state = ProcessState::new();

    let first = state.run_assertion(
        CallbackBehavior::FailsWith("first failure: alpha".to_string()),
        "beta",
    );
    match first {
        Verdict::Mismatch(diagnostic) => {
            assert!(diagnostic.contains("first failure: alpha"));
            assert!(diagnostic.contains("beta"));
        }
        _ => panic!("expected a mismatch verdict"),
    }

    let second = state.run_assertion(
        CallbackBehavior::FailsWith("second failure: beta".to_string()),
        "alpha",
    );
    assert!(matches!(second, Verdict::Mismatch(_)));
}

#[test]
fn guard_and_hook_restored_after_every_verdict() {
    let mut state = ProcessState::new();
    assert!(!state.is_guard_held());
    assert!(state.hook_is_default());

    let _ = state.run_assertion(CallbackBehavior::Returns, "anything");
    assert!(!state.is_guard_held());
    assert!(state.hook_is_default());

    let _ = state.run_assertion(CallbackBehavior::FailsWith("boom".to_string()), "boom");
    assert!(!state.is_guard_held());
    assert!(state.hook_is_default());

    let _ = state.run_assertion(CallbackBehavior::FailsWith("boom".to_string()), "other");
    assert!(!state.is_guard_held());
    assert!(state.hook_is_default());
}

#[test]
fn guard_acquires_by_compare_and_swap() {
    let mut guard = GlobalInterceptionGuard::new();
    assert!(!guard.held());
    assert!(guard.try_acquire());
    assert!(guard.held());
    assert!(!guard.try_acquire());
    guard.release();
    assert!(!guard.held());
    assert!(guard.try_acquire());
}

#[test]
fn relay_is_one_shot() {
    let mut relay = MessageRelay::new();
    assert!(!relay.poll_ready());
    relay.publish("captured text".to_string());
    assert!(relay.poll_ready());
    let message = relay.consume();
    assert_eq!(message, "captured text");
}

#[test]
fn capture_publishes_failing_message() {
    let mut relay = MessageRelay::new();
    let outcome = capture(CallbackBehavior::FailsWith("boom".to_string()), &mut relay);
    assert!(matches!(outcome, CaptureOutcome::Failed));
    assert!(relay.poll_ready());
    assert_eq!(relay.consume(), "boom");
}

#[test]
fn capture_leaves_relay_untouched_on_completion() {
    let mut relay = MessageRelay::new();
    let outcome = capture(CallbackBehavior::Returns, &mut relay);
    assert!(matches!(outcome, CaptureOutcome::Completed));
    assert!(!relay.poll_ready());
}

#[test]
fn evaluate_passes_on_contained_message() {
    let mut relay = MessageRelay::new();
    relay.publish("abc".to_string());
    let verdict = evaluate(CaptureOutcome::Failed, relay, "b");
    assert!(matches!(verdict, Verdict::Pass));
}

#[test]
fn evaluate_rejects_missing_substring() {
    let mut relay = MessageRelay::new();
    relay.publish("abc".to_string());
    let verdict = evaluate(CaptureOutcome::Failed, relay, "zz");
    match verdict {
        Verdict::Mismatch(diagnostic) => {
            assert_eq!(
                diagnostic,
                "MISMATCH \u{2014} expected message not contained\nMSG: abc\nEXP: zz"
            );
        }
        _ => panic!("expected a mismatch verdict"),
    }
}

#[test]
fn contains_substring_cases() {
    assert!(contains_substring("abc", ""));
    assert!(contains_substring("", ""));
    assert!(contains_substring("abc", "abc"));
    assert!(contains_substring("abc", "b"));
    assert!(contains_substring("abc", "bc"));
    assert!(!contains_substring("abc", "zz"));
    assert!(!contains_substring("ab", "abc"));
    assert!(!contains_substring("", "a"));
    assert!(contains_substring(REFERENCE_TEXT, "EN DASH"));
    assert!(contains_substring(REFERENCE_TEXT, REFERENCE_TEXT));
    assert!(!contains_substring(REFERENCE_TEXT, "SOMETHING_DIFFERENT"));
    assert!(contains_substring("a\u{2013}b", "\u{2013}"));
    assert!(!contains_substring("a\u{2013}b", "\u{2014}"));
}

#[test]
fn mismatch_diagnostic_exact_text() {
    let diagnostic = mismatch_diagnostic("abc", "xyz");
    assert_eq!(
        diagnostic,
        "MISMATCH \u{2014} expected message not contained\nMSG: abc\nEXP: xyz"
    );
}

#[test]
fn no_failure_diagnostic_exact_text() {
    assert_eq!(no_failure_diagnostic(), "callable provided did not fail at all.");
}
