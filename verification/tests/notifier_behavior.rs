use notifier::envelope::Color;
use notifier::envelope::Comment;
use notifier::envelope::deallocate_message;
use notifier::lifecycle::Mode;
use notifier::lifecycle::Notifier;
use notifier::lifecycle::version;
use notifier::source::connected_comment;
use notifier::source::counter_line;
use notifier::source::external_startup_comment;
use notifier::source::handle_external_line;
use notifier::source::message_comment;
use notifier::source::run_synthetic;
use notifier::source::synthetic_startup_comment;
use notifier::source::synthetic_step;

#[test]
fn version_is_three() {
    assert_eq!(version(), 3);
}

#[test]
fn start_spawns_once() {
    let mut n = Notifier::new();
    assert!(!n.running());
    assert!(n.start(Mode::Push));
    assert!(n.running());
    assert!(!n.start(Mode::Push));
    assert!(!n.start(Mode::Pull));
    assert!(n.running());
    assert!(n.stop());
}

#[test]
fn stop_without_start_is_a_noop() {
    let mut n = Notifier::new();
    assert!(!n.stop());
    assert!(!n.stop());
    assert!(!n.running());
}

#[test]
fn stop_is_idempotent_after_start() {
    let mut n = Notifier::new();
    assert!(n.start(Mode::Pull));
    assert!(n.stop());
    assert!(!n.stop());
    assert!(!n.running());
}

#[test]
fn scenario_a_push_run_delivers_banner_then_counters() {
    let mut n = Notifier::new();
    let mut recorded: Vec<Comment> = Vec::new();
    assert!(n.start(Mode::Push));
    run_synthetic(&mut n, 3, &mut recorded);
    assert!(n.stop());
    assert_eq!(recorded.len(), 4);
    assert_eq!(recorded[0].text, "Notifier v3 started");
    assert_eq!(recorded[0].color, Color(40, 40, 255));
    assert_eq!(recorded[1].text, "#0");
    assert_eq!(recorded[2].text, "#1");
    assert_eq!(recorded[3].text, "#2");
    for c in recorded.iter().skip(1) {
        assert_eq!(c.color, Color(40, 255, 40));
    }
}

#[test]
fn scenario_b_second_drain_is_empty() {
    let mut n = Notifier::new();
    let mut unused: Vec<Comment> = Vec::new();
    assert!(n.start(Mode::Pull));
    run_synthetic(&mut n, 2, &mut unused);
    assert!(unused.is_empty());
    let mut first: Vec<Comment> = Vec::new();
    n.sync_process_queue(&mut first);
    assert_eq!(first.len(), 3);
    let mut second: Vec<Comment> = Vec::new();
    n.sync_process_queue(&mut second);
    assert!(second.is_empty());
    assert_eq!(first[0].text, "Notifier v3 started");
    assert_eq!(first[1].text, "#0");
    assert_eq!(first[2].text, "#1");
    assert!(n.stop());
}

#[test]
fn scenario_c_stop_right_after_start() {
    let mut n = Notifier::new();
    assert!(n.start(Mode::Pull));
    assert!(n.stop());
    assert!(!n.running());
}

#[test]
fn cancellation_is_seen_between_events() {
    let mut n = Notifier::new();
    let mut unused: Vec<Comment> = Vec::new();
    assert!(n.start(Mode::Pull));
    n.signal_stop();
    assert!(n.running());
    assert!(!n.should_continue());
    run_synthetic(&mut n, 5, &mut unused);
    let mut drained: Vec<Comment> = Vec::new();
    n.sync_process_queue(&mut drained);
    assert_eq!(drained.len(), 1);
    assert_eq!(drained[0].text, "Notifier v3 started");
    assert!(n.take_worker());
    assert!(!n.running());
}

#[test]
fn drains_preserve_production_order() {
    let mut n = Notifier::new();
    let mut unused: Vec<Comment> = Vec::new();
    assert!(n.start(Mode::Pull));
    run_synthetic(&mut n, 10, &mut unused);
    let mut drained: Vec<Comment> = Vec::new();
    n.sync_process_queue(&mut drained);
    assert_eq!(drained.len(), 11);
    for (i, c) in drained.iter().skip(1).enumerate() {
        assert_eq!(c.text, format!("#{}", i));
    }
    let (handed, keep) = handle_external_line(&mut n, String::from("late line"));
    assert!(handed.is_none());
    assert!(keep);
    let mut tail: Vec<Comment> = Vec::new();
    n.sync_process_queue(&mut tail);
    assert_eq!(tail.len(), 1);
    assert_eq!(tail[0].text, "late line");
    assert_eq!(tail[0].color, Color(255, 192, 127));
    assert!(n.stop());
}

#[test]
fn line_received_after_cancellation_is_dropped() {
    let mut n = Notifier::new();
    assert!(n.start(Mode::Pull));
    let (handed, keep) = handle_external_line(&mut n, String::from("before the signal"));
    assert!(handed.is_none());
    assert!(keep);
    n.signal_stop();
    let (handed, keep) = handle_external_line(&mut n, String::from("after the signal"));
    assert!(handed.is_none());
    assert!(!keep);
    let mut drained: Vec<Comment> = Vec::new();
    n.sync_process_queue(&mut drained);
    assert_eq!(drained.len(), 1);
    assert_eq!(drained[0].text, "before the signal");
    assert!(n.take_worker());
}

#[test]
fn push_line_after_cancellation_is_not_handed_out() {
    let mut n = Notifier::new();
    assert!(n.start(Mode::Push));
    n.signal_stop();
    let (handed, keep) = handle_external_line(&mut n, String::from("too late"));
    assert!(handed.is_none());
    assert!(!keep);
    assert!(n.take_worker());
}

#[test]
fn synthetic_step_obeys_the_cancellation_flag() {
    let mut n = Notifier::new();
    assert!(n.start(Mode::Pull));
    let (handed, keep) = synthetic_step(&mut n, 0);
    assert!(handed.is_none());
    assert!(keep);
    n.signal_stop();
    let (handed, keep) = synthetic_step(&mut n, 1);
    assert!(handed.is_none());
    assert!(!keep);
    let mut drained: Vec<Comment> = Vec::new();
    n.sync_process_queue(&mut drained);
    assert_eq!(drained.len(), 1);
    assert_eq!(drained[0].text, "#0");
    assert_eq!(drained[0].color, Color(40, 255, 40));
    assert!(n.take_worker());
}

#[test]
fn push_envelopes_release_exactly_once() {
    let mut n = Notifier::new();
    let mut recorded: Vec<Comment> = Vec::new();
    assert!(n.start(Mode::Push));
    run_synthetic(&mut n, 2, &mut recorded);
    assert!(n.stop());
    assert_eq!(recorded.len(), 3);
    for c in recorded {
        deallocate_message(c);
    }
}

#[test]
fn external_line_is_wrapped_and_handed_out_in_push_mode() {
    let mut n = Notifier::new();
    assert!(n.start(Mode::Push));
    let (handed, keep) = handle_external_line(&mut n, String::from("PRIVMSG #cc.ru :hi"));
    assert!(keep);
    let c = handed.expect("push mode hands the envelope out");
    assert_eq!(c.text, "PRIVMSG #cc.ru :hi");
    assert_eq!(c.color, Color(255, 192, 127));
    deallocate_message(c);
    assert!(n.stop());
}

#[test]
fn counter_lines_are_decimal() {
    assert_eq!(counter_line(0).as_str(), "#0");
    assert_eq!(counter_line(7).as_str(), "#7");
    assert_eq!(counter_line(10).as_str(), "#10");
    assert_eq!(counter_line(100).as_str(), "#100");
    assert_eq!(counter_line(12345).as_str(), "#12345");
    assert_eq!(counter_line(18446744073709551615).as_str(), "#18446744073709551615");
}

#[test]
fn banner_envelopes_have_their_texts_and_colors() {
    let synth = synthetic_startup_comment();
    assert_eq!(synth.text, "Notifier v3 started");
    assert_eq!(synth.color, Color(40, 40, 255));
    let ext = external_startup_comment();
    assert_eq!(ext.text, "Notifier v3 started");
    assert_eq!(ext.color, Color(127, 127, 255));
    let conn = connected_comment();
    assert_eq!(conn.text, "Connected to #cc.ru as ProgramCrafter");
    assert_eq!(conn.color, Color(127, 127, 255));
    let msg = message_comment(String::from("a line"));
    assert_eq!(msg.text, "a line");
    assert_eq!(msg.color, Color(255, 192, 127));
}
