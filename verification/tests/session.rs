use wincmd::cmd::{ChildReport, Cmd, CmdEvent, MAX_OUTPUT, OUTPUT_SLACK};

fn report(stdout: &str, stderr: &str, dead: bool) -> Option<ChildReport> {
    Some(ChildReport { stdout: stdout.to_string(), stderr: stderr.to_string(), dead })
}

fn events(cmd: &mut Cmd<u32>) -> Vec<CmdEvent> {
    cmd.drain_events().into_iter().collect()
}

#[test]
fn new_session_is_empty_and_running() {
    let mut cmd: Cmd<u32> = Cmd::new();
    assert_eq!(cmd.get_stdout(), "");
    assert_eq!(cmd.get_stdin(), "");
    assert!(!cmd.is_exited());
    assert!(!cmd.is_handling_subprocess());
    assert_eq!(events(&mut cmd), vec![]);
}

#[test]
fn typing_mirrors_into_the_output() {
    let mut cmd: Cmd<u32> = Cmd::new();
    cmd.write_stdout("C:\\>");
    cmd.put_stdin('d');
    cmd.put_stdin('i');
    cmd.put_stdin('r');
    assert_eq!(cmd.get_stdin(), "dir");
    assert_eq!(cmd.get_stdout(), "C:\\>dir");
    assert_eq!(
        events(&mut cmd),
        vec![
            CmdEvent::StdoutChanged,
            CmdEvent::StdoutChanged,
            CmdEvent::StdoutChanged,
            CmdEvent::StdoutChanged
        ]
    );
}

#[test]
fn erasing_all_that_was_typed_restores_the_output() {
    let mut cmd: Cmd<u32> = Cmd::new();
    cmd.write_stdout("prompt>");
    cmd.put_stdin('x');
    let before_out = cmd.get_stdout().to_string();
    let before_in = cmd.get_stdin().to_string();
    for c in "héllo wörld".chars() {
        cmd.put_stdin(c);
    }
    assert_eq!(cmd.get_stdout(), "prompt>xhéllo wörld");
    for _ in "héllo wörld".chars() {
        cmd.pop_stdin();
    }
    assert_eq!(cmd.get_stdout(), before_out);
    assert_eq!(cmd.get_stdout().chars().count(), before_out.chars().count());
    assert_eq!(cmd.get_stdin(), before_in);
}

#[test]
fn pop_takes_one_character_from_both() {
    let mut cmd: Cmd<u32> = Cmd::new();
    cmd.put_stdin('a');
    cmd.put_stdin('b');
    cmd.drain_events();
    cmd.pop_stdin();
    assert_eq!(cmd.get_stdin(), "a");
    assert_eq!(cmd.get_stdout(), "a");
    assert_eq!(events(&mut cmd), vec![CmdEvent::StdoutChanged]);
}

#[test]
fn pop_on_empty_input_does_nothing() {
    let mut cmd: Cmd<u32> = Cmd::new();
    cmd.write_stdout("abc");
    cmd.drain_events();
    cmd.pop_stdin();
    assert_eq!(cmd.get_stdout(), "abc");
    assert_eq!(cmd.get_stdin(), "");
    assert_eq!(events(&mut cmd), vec![]);
}

#[test]
fn pop_with_empty_output_takes_from_the_input_only() {
    let mut cmd: Cmd<u32> = Cmd::new();
    cmd.put_stdin('a');
    cmd.clear();
    cmd.drain_events();
    cmd.pop_stdin();
    assert_eq!(cmd.get_stdin(), "");
    assert_eq!(cmd.get_stdout(), "");
    assert_eq!(events(&mut cmd), vec![CmdEvent::StdoutChanged]);
}

#[test]
fn flush_returns_the_line_and_empties_it() {
    let mut cmd: Cmd<u32> = Cmd::new();
    cmd.put_stdin('l');
    cmd.put_stdin('s');
    let flushed = cmd.flush_stdin();
    assert_eq!(flushed.line, "ls");
    assert!(!flushed.forward);
    assert_eq!(cmd.get_stdin(), "");
    assert_eq!(cmd.get_stdout(), "ls");
    let again = cmd.flush_stdin();
    assert_eq!(again.line, "");
}

#[test]
fn flush_forwards_while_a_process_is_attached() {
    let mut cmd: Cmd<u32> = Cmd::new();
    cmd.attach_child(Some(7));
    cmd.put_stdin('y');
    let flushed = cmd.flush_stdin();
    assert_eq!(flushed.line, "y");
    assert!(flushed.forward);
    assert_eq!(cmd.get_stdin(), "");
    assert!(cmd.is_handling_subprocess());
}

#[test]
fn writes_append_and_emit() {
    let mut cmd: Cmd<u32> = Cmd::new();
    cmd.write_stdout("ab");
    cmd.put_stdout('c');
    cmd.write_stdout("");
    assert_eq!(cmd.get_stdout(), "abc");
    assert_eq!(cmd.get_stdin(), "");
    assert_eq!(
        events(&mut cmd),
        vec![CmdEvent::StdoutChanged, CmdEvent::StdoutChanged, CmdEvent::StdoutChanged]
    );
}

#[test]
fn trigger_emits_without_writing() {
    let mut cmd: Cmd<u32> = Cmd::new();
    cmd.trigger_stdout_update();
    assert_eq!(cmd.get_stdout(), "");
    assert_eq!(events(&mut cmd), vec![CmdEvent::StdoutChanged]);
}

#[test]
fn drain_empties_the_queue_in_order() {
    let mut cmd: Cmd<u32> = Cmd::new();
    cmd.attach_child(Some(1));
    cmd.update(report("", "", true));
    cmd.put_stdout('x');
    assert_eq!(cmd.events.len(), 4);
    assert_eq!(
        events(&mut cmd),
        vec![
            CmdEvent::StdoutChanged,
            CmdEvent::StdoutChanged,
            CmdEvent::ChildExited,
            CmdEvent::StdoutChanged
        ]
    );
    assert_eq!(cmd.events.len(), 0);
    assert_eq!(events(&mut cmd), vec![]);
}

#[test]
fn exit_ends_the_session() {
    let mut cmd: Cmd<u32> = Cmd::new();
    cmd.write_stdout("bye");
    cmd.exit();
    assert!(cmd.is_exited());
    assert_eq!(cmd.get_stdout(), "bye");
}

#[test]
fn clear_empties_the_output_only() {
    let mut cmd: Cmd<u32> = Cmd::new();
    cmd.attach_child(Some(3));
    cmd.write_stdout("hello");
    cmd.put_stdin('k');
    cmd.drain_events();
    cmd.clear();
    assert_eq!(cmd.get_stdout(), "");
    assert_eq!(cmd.get_stdin(), "k");
    assert!(cmd.is_handling_subprocess());
    assert!(!cmd.is_exited());
    assert_eq!(events(&mut cmd), vec![]);
}

#[test]
fn attach_hands_back_the_previous_process() {
    let mut cmd: Cmd<u32> = Cmd::new();
    assert_eq!(cmd.attach_child(Some(1)), None);
    assert!(cmd.is_handling_subprocess());
    assert_eq!(cmd.attach_child(Some(2)), Some(1));
    assert!(cmd.is_handling_subprocess());
    assert_eq!(events(&mut cmd), vec![]);
    assert_eq!(cmd.attach_child(None), Some(2));
    assert!(!cmd.is_handling_subprocess());
    assert_eq!(cmd.attach_child(None), None);
    assert_eq!(events(&mut cmd), vec![CmdEvent::ChildExited]);
}

#[test]
fn detaching_announces_the_exit_once() {
    let mut cmd: Cmd<u32> = Cmd::new();
    cmd.write_stdout("x");
    cmd.attach_child(Some(1));
    cmd.drain_events();
    let before = cmd.events.len();
    cmd.attach_child(None);
    assert!(!cmd.is_handling_subprocess());
    assert_eq!(cmd.events.len(), before + 1);
    assert_eq!(events(&mut cmd), vec![CmdEvent::ChildExited]);
    cmd.attach_child(None);
    cmd.update(None);
    assert_eq!(events(&mut cmd), vec![]);
    assert_eq!(cmd.get_stdout(), "x");
}

#[test]
fn child_mut_lends_the_attached_process() {
    let mut cmd: Cmd<u32> = Cmd::new();
    assert!(cmd.child_mut().is_none());
    cmd.attach_child(Some(5));
    if let Some(p) = cmd.child_mut() {
        assert_eq!(*p, 5);
        *p = 6;
    }
    assert_eq!(cmd.attach_child(None), Some(6));
}

#[test]
fn tick_without_process_ignores_the_report() {
    let mut cmd: Cmd<u32> = Cmd::new();
    cmd.write_stdout("a");
    cmd.drain_events();
    cmd.update(report("out", "err", true));
    assert_eq!(cmd.get_stdout(), "a");
    assert_eq!(events(&mut cmd), vec![]);
    cmd.update(None);
    assert_eq!(cmd.get_stdout(), "a");
    assert_eq!(events(&mut cmd), vec![]);
}

#[test]
fn tick_without_report_leaves_the_process_attached() {
    let mut cmd: Cmd<u32> = Cmd::new();
    cmd.attach_child(Some(1));
    cmd.update(None);
    assert!(cmd.is_handling_subprocess());
    assert_eq!(cmd.get_stdout(), "");
    assert_eq!(events(&mut cmd), vec![]);
}

#[test]
fn tick_drains_stdout_before_stderr() {
    let mut cmd: Cmd<u32> = Cmd::new();
    cmd.attach_child(Some(1));
    cmd.write_stdout(">");
    cmd.drain_events();
    cmd.update(report("out", "err", false));
    assert_eq!(cmd.get_stdout(), ">outerr");
    assert!(cmd.is_handling_subprocess());
    assert_eq!(events(&mut cmd), vec![CmdEvent::StdoutChanged, CmdEvent::StdoutChanged]);
    cmd.update(report("", "", false));
    assert_eq!(cmd.get_stdout(), ">outerr");
    assert_eq!(events(&mut cmd), vec![CmdEvent::StdoutChanged, CmdEvent::StdoutChanged]);
}

#[test]
fn dead_process_is_detached_and_announced_once() {
    let mut cmd: Cmd<u32> = Cmd::new();
    cmd.attach_child(Some(1));
    cmd.update(report("last words", "", true));
    assert!(!cmd.is_handling_subprocess());
    assert_eq!(cmd.get_stdout(), "last words");
    let first = events(&mut cmd);
    assert_eq!(
        first,
        vec![CmdEvent::StdoutChanged, CmdEvent::StdoutChanged, CmdEvent::ChildExited]
    );
    assert_eq!(first.iter().filter(|e| **e == CmdEvent::ChildExited).count(), 1);
    cmd.update(report("ghost", "", true));
    cmd.update(None);
    assert_eq!(cmd.get_stdout(), "last words");
    assert_eq!(events(&mut cmd), vec![]);
}

#[test]
fn tick_trims_to_the_maximum_once_the_slack_is_exceeded() {
    let mut cmd: Cmd<u32> = Cmd::with_limits(10, 3);
    cmd.write_stdout("0123456789abcd");
    assert_eq!(cmd.get_stdout(), "0123456789abcd");
    cmd.update(None);
    assert_eq!(cmd.get_stdout(), "456789abcd");
    assert_eq!(cmd.get_stdout().chars().count(), 10);
}

#[test]
fn tick_does_not_trim_within_the_slack() {
    let mut cmd: Cmd<u32> = Cmd::with_limits(10, 3);
    cmd.write_stdout("0123456789abc");
    cmd.update(None);
    assert_eq!(cmd.get_stdout(), "0123456789abc");
    cmd.write_stdout("d");
    cmd.update(None);
    assert_eq!(cmd.get_stdout(), "456789abcd");
}

#[test]
fn tick_counts_characters_not_bytes() {
    let mut cmd: Cmd<u32> = Cmd::with_limits(4, 1);
    cmd.write_stdout("äöüßéè");
    cmd.update(None);
    assert_eq!(cmd.get_stdout(), "üßéè");
    let mut near: Cmd<u32> = Cmd::with_limits(4, 1);
    near.write_stdout("äöüßé");
    near.update(None);
    assert_eq!(near.get_stdout(), "äöüßé");
}

#[test]
fn tick_trims_what_the_report_brought() {
    let mut cmd: Cmd<u32> = Cmd::with_limits(5, 0);
    cmd.attach_child(Some(1));
    cmd.write_stdout("abc");
    cmd.update(report("def", "gh", true));
    assert_eq!(cmd.get_stdout(), "defgh");
    assert!(!cmd.is_handling_subprocess());
}

#[test]
fn zero_limits_keep_nothing() {
    let mut cmd: Cmd<u32> = Cmd::with_limits(0, 0);
    cmd.write_stdout("abc");
    cmd.update(None);
    assert_eq!(cmd.get_stdout(), "");
    cmd.update(None);
    assert_eq!(cmd.get_stdout(), "");
}

#[test]
fn huge_limits_never_trim() {
    let mut cmd: Cmd<u32> = Cmd::with_limits(usize::MAX, usize::MAX);
    cmd.write_stdout("abc");
    cmd.update(None);
    assert_eq!(cmd.get_stdout(), "abc");
}

#[test]
fn default_limits_retain_fifty_thousand_characters() {
    assert_eq!(MAX_OUTPUT, 50000);
    assert_eq!(OUTPUT_SLACK, 10000);
    let mut cmd: Cmd<u32> = Cmd::new();
    let block: String = "0123456789".repeat(6000);
    cmd.write_stdout(&block);
    cmd.update(None);
    assert_eq!(cmd.get_stdout().len(), 60000);
    cmd.write_stdout("!");
    cmd.update(None);
    assert_eq!(cmd.get_stdout().len(), 50000);
    assert!(cmd.get_stdout().ends_with("6789!"));
    assert!(cmd.get_stdout().starts_with("1234567890"));
}
