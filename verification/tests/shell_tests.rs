use rsh::shell::{Shell, ShellResult, MAX_HISTORY};

fn type_line(shell: &mut Shell, line: &str) {
    for c in line.chars() {
        shell.input(c);
    }
}

fn submit_line(shell: &mut Shell, line: &str) -> ShellResult {
    type_line(shell, line);
    shell.submit()
}

fn output_texts(shell: &Shell) -> Vec<String> {
    let mut r = Vec::new();
    let mut i = 0;
    while i < shell.output_len() {
        r.push(shell.output_at(i).text);
        i += 1;
    }
    r
}

#[test]
fn editing_inserts_at_the_cursor() {
    let mut shell = Shell::new();
    type_line(&mut shell, "ac");
    shell.cursor_left();
    shell.input('b');
    assert_eq!(shell.input_buffer(), "abc");
    assert_eq!(shell.cursor_pos(), 2);
}

#[test]
fn backspace_removes_before_the_cursor() {
    let mut shell = Shell::new();
    type_line(&mut shell, "abc");
    shell.cursor_left();
    shell.backspace();
    assert_eq!(shell.input_buffer(), "ac");
    assert_eq!(shell.cursor_pos(), 1);
    shell.cursor_left();
    shell.backspace();
    assert_eq!(shell.input_buffer(), "ac");
}

#[test]
fn cursor_moves_clamp_to_the_line() {
    let mut shell = Shell::new();
    type_line(&mut shell, "ab");
    shell.cursor_right();
    assert_eq!(shell.cursor_pos(), 2);
    shell.cursor_left();
    shell.cursor_left();
    shell.cursor_left();
    assert_eq!(shell.cursor_pos(), 0);
}

#[test]
fn ls_scenario_shows_visible_entries_only() {
    let mut shell = Shell::new();
    let r = submit_line(&mut shell, "ls");
    assert!(matches!(r, ShellResult::Nothing));
    let ts = output_texts(&shell);
    for name in ["about", "contact", "dashboard", "resume", "README.md", "blog/", "downloads/"] {
        assert!(ts.iter().any(|t| t == name), "missing {name}");
    }
    assert!(!ts.iter().any(|t| t == ".profile" || t == ".secret"));
}

#[test]
fn cat_scenario_renders_the_stored_content() {
    let mut shell = Shell::new();
    submit_line(&mut shell, "cat README.md");
    let ts = output_texts(&shell);
    let expected: Vec<String> = rsh::filesystem::README_TEXT.lines().map(String::from).collect();
    // Everything after the echoed prompt line is the file, verbatim.
    assert_eq!(&ts[1..], expected.as_slice());
}

#[test]
fn cd_then_pwd_scenario() {
    let mut shell = Shell::new();
    submit_line(&mut shell, "cd blog");
    submit_line(&mut shell, "pwd");
    let ts = output_texts(&shell);
    assert_eq!(ts.last().unwrap(), "~/blog");
    assert_eq!(shell.cwd(), "~/blog");
    // The prompt follows the working directory.
    assert_eq!(shell.get_prompt(), "guest@uchindami:~/blog$ ");
}

#[test]
fn cd_failure_scenario_leaves_cwd_unchanged() {
    let mut shell = Shell::new();
    let before = shell.cwd();
    submit_line(&mut shell, "cd nope");
    assert_eq!(shell.cwd(), before);
    assert_eq!(shell.cwd(), "~");
    let ts = output_texts(&shell);
    assert!(ts.last().unwrap().contains("nope"));
}

#[test]
fn dashboard_scenario_launches_and_echoes_only() {
    let mut shell = Shell::new();
    let r = submit_line(&mut shell, "dashboard");
    match r {
        ShellResult::LaunchApp(name) => assert_eq!(name, "dashboard"),
        _ => panic!("dashboard must launch a view"),
    }
    // Only the echoed prompt line was appended.
    assert_eq!(shell.output_len(), 1);
    assert!(output_texts(&shell)[0].ends_with("dashboard"));
}

#[test]
fn exit_scenario_returns_exit_without_history() {
    let mut shell = Shell::new();
    let r = submit_line(&mut shell, "exit");
    assert!(matches!(r, ShellResult::Exit));
    assert_eq!(shell.history_len(), 0);
    let mut shell = Shell::new();
    let r = submit_line(&mut shell, "quit");
    assert!(matches!(r, ShellResult::Exit));
    assert_eq!(shell.history_len(), 0);
}

#[test]
fn empty_submit_echoes_but_runs_nothing() {
    let mut shell = Shell::new();
    let r = submit_line(&mut shell, "   ");
    assert!(matches!(r, ShellResult::Nothing));
    assert_eq!(shell.output_len(), 1);
    assert_eq!(shell.history_len(), 0);
    assert_eq!(shell.input_buffer(), "");
}

#[test]
fn history_bound_evicts_the_oldest_fifo() {
    let mut shell = Shell::new();
    let mut i = 0;
    while i < MAX_HISTORY + 1 {
        submit_line(&mut shell, &format!("echo {i}"));
        i += 1;
    }
    assert_eq!(shell.history_len(), MAX_HISTORY);
    assert_eq!(shell.history_at(0), "echo 1");
    assert_eq!(shell.history_at(MAX_HISTORY - 1), format!("echo {}", MAX_HISTORY));
}

#[test]
fn immediate_repeats_are_deduplicated() {
    let mut shell = Shell::new();
    submit_line(&mut shell, "pwd");
    submit_line(&mut shell, "pwd");
    assert_eq!(shell.history_len(), 1);
    assert_eq!(shell.history_at(0), "pwd");
    submit_line(&mut shell, "ls");
    submit_line(&mut shell, "pwd");
    assert_eq!(shell.history_len(), 3);
}

#[test]
fn history_recall_steps_through_entries() {
    let mut shell = Shell::new();
    submit_line(&mut shell, "pwd");
    submit_line(&mut shell, "ls");
    shell.history_prev();
    assert_eq!(shell.input_buffer(), "ls");
    assert_eq!(shell.cursor_pos(), 2);
    shell.history_prev();
    assert_eq!(shell.input_buffer(), "pwd");
    shell.history_prev();
    assert_eq!(shell.input_buffer(), "pwd");
    shell.history_next();
    assert_eq!(shell.input_buffer(), "ls");
    shell.history_next();
    assert_eq!(shell.input_buffer(), "");
    shell.history_next();
    assert_eq!(shell.input_buffer(), "");
}

#[test]
fn typing_cancels_history_recall() {
    let mut shell = Shell::new();
    submit_line(&mut shell, "pwd");
    shell.history_prev();
    shell.input('x');
    // A later recall starts again from the most recent entry.
    shell.history_prev();
    assert_eq!(shell.input_buffer(), "pwd");
}

#[test]
fn tab_complete_empty_input_lists_without_touching_it() {
    let mut shell = Shell::new();
    shell.tab_complete();
    assert_eq!(shell.input_buffer(), "");
    // Several candidates: the prompt echo plus the sorted listing appear.
    assert_eq!(shell.output_len(), 2);
    let ts = output_texts(&shell);
    assert!(ts[1].contains("./about"));
    assert!(ts[1].contains("./resume"));
    assert!(ts[1].contains("./contact"));
    assert!(ts[1].contains("./dashboard"));
}

#[test]
fn tab_complete_single_match_fills_the_line() {
    let mut shell = Shell::new();
    type_line(&mut shell, "cat RE");
    shell.tab_complete();
    assert_eq!(shell.input_buffer(), "cat README.md");
    assert_eq!(shell.cursor_pos(), "cat README.md".chars().count());
    assert_eq!(shell.output_len(), 0);
}

#[test]
fn tab_complete_no_match_is_a_no_op() {
    let mut shell = Shell::new();
    type_line(&mut shell, "zzz");
    shell.tab_complete();
    assert_eq!(shell.input_buffer(), "zzz");
    assert_eq!(shell.output_len(), 0);
}

#[test]
fn clear_empties_the_scrollback() {
    let mut shell = Shell::new();
    shell.show_welcome();
    submit_line(&mut shell, "ls");
    assert!(shell.output_len() > 0);
    submit_line(&mut shell, "clear");
    assert_eq!(shell.output_len(), 0);
}

#[test]
fn welcome_banner_is_appended() {
    let mut shell = Shell::new();
    shell.show_welcome();
    let ts = output_texts(&shell);
    assert!(ts.iter().any(|t| t == "Connecting to uchindami.dev..."));
    assert!(ts.iter().any(|t| t.contains("Type 'ls' to see available commands")));
}

#[test]
fn echo_line_carries_prompt_and_trimmed_command() {
    let mut shell = Shell::new();
    submit_line(&mut shell, "  pwd  ");
    let ts = output_texts(&shell);
    assert_eq!(ts[0], "guest@uchindami:~$ pwd");
}

#[test]
fn scrollback_is_capped_with_oldest_evicted() {
    let mut shell = Shell::new();
    let mut i = 0;
    while i < 30 {
        submit_line(&mut shell, "cat README.md");
        i += 1;
    }
    assert_eq!(shell.output_len(), rsh::shell::MAX_OUTPUT_LINES);
    // The newest line is still the last line of the file.
    let last = shell.output_at(shell.output_len() - 1);
    assert_eq!(last.text, "Enjoy exploring!");
}

#[test]
fn visible_output_shows_the_last_lines() {
    let mut shell = Shell::new();
    submit_line(&mut shell, "ls");
    let all = shell.output_len();
    let tail = shell.visible_output(3);
    assert_eq!(tail.len(), 3);
    assert_eq!(tail[2].text, shell.output_at(all - 1).text);
    let everything = shell.visible_output(10_000);
    assert_eq!(everything.len(), all);
}
