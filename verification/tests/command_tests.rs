use rsh::commands::{execute_command, CommandResult};
use rsh::filesystem::VirtualFS;
use rsh::render::{LineKind, RenderLine};

fn run(cmd: &str, cwd: &str) -> (CommandResult, String) {
    let mut fs = VirtualFS::new();
    let mut cwd = cwd.to_string();
    let r = execute_command(cmd, &mut fs, &mut cwd);
    (r, cwd)
}

fn output_lines(r: CommandResult) -> Vec<RenderLine> {
    match r {
        CommandResult::Output(lines) => lines,
        _ => panic!("expected output"),
    }
}

fn texts(r: CommandResult) -> Vec<String> {
    output_lines(r).into_iter().map(|l| l.text).collect()
}

#[test]
fn empty_input_is_a_quiet_no_op() {
    let (r, cwd) = run("", "~");
    assert!(texts(r).is_empty());
    assert_eq!(cwd, "~");
    let (r, _) = run("   ", "~");
    assert!(texts(r).is_empty());
}

#[test]
fn unknown_command_reports_not_found() {
    let (r, _) = run("frobnicate", "~");
    let lines = output_lines(r);
    assert_eq!(lines.len(), 1);
    assert_eq!(lines[0].text, "rsh: command not found: frobnicate");
    assert_eq!(lines[0].kind, LineKind::Error);
}

#[test]
fn ls_at_root_hides_dot_entries() {
    let (r, _) = run("ls", "~");
    let ts = texts(r);
    assert_eq!(
        ts,
        vec!["README.md", "about", "dashboard", "resume", "contact", "blog/", "downloads/"]
    );
}

#[test]
fn ls_show_all_lists_hidden_and_total() {
    let (r, _) = run("ls -la", "~");
    let ts = texts(r);
    assert_eq!(ts[0], "total 9");
    assert!(ts.iter().any(|t| t.ends_with(".profile")));
    assert!(ts.iter().any(|t| t.ends_with(".secret")));
    // The long form carries permissions and a right-aligned size.
    assert!(ts.iter().any(|t| t.starts_with("-rw-r--r--  1 uchindami  uchindami  ")));
    assert!(ts.contains(&"-rw-r--r--  1 uchindami  uchindami    220 .profile".to_string()));
    assert!(ts.contains(&"-rwxr-xr-x  1 uchindami  uchindami     42K about".to_string()));
}

#[test]
fn ls_missing_target_is_an_error_line() {
    let (r, _) = run("ls nowhere", "~");
    let lines = output_lines(r);
    assert_eq!(lines.len(), 1);
    assert_eq!(lines[0].text, "ls: cannot access 'nowhere': No such file or directory");
    assert_eq!(lines[0].kind, LineKind::Error);
}

#[test]
fn ls_takes_first_non_flag_argument() {
    let (r, _) = run("ls -a blog", "~");
    let ts = texts(r);
    assert_eq!(ts, vec!["total 1", "2026/"]);
}

#[test]
fn cat_renders_file_content_verbatim() {
    let (r, _) = run("cat README.md", "~");
    let ts = texts(r);
    let expected: Vec<String> = rsh::filesystem::README_TEXT.lines().map(String::from).collect();
    assert_eq!(ts, expected);
}

#[test]
fn cat_without_operand() {
    let (r, _) = run("cat", "~");
    assert_eq!(texts(r), vec!["cat: missing operand"]);
}

#[test]
fn cat_on_directory_and_executable_and_missing() {
    let (r, _) = run("cat blog", "~");
    assert_eq!(texts(r), vec!["cat: blog: Is a directory"]);
    let (r, _) = run("cat about", "~");
    assert_eq!(texts(r), vec!["cat: about: Is an executable (try running it with ./about)"]);
    let (r, _) = run("cat ghost", "~");
    assert_eq!(texts(r), vec!["cat: ghost: No such file or directory"]);
}

#[test]
fn cd_moves_into_directories_only() {
    let (r, cwd) = run("cd blog", "~");
    assert!(texts(r).is_empty());
    assert_eq!(cwd, "~/blog");
    let (r, cwd) = run("cd README.md", "~");
    assert_eq!(texts(r), vec!["cd: not a directory: README.md"]);
    assert_eq!(cwd, "~");
    let (r, cwd) = run("cd nope", "~");
    assert_eq!(texts(r), vec!["cd: no such file or directory: nope"]);
    assert_eq!(cwd, "~");
}

#[test]
fn cd_special_targets() {
    let (_, cwd) = run("cd", "~/blog");
    assert_eq!(cwd, "~");
    let (_, cwd) = run("cd ~", "~/blog");
    assert_eq!(cwd, "~");
    let (_, cwd) = run("cd ..", "~/blog/2026");
    assert_eq!(cwd, "~/blog");
    let (_, cwd) = run("cd .", "~/blog");
    assert_eq!(cwd, "~/blog");
}

#[test]
fn pwd_prints_the_working_directory() {
    let (r, _) = run("pwd", "~/blog");
    assert_eq!(texts(r), vec!["~/blog"]);
}

#[test]
fn clear_requests_a_screen_clear() {
    let (r, _) = run("clear", "~");
    assert!(matches!(r, CommandResult::Clear));
}

#[test]
fn launch_names_short_circuit_to_views() {
    for (cmd, name) in [
        ("dashboard", "dashboard"),
        ("./dashboard", "dashboard"),
        ("resume", "resume"),
        ("./resume", "resume"),
        ("contact", "contact"),
        ("./contact", "contact"),
        ("about", "about"),
        ("./about", "about"),
    ] {
        let (r, _) = run(cmd, "~");
        match r {
            CommandResult::AppLaunch(n) => assert_eq!(n, name),
            _ => panic!("{cmd} must launch a view"),
        }
    }
}

#[test]
fn echo_joins_its_arguments() {
    let (r, _) = run("echo hello   world", "~");
    assert_eq!(texts(r), vec!["hello world"]);
    let (r, _) = run("echo", "~");
    assert_eq!(texts(r), vec![""]);
}

#[test]
fn whoami_uname_date_history() {
    let (r, _) = run("whoami", "~");
    assert_eq!(texts(r), vec!["guest"]);
    let (r, _) = run("uname", "~");
    assert_eq!(texts(r), vec!["PortfolioOS"]);
    let (r, _) = run("uname -a", "~");
    assert_eq!(texts(r), vec!["PortfolioOS 2.0.26-uchindami #1 SMP Rust x86_64 GNU/Rust"]);
    let (r, _) = run("date", "~");
    assert_eq!(texts(r), vec!["Wed Jan 29 10:30:00 CAT 2026"]);
    let (r, _) = run("history", "~");
    assert_eq!(texts(r), vec!["(history is stored in memory)"]);
}

#[test]
fn sudo_and_rm_flavor_text() {
    let (r, _) = run("sudo rm -rf /", "~");
    assert!(texts(r).iter().any(|t| t.contains("Nice try!")));
    let (r, _) = run("sudo make sandwich", "~");
    assert_eq!(
        texts(r),
        vec!["guest is not in the sudoers file. This incident will be reported."]
    );
    let (r, _) = run("rm -rf /", "~");
    assert!(texts(r).iter().any(|t| t.contains("refusing to remove")));
    let (r, _) = run("rm file", "~");
    assert_eq!(texts(r), vec!["rm: cannot remove: Read-only file system"]);
}

#[test]
fn cowsay_sizes_its_bubble() {
    let (r, _) = run("cowsay hi there", "~");
    let ts = texts(r);
    assert_eq!(ts[0], " ----------");
    assert_eq!(ts[1], "< hi there >");
    assert_eq!(ts[2], " ----------");
    assert_eq!(ts.len(), 8);
    let (r, _) = run("cowsay", "~");
    assert_eq!(texts(r)[1], "< Moo! >");
}

#[test]
fn fortune_is_one_of_the_fixed_fortunes() {
    let fortunes = [
        "A bug in the code is worth two in documentation.",
        "Your code will compile on the first try today. (Just kidding)",
        "The best time to document your code was yesterday. The second best is never.",
        "Today you will discover a missing semicolon that took 3 hours to find.",
        "A commit a day keeps the merge conflicts away.",
        "You will refactor that function 'later'. You won't.",
        "The cloud is just someone else's computer.",
        "There are only 10 types of people: those who understand binary and those who don't.",
    ];
    let (r, _) = run("fortune", "~");
    let ts = texts(r);
    assert_eq!(ts.len(), 5);
    let line = &ts[3];
    assert!(fortunes.iter().any(|f| line == &format!("   {f}")));
}

#[test]
fn flavor_commands_produce_their_fixed_text() {
    let (r, _) = run("vim", "~");
    assert!(texts(r).iter().any(|t| t.contains("VIM - Vi IMproved")));
    let (r, _) = run("nvim", "~");
    assert!(texts(r).iter().any(|t| t.contains("Neovim")));
    let (r, _) = run("emacs", "~");
    assert!(texts(r).iter().any(|t| t.contains("GNU Emacs 29.1")));
    let (r, _) = run("hack", "~");
    assert!(texts(r).iter().any(|t| t.contains("ACCESSING MAINFRAME...")));
    let (r, _) = run("neofetch", "~");
    assert!(texts(r).iter().any(|t| t.contains("guest@uchindami")));
    let (r, _) = run("matrix", "~");
    assert!(texts(r).iter().any(|t| t.contains("Wake up, Neo...")));
    let (r, _) = run("sl", "~");
    assert!(texts(r).iter().any(|t| t.contains("smooth criminal train")));
    let (r, _) = run("eastereggs", "~");
    assert!(texts(r).iter().any(|t| t.contains("hidden commands")));
}

#[test]
fn dispatch_is_case_sensitive() {
    let (r, _) = run("LS", "~");
    assert_eq!(texts(r), vec!["rsh: command not found: LS"]);
}
