//! The command interpreter: tokenizing a raw line, dispatching on the first
//! token to a fixed set of builtins and flavor commands, and executing them
//! against the virtual filesystem and the current working directory.

use vstd::prelude::*;
use vstd::string::*;

use crate::filesystem::{
    list_dir_spec, parent_dir, parent_of, resolve_path_spec, FSEntry, FSEntryV, VirtualFS,
};
use crate::render::{lv, push_line, push_line_string, views_of, LineKind, LineV, RenderLine};
use crate::text::{
    chars_to_string, concat_strs, contains_str, contains_sub, dec_str, has_substring, is_space,
    is_space_char, join_spec, join_strings, pad_left, pad_left_spec, repeat_char, repeat_str,
    str_eq, str_to_chars, usize_to_string,
};

verus! {

/// What executing one command produces.
pub enum CommandResult {
    /// Lines to append to the scrollback.
    Output(Vec<RenderLine>),
    /// Clear the scrollback.
    Clear,
    /// Switch to a named full-screen view.
    AppLaunch(&'static str),
}

/// The mathematical value of a [`CommandResult`].
pub ghost enum CommandResultV {
    Output(Seq<LineV>),
    Clear,
    AppLaunch(Seq<char>),
}

impl View for CommandResult {
    type V = CommandResultV;

    open spec fn view(&self) -> CommandResultV {
        match self {
            CommandResult::Output(lines) => CommandResultV::Output(views_of(lines@)),
            CommandResult::Clear => CommandResultV::Clear,
            CommandResult::AppLaunch(name) => CommandResultV::AppLaunch(name@),
        }
    }
}

/// One step of whitespace tokenizing: `cur` is the token being built, `acc`
/// the tokens already complete.
pub open spec fn tok_step(s: Seq<char>, cur: Seq<char>, acc: Seq<Seq<char>>) -> Seq<Seq<char>>
    decreases s.len(),
{
    if s.len() == 0 {
        if cur.len() > 0 {
            acc.push(cur)
        } else {
            acc
        }
    } else if is_space(s[0]) {
        tok_step(
            s.skip(1),
            Seq::empty(),
            if cur.len() > 0 {
                acc.push(cur)
            } else {
                acc
            },
        )
    } else {
        tok_step(s.skip(1), cur.push(s[0]), acc)
    }
}

/// The whitespace-separated tokens of `s`, in order.
pub open spec fn tokenize(s: Seq<char>) -> Seq<Seq<char>> {
    tok_step(s, Seq::empty(), Seq::empty())
}

/// Split a raw line into its whitespace-separated tokens.
pub fn tokenize_line(s: &str) -> (r: Vec<String>)
    ensures
        r@.map_values(|t: String| t@) == tokenize(s@),
{
    let chars = str_to_chars(s);
    let n = chars.len();
    let mut acc: Vec<String> = Vec::new();
    let mut cur: Vec<char> = Vec::new();
    let ghost mut av: Seq<Seq<char>> = Seq::empty();
    proof {
        assert(s@.skip(0) =~= s@);
    }
    let mut i: usize = 0;
    while i < n
        invariant
            chars@ == s@,
            n == s@.len(),
            i <= n,
            av.len() == acc@.len(),
            forall|j: int| 0 <= j < av.len() ==> acc@[j]@ == av[j],
            tokenize(s@) == tok_step(s@.skip(i as int), cur@, av),
        decreases n - i,
    {
        let c = chars[i];
        proof {
            assert(s@.skip(i as int)[0] == s@[i as int]);
            assert(s@.skip(i as int).skip(1) =~= s@.skip(i + 1));
        }
        if is_space_char(c) {
            if cur.len() > 0 {
                let t = chars_to_string(&cur);
                acc.push(t);
                proof {
                    av = av.push(cur@);
                }
                cur = Vec::new();
            }
            proof {
                assert(cur@ =~= Seq::<char>::empty());
            }
        } else {
            cur.push(c);
        }
        i += 1;
    }
    proof {
        assert(s@.skip(n as int) =~= Seq::<char>::empty());
    }
    if cur.len() > 0 {
        let t = chars_to_string(&cur);
        acc.push(t);
        proof {
            av = av.push(cur@);
        }
    }
    proof {
        assert(acc@.map_values(|t: String| t@) =~= av);
    }
    acc
}

/// A line piece with a trailing carriage return removed.
pub open spec fn strip_cr(t: Seq<char>) -> Seq<char> {
    if t.len() > 0 && t.last() == '\r' {
        t.drop_last()
    } else {
        t
    }
}

/// One step of splitting on newlines; a final empty piece is dropped.
pub open spec fn split_go(s: Seq<char>, cur: Seq<char>, acc: Seq<Seq<char>>) -> Seq<Seq<char>>
    decreases s.len(),
{
    if s.len() == 0 {
        if cur.len() > 0 {
            acc.push(strip_cr(cur))
        } else {
            acc
        }
    } else if s[0] == '\n' {
        split_go(s.skip(1), Seq::empty(), acc.push(strip_cr(cur)))
    } else {
        split_go(s.skip(1), cur.push(s[0]), acc)
    }
}

/// The lines of a text: pieces between newlines, each with a trailing
/// carriage return removed; a trailing newline adds no empty line.
pub open spec fn split_lines(s: Seq<char>) -> Seq<Seq<char>> {
    split_go(s, Seq::empty(), Seq::empty())
}

/// Split a text into its lines (see [`split_lines`]).
pub fn split_file_lines(s: &str) -> (r: Vec<String>)
    ensures
        r@.map_values(|t: String| t@) == split_lines(s@),
{
    let chars = str_to_chars(s);
    let n = chars.len();
    let mut acc: Vec<String> = Vec::new();
    let mut cur: Vec<char> = Vec::new();
    let ghost mut av: Seq<Seq<char>> = Seq::empty();
    proof {
        assert(s@.skip(0) =~= s@);
    }
    let mut i: usize = 0;
    while i < n
        invariant
            chars@ == s@,
            n == s@.len(),
            i <= n,
            av.len() == acc@.len(),
            forall|j: int| 0 <= j < av.len() ==> acc@[j]@ == av[j],
            split_lines(s@) == split_go(s@.skip(i as int), cur@, av),
        decreases n - i,
    {
        let c = chars[i];
        proof {
            assert(s@.skip(i as int)[0] == s@[i as int]);
            assert(s@.skip(i as int).skip(1) =~= s@.skip(i + 1));
        }
        if c == '\n' {
            let ghost rawcur = cur@;
            if cur.len() > 0 && cur[cur.len() - 1] == '\r' {
                cur.pop();
                proof {
                    assert(cur@ =~= strip_cr(rawcur));
                }
            }
            let t = chars_to_string(&cur);
            acc.push(t);
            proof {
                av = av.push(strip_cr(rawcur));
            }
            cur = Vec::new();
            proof {
                assert(cur@ =~= Seq::<char>::empty());
            }
        } else {
            cur.push(c);
        }
        i += 1;
    }
    proof {
        assert(s@.skip(n as int) =~= Seq::<char>::empty());
    }
    if cur.len() > 0 {
        let ghost rawcur = cur@;
        if cur[cur.len() - 1] == '\r' {
            cur.pop();
            proof {
                assert(cur@ =~= strip_cr(rawcur));
            }
        }
        let t = chars_to_string(&cur);
        acc.push(t);
        proof {
            av = av.push(strip_cr(rawcur));
        }
    }
    proof {
        assert(acc@.map_values(|t: String| t@) =~= av);
    }
    acc
}

/// The values of a vector of tokens.
pub open spec fn token_views(v: Seq<String>) -> Seq<Seq<char>> {
    v.map_values(|t: String| t@)
}

/// What `help` prints.
pub open spec fn help_lines() -> Seq<LineV> {
    seq![
        lv(""@, LineKind::Normal),
        lv("Available Commands:"@, LineKind::Heading),
        lv(""@, LineKind::Normal),
        lv("  ls [-la]       List directory contents"@, LineKind::Normal),
        lv("  cd <dir>       Change directory"@, LineKind::Normal),
        lv("  cat <file>     Display file contents"@, LineKind::Normal),
        lv("  pwd            Print working directory"@, LineKind::Normal),
        lv("  clear          Clear screen"@, LineKind::Normal),
        lv("  help           Show this help"@, LineKind::Normal),
        lv("  exit           Exit portfolio"@, LineKind::Normal),
        lv(""@, LineKind::Normal),
        lv("Executables:"@, LineKind::Heading),
        lv(""@, LineKind::Normal),
        lv("  ./dashboard    Interactive dashboard"@, LineKind::Normal),
        lv("  ./resume       View CV/resume (Skills, Projects, Experience)"@, LineKind::Normal),
        lv("  ./contact      Contact information"@, LineKind::Normal),
        lv("  ./about        About me"@, LineKind::Normal),
        lv(""@, LineKind::Normal),
    ]
}

fn cmd_help() -> (r: Vec<RenderLine>)
    ensures
        views_of(r@) == help_lines(),
{
    let mut out: Vec<RenderLine> = Vec::new();
    push_line(&mut out, LineKind::Normal, "");
    push_line(&mut out, LineKind::Heading, "Available Commands:");
    push_line(&mut out, LineKind::Normal, "");
    push_line(&mut out, LineKind::Normal, "  ls [-la]       List directory contents");
    push_line(&mut out, LineKind::Normal, "  cd <dir>       Change directory");
    push_line(&mut out, LineKind::Normal, "  cat <file>     Display file contents");
    push_line(&mut out, LineKind::Normal, "  pwd            Print working directory");
    push_line(&mut out, LineKind::Normal, "  clear          Clear screen");
    push_line(&mut out, LineKind::Normal, "  help           Show this help");
    push_line(&mut out, LineKind::Normal, "  exit           Exit portfolio");
    push_line(&mut out, LineKind::Normal, "");
    push_line(&mut out, LineKind::Heading, "Executables:");
    push_line(&mut out, LineKind::Normal, "");
    push_line(&mut out, LineKind::Normal, "  ./dashboard    Interactive dashboard");
    push_line(
        &mut out,
        LineKind::Normal,
        "  ./resume       View CV/resume (Skills, Projects, Experience)",
    );
    push_line(&mut out, LineKind::Normal, "  ./contact      Contact information");
    push_line(&mut out, LineKind::Normal, "  ./about        About me");
    push_line(&mut out, LineKind::Normal, "");
    proof {
        assert(views_of(out@) =~= help_lines());
    }
    out
}

/// What `uname` prints: the long form with `-a`.
pub open spec fn uname_lines(args: Seq<Seq<char>>) -> Seq<LineV> {
    if args.contains("-a"@) {
        seq![lv("PortfolioOS 2.0.26-uchindami #1 SMP Rust x86_64 GNU/Rust"@, LineKind::Normal)]
    } else {
        seq![lv("PortfolioOS"@, LineKind::Normal)]
    }
}

fn cmd_uname(args: &Vec<String>) -> (r: Vec<RenderLine>)
    ensures
        views_of(r@) == uname_lines(token_views(args@)),
{
    let mut out: Vec<RenderLine> = Vec::new();
    if contains_str(args, "-a") {
        push_line(&mut out, LineKind::Normal, "PortfolioOS 2.0.26-uchindami #1 SMP Rust x86_64 GNU/Rust");
    } else {
        push_line(&mut out, LineKind::Normal, "PortfolioOS");
    }
    proof {
        assert(views_of(out@) =~= uname_lines(token_views(args@)));
    }
    out
}

/// What `sudo` prints: a wink for `rm -rf`, a refusal otherwise.
pub open spec fn sudo_lines(args: Seq<Seq<char>>) -> Seq<LineV> {
    if has_substring(join_spec(args, " "@), "rm -rf"@) {
        seq![
            lv(""@, LineKind::Normal),
            lv("Nice try! This is a sandboxed environment \u{1f609}"@, LineKind::Warning),
            lv(""@, LineKind::Normal),
        ]
    } else {
        seq![
            lv(
                "guest is not in the sudoers file. This incident will be reported."@,
                LineKind::Error,
            ),
        ]
    }
}

fn cmd_sudo(args: &Vec<String>) -> (r: Vec<RenderLine>)
    ensures
        views_of(r@) == sudo_lines(token_views(args@)),
{
    let joined = join_strings(args, " ");
    let mut out: Vec<RenderLine> = Vec::new();
    if contains_sub(joined.as_str(), "rm -rf") {
        push_line(&mut out, LineKind::Normal, "");
        push_line(&mut out, LineKind::Warning, "Nice try! This is a sandboxed environment \u{1f609}");
        push_line(&mut out, LineKind::Normal, "");
    } else {
        push_line(
            &mut out,
            LineKind::Error,
            "guest is not in the sudoers file. This incident will be reported.",
        );
    }
    proof {
        assert(views_of(out@) =~= sudo_lines(token_views(args@)));
    }
    out
}

/// What `rm` prints: a warning for recursive flags, a refusal otherwise.
pub open spec fn rm_lines(args: Seq<Seq<char>>) -> Seq<LineV> {
    if has_substring(join_spec(args, " "@), "-rf"@) || args.contains("-r"@) {
        seq![
            lv(""@, LineKind::Normal),
            lv("\u{26a0}\u{fe0f}  rm: refusing to remove '/' recursively"@, LineKind::Warning),
            lv("   This is a sandboxed portfolio, nice try! \u{1f609}"@, LineKind::Muted),
            lv(""@, LineKind::Normal),
        ]
    } else {
        seq![lv("rm: cannot remove: Read-only file system"@, LineKind::Error)]
    }
}

fn cmd_rm(args: &Vec<String>) -> (r: Vec<RenderLine>)
    ensures
        views_of(r@) == rm_lines(token_views(args@)),
{
    let joined = join_strings(args, " ");
    let mut out: Vec<RenderLine> = Vec::new();
    if contains_sub(joined.as_str(), "-rf") || contains_str(args, "-r") {
        push_line(&mut out, LineKind::Normal, "");
        push_line(&mut out, LineKind::Warning, "\u{26a0}\u{fe0f}  rm: refusing to remove '/' recursively");
        push_line(&mut out, LineKind::Muted, "   This is a sandboxed portfolio, nice try! \u{1f609}");
        push_line(&mut out, LineKind::Normal, "");
    } else {
        push_line(&mut out, LineKind::Error, "rm: cannot remove: Read-only file system");
    }
    proof {
        assert(views_of(out@) =~= rm_lines(token_views(args@)));
    }
    out
}

/// What `hack` prints.
pub open spec fn hack_lines() -> Seq<LineV> {
    seq![
        lv(""@, LineKind::Normal),
        lv("   ACCESSING MAINFRAME..."@, LineKind::Normal),
        lv(
            "   [\u{2588}\u{2588}\u{2588}\u{2588}\u{2588}\u{2588}\u{2588}\u{2588}\u{2588}\u{2588}\u{2588}\u{2588}\u{2588}\u{2588}\u{2588}\u{2588}\u{2588}\u{2588}\u{2588}\u{2588}] 100%"@,
            LineKind::Normal,
        ),
        lv(""@, LineKind::Normal),
        lv("   Just kidding! But I like your style \u{1f60e}"@, LineKind::Success),
        lv(""@, LineKind::Normal),
    ]
}

fn cmd_hack() -> (r: Vec<RenderLine>)
    ensures
        views_of(r@) == hack_lines(),
{
    let mut out: Vec<RenderLine> = Vec::new();
    push_line(&mut out, LineKind::Normal, "");
    push_line(&mut out, LineKind::Normal, "   ACCESSING MAINFRAME...");
    push_line(
        &mut out,
        LineKind::Normal,
        "   [\u{2588}\u{2588}\u{2588}\u{2588}\u{2588}\u{2588}\u{2588}\u{2588}\u{2588}\u{2588}\u{2588}\u{2588}\u{2588}\u{2588}\u{2588}\u{2588}\u{2588}\u{2588}\u{2588}\u{2588}] 100%",
    );
    push_line(&mut out, LineKind::Normal, "");
    push_line(&mut out, LineKind::Success, "   Just kidding! But I like your style \u{1f60e}");
    push_line(&mut out, LineKind::Normal, "");
    proof {
        assert(views_of(out@) =~= hack_lines());
    }
    out
}

/// What `vim` (or `nvim`) prints.
pub open spec fn vim_lines() -> Seq<LineV> {
    seq![
        lv(""@, LineKind::Normal),
        lv("   VIM - Vi IMproved"@, LineKind::Normal),
        lv("   version 8.2.0"@, LineKind::Normal),
        lv(""@, LineKind::Normal),
        lv("   BTW, I use Neovim \u{1f49a}"@, LineKind::Success),
        lv(""@, LineKind::Normal),
    ]
}

fn cmd_vim() -> (r: Vec<RenderLine>)
    ensures
        views_of(r@) == vim_lines(),
{
    let mut out: Vec<RenderLine> = Vec::new();
    push_line(&mut out, LineKind::Normal, "");
    push_line(&mut out, LineKind::Normal, "   VIM - Vi IMproved");
    push_line(&mut out, LineKind::Normal, "   version 8.2.0");
    push_line(&mut out, LineKind::Normal, "");
    push_line(&mut out, LineKind::Success, "   BTW, I use Neovim \u{1f49a}");
    push_line(&mut out, LineKind::Normal, "");
    proof {
        assert(views_of(out@) =~= vim_lines());
    }
    out
}

/// What `emacs` prints.
pub open spec fn emacs_lines() -> Seq<LineV> {
    seq![
        lv(""@, LineKind::Normal),
        lv("   GNU Emacs 29.1"@, LineKind::Normal),
        lv("   Copyright (C) 2024 Free Software Foundation"@, LineKind::Normal),
        lv(""@, LineKind::Normal),
        lv("   Real programmers use ed. Or maybe vim. \u{1f525}"@, LineKind::Warning),
        lv(""@, LineKind::Normal),
    ]
}

fn cmd_emacs() -> (r: Vec<RenderLine>)
    ensures
        views_of(r@) == emacs_lines(),
{
    let mut out: Vec<RenderLine> = Vec::new();
    push_line(&mut out, LineKind::Normal, "");
    push_line(&mut out, LineKind::Normal, "   GNU Emacs 29.1");
    push_line(&mut out, LineKind::Normal, "   Copyright (C) 2024 Free Software Foundation");
    push_line(&mut out, LineKind::Normal, "");
    push_line(&mut out, LineKind::Warning, "   Real programmers use ed. Or maybe vim. \u{1f525}");
    push_line(&mut out, LineKind::Normal, "");
    proof {
        assert(views_of(out@) =~= emacs_lines());
    }
    out
}

/// What `neofetch` prints.
pub open spec fn neofetch_lines() -> Seq<LineV> {
    seq![
        lv(""@, LineKind::Normal),
        lv("       _,met$$$$$gg.          "@, LineKind::Secondary),
        lv("    ,g$$$$$$$$$$$$$$$P.       "@, LineKind::Secondary),
        lv("  ,g$$P\"     \"\"\"Y$$.\".        "@, LineKind::Secondary),
        lv(" ,$$P'              `$$$.     "@, LineKind::Secondary),
        lv("',$$P       ,ggs.     `$$b:   guest@uchindami"@, LineKind::Secondary),
        lv("`d$$'     ,$P\"'   .    $$$    ----------------"@, LineKind::Secondary),
        lv(" $$P      d$'     ,    $$P    OS: Portfolio OS v2.0.26"@, LineKind::Secondary),
        lv(" $$:      $$.   -    ,d$$'    Kernel: Rust 1.83.0"@, LineKind::Secondary),
        lv(" $$;      Y$b._   _,d$P'      Shell: rsh"@, LineKind::Secondary),
        lv(" Y$$.    `.`\"Y$$$$P\"'         Terminal: ttyd"@, LineKind::Secondary),
        lv(" `$$b      \"-.__              Framework: Ratatui"@, LineKind::Secondary),
        lv(""@, LineKind::Normal),
    ]
}

fn cmd_neofetch() -> (r: Vec<RenderLine>)
    ensures
        views_of(r@) == neofetch_lines(),
{
    let mut out: Vec<RenderLine> = Vec::new();
    push_line(&mut out, LineKind::Normal, "");
    push_line(&mut out, LineKind::Secondary, "       _,met$$$$$gg.          ");
    push_line(&mut out, LineKind::Secondary, "    ,g$$$$$$$$$$$$$$$P.       ");
    push_line(&mut out, LineKind::Secondary, "  ,g$$P\"     \"\"\"Y$$.\".        ");
    push_line(&mut out, LineKind::Secondary, " ,$$P'              `$$$.     ");
    push_line(&mut out, LineKind::Secondary, "',$$P       ,ggs.     `$$b:   guest@uchindami");
    push_line(&mut out, LineKind::Secondary, "`d$$'     ,$P\"'   .    $$$    ----------------");
    push_line(&mut out, LineKind::Secondary, " $$P      d$'     ,    $$P    OS: Portfolio OS v2.0.26");
    push_line(&mut out, LineKind::Secondary, " $$:      $$.   -    ,d$$'    Kernel: Rust 1.83.0");
    push_line(&mut out, LineKind::Secondary, " $$;      Y$b._   _,d$P'      Shell: rsh");
    push_line(&mut out, LineKind::Secondary, " Y$$.    `.`\"Y$$$$P\"'         Terminal: ttyd");
    push_line(&mut out, LineKind::Secondary, " `$$b      \"-.__              Framework: Ratatui");
    push_line(&mut out, LineKind::Normal, "");
    proof {
        assert(views_of(out@) =~= neofetch_lines());
    }
    out
}

/// What `matrix` prints.
pub open spec fn matrix_lines() -> Seq<LineV> {
    seq![
        lv(""@, LineKind::Normal),
        lv(
            "   \u{2591}\u{2592}\u{2593}\u{2588} THE MATRIX \u{2588}\u{2593}\u{2592}\u{2591}"@,
            LineKind::Success,
        ),
        lv(""@, LineKind::Normal),
        lv("   Wake up, Neo..."@, LineKind::Success),
        lv("   The Matrix has you..."@, LineKind::Success),
        lv("   Follow the white rabbit."@, LineKind::Success),
        lv(""@, LineKind::Normal),
        lv("   01001000 01100101 01101100 01101100 01101111"@, LineKind::Normal),
        lv(""@, LineKind::Normal),
    ]
}

fn cmd_matrix() -> (r: Vec<RenderLine>)
    ensures
        views_of(r@) == matrix_lines(),
{
    let mut out: Vec<RenderLine> = Vec::new();
    push_line(&mut out, LineKind::Normal, "");
    push_line(
        &mut out,
        LineKind::Success,
        "   \u{2591}\u{2592}\u{2593}\u{2588} THE MATRIX \u{2588}\u{2593}\u{2592}\u{2591}",
    );
    push_line(&mut out, LineKind::Normal, "");
    push_line(&mut out, LineKind::Success, "   Wake up, Neo...");
    push_line(&mut out, LineKind::Success, "   The Matrix has you...");
    push_line(&mut out, LineKind::Success, "   Follow the white rabbit.");
    push_line(&mut out, LineKind::Normal, "");
    push_line(&mut out, LineKind::Normal, "   01001000 01100101 01101100 01101100 01101111");
    push_line(&mut out, LineKind::Normal, "");
    proof {
        assert(views_of(out@) =~= matrix_lines());
    }
    out
}

/// What `sl` prints.
pub open spec fn sl_lines() -> Seq<LineV> {
    seq![
        lv(""@, LineKind::Normal),
        lv(
            "                          (  ) (@@) ( )  (@)  ()    @@    O     @     O"@,
            LineKind::Normal,
        ),
        lv("                     (@@@)"@, LineKind::Normal),
        lv("                 (    )"@, LineKind::Normal),
        lv("              (@@@@)"@, LineKind::Normal),
        lv("            (   )"@, LineKind::Normal),
        lv("        ====        ________                ___________"@, LineKind::Normal),
        lv("    _D _|  |_______/        \\__I_I_____===__|_________|"@, LineKind::Normal),
        lv("     |(_)---  |   H\\________/ |   |        =|___ ___|"@, LineKind::Normal),
        lv("     /     |  |   H  |  |     |   |         ||_| |_||"@, LineKind::Normal),
        lv("    |      |  |   H  |__--------------------| [___] |"@, LineKind::Normal),
        lv("    | ________|___H__/__|_____/[][]~\\_______|       |"@, LineKind::Normal),
        lv("    |/ |   |-----------I_____I [][] []  D   |=======|"@, LineKind::Normal),
        lv(""@, LineKind::Normal),
        lv(
            "   \u{1f682} You've been hit by a smooth criminal train!"@,
            LineKind::Warning,
        ),
        lv(""@, LineKind::Normal),
    ]
}

fn cmd_sl() -> (r: Vec<RenderLine>)
    ensures
        views_of(r@) == sl_lines(),
{
    let mut out: Vec<RenderLine> = Vec::new();
    push_line(&mut out, LineKind::Normal, "");
    push_line(
        &mut out,
        LineKind::Normal,
        "                          (  ) (@@) ( )  (@)  ()    @@    O     @     O",
    );
    push_line(&mut out, LineKind::Normal, "                     (@@@)");
    push_line(&mut out, LineKind::Normal, "                 (    )");
    push_line(&mut out, LineKind::Normal, "              (@@@@)");
    push_line(&mut out, LineKind::Normal, "            (   )");
    push_line(&mut out, LineKind::Normal, "        ====        ________                ___________");
    push_line(&mut out, LineKind::Normal, "    _D _|  |_______/        \\__I_I_____===__|_________|");
    push_line(&mut out, LineKind::Normal, "     |(_)---  |   H\\________/ |   |        =|___ ___|");
    push_line(&mut out, LineKind::Normal, "     /     |  |   H  |  |     |   |         ||_| |_||");
    push_line(&mut out, LineKind::Normal, "    |      |  |   H  |__--------------------| [___] |");
    push_line(&mut out, LineKind::Normal, "    | ________|___H__/__|_____/[][]~\\_______|       |");
    push_line(&mut out, LineKind::Normal, "    |/ |   |-----------I_____I [][] []  D   |=======|");
    push_line(&mut out, LineKind::Normal, "");
    push_line(&mut out, LineKind::Warning, "   \u{1f682} You've been hit by a smooth criminal train!");
    push_line(&mut out, LineKind::Normal, "");
    proof {
        assert(views_of(out@) =~= sl_lines());
    }
    out
}

/// What the hidden `eastereggs` command prints.
pub open spec fn eastereggs_lines() -> Seq<LineV> {
    seq![
        lv(""@, LineKind::Normal),
        lv("\u{1f95a} Easter Eggs \u{1f95a}"@, LineKind::Warning),
        lv(""@, LineKind::Normal),
        lv("Try some of these hidden commands:"@, LineKind::Normal),
        lv(""@, LineKind::Normal),
        lv("  \u{2022} cat .secret         - Find a hidden secret"@, LineKind::Normal),
        lv("  \u{2022} sudo rm -rf /       - Nice try..."@, LineKind::Normal),
        lv("  \u{2022} hack                - Hack the mainframe"@, LineKind::Normal),
        lv("  \u{2022} vim / emacs         - Editor wars"@, LineKind::Normal),
        lv("  \u{2022} neofetch            - System info"@, LineKind::Normal),
        lv("  \u{2022} cowsay <message>    - Moo!"@, LineKind::Normal),
        lv("  \u{2022} fortune             - Get your fortune"@, LineKind::Normal),
        lv("  \u{2022} matrix              - Enter the matrix"@, LineKind::Normal),
        lv("  \u{2022} sl                  - Missing train?"@, LineKind::Normal),
        lv(""@, LineKind::Normal),
        lv("More surprises await... keep exploring! \u{1f50d}"@, LineKind::Normal),
        lv(""@, LineKind::Normal),
    ]
}

fn cmd_eastereggs() -> (r: Vec<RenderLine>)
    ensures
        views_of(r@) == eastereggs_lines(),
{
    let mut out: Vec<RenderLine> = Vec::new();
    push_line(&mut out, LineKind::Normal, "");
    push_line(&mut out, LineKind::Warning, "\u{1f95a} Easter Eggs \u{1f95a}");
    push_line(&mut out, LineKind::Normal, "");
    push_line(&mut out, LineKind::Normal, "Try some of these hidden commands:");
    push_line(&mut out, LineKind::Normal, "");
    push_line(&mut out, LineKind::Normal, "  \u{2022} cat .secret         - Find a hidden secret");
    push_line(&mut out, LineKind::Normal, "  \u{2022} sudo rm -rf /       - Nice try...");
    push_line(&mut out, LineKind::Normal, "  \u{2022} hack                - Hack the mainframe");
    push_line(&mut out, LineKind::Normal, "  \u{2022} vim / emacs         - Editor wars");
    push_line(&mut out, LineKind::Normal, "  \u{2022} neofetch            - System info");
    push_line(&mut out, LineKind::Normal, "  \u{2022} cowsay <message>    - Moo!");
    push_line(&mut out, LineKind::Normal, "  \u{2022} fortune             - Get your fortune");
    push_line(&mut out, LineKind::Normal, "  \u{2022} matrix              - Enter the matrix");
    push_line(&mut out, LineKind::Normal, "  \u{2022} sl                  - Missing train?");
    push_line(&mut out, LineKind::Normal, "");
    push_line(&mut out, LineKind::Normal, "More surprises await... keep exploring! \u{1f50d}");
    push_line(&mut out, LineKind::Normal, "");
    proof {
        assert(views_of(out@) =~= eastereggs_lines());
    }
    out
}

/// The message `cowsay` speaks.
pub open spec fn cowsay_msg(args: Seq<Seq<char>>) -> Seq<char> {
    if args.len() == 0 {
        "Moo!"@
    } else {
        join_spec(args, " "@)
    }
}

/// The border length of the speech bubble, capped at the machine word.
pub open spec fn cowsay_border_len(msg: Seq<char>) -> nat {
    if msg.len() + 2 <= usize::MAX {
        msg.len() + 2
    } else {
        usize::MAX as nat
    }
}

/// What `cowsay` prints.
pub open spec fn cowsay_lines(args: Seq<Seq<char>>) -> Seq<LineV> {
    let msg = cowsay_msg(args);
    let border = repeat_char('-', cowsay_border_len(msg));
    seq![
        lv(seq![' '] + border, LineKind::Normal),
        lv("< "@ + msg + " >"@, LineKind::Normal),
        lv(seq![' '] + border, LineKind::Normal),
        lv("        \\   ^__^"@, LineKind::Normal),
        lv("         \\  (oo)\\_______"@, LineKind::Normal),
        lv("            (__)\\       )\\/\\"@, LineKind::Normal),
        lv("                ||----w |"@, LineKind::Normal),
        lv("                ||     ||"@, LineKind::Normal),
    ]
}

fn cmd_cowsay(args: &Vec<String>) -> (r: Vec<RenderLine>)
    ensures
        views_of(r@) == cowsay_lines(token_views(args@)),
{
    let msg: String = if args.len() == 0 {
        "Moo!".to_owned()
    } else {
        join_strings(args, " ")
    };
    let ml = msg.unicode_len();
    let bl: usize = if ml <= usize::MAX - 2 {
        ml + 2
    } else {
        usize::MAX
    };
    let border = repeat_str('-', bl);
    let mut out: Vec<RenderLine> = Vec::new();
    let top = concat_strs(" ", border.as_str());
    let mid = concat_strs("< ", msg.as_str()).concat(" >");
    let bot = concat_strs(" ", border.as_str());
    proof {
        reveal_strlit(" ");
        assert(" "@ =~= seq![' ']);
        assert(top@ =~= seq![' '] + repeat_char('-', cowsay_border_len(msg@)));
        assert(mid@ =~= "< "@ + msg@ + " >"@);
    }
    push_line_string(&mut out, LineKind::Normal, top);
    push_line_string(&mut out, LineKind::Normal, mid);
    push_line_string(&mut out, LineKind::Normal, bot);
    push_line(&mut out, LineKind::Normal, "        \\   ^__^");
    push_line(&mut out, LineKind::Normal, "         \\  (oo)\\_______");
    push_line(&mut out, LineKind::Normal, "            (__)\\       )\\/\\");
    push_line(&mut out, LineKind::Normal, "                ||----w |");
    push_line(&mut out, LineKind::Normal, "                ||     ||");
    proof {
        assert(views_of(out@) =~= cowsay_lines(token_views(args@)));
    }
    out
}

/// The closed set of fortunes, by index.
pub open spec fn fortune_text(i: int) -> Seq<char> {
    if i == 0 {
        "A bug in the code is worth two in documentation."@
    } else if i == 1 {
        "Your code will compile on the first try today. (Just kidding)"@
    } else if i == 2 {
        "The best time to document your code was yesterday. The second best is never."@
    } else if i == 3 {
        "Today you will discover a missing semicolon that took 3 hours to find."@
    } else if i == 4 {
        "A commit a day keeps the merge conflicts away."@
    } else if i == 5 {
        "You will refactor that function 'later'. You won't."@
    } else if i == 6 {
        "The cloud is just someone else's computer."@
    } else {
        "There are only 10 types of people: those who understand binary and those who don't."@
    }
}

/// What `fortune` prints for the fortune at index `i`.
pub open spec fn fortune_lines(i: int) -> Seq<LineV> {
    seq![
        lv(""@, LineKind::Normal),
        lv("\u{1f52e} Your fortune:"@, LineKind::Secondary),
        lv(""@, LineKind::Normal),
        lv("   "@ + fortune_text(i), LineKind::Normal),
        lv(""@, LineKind::Normal),
    ]
}

/// Relies on std's `SystemTime::now`: seconds since the Unix epoch, or zero
/// if the clock reads before it. Nothing is promised of a clock reading.
#[verifier::external_body]
fn unix_time_seconds() -> u64 {
    std::time::SystemTime::now().duration_since(std::time::UNIX_EPOCH).map(
        |d| d.as_secs(),
    ).unwrap_or(0)
}

fn cmd_fortune() -> (r: Vec<RenderLine>)
    ensures
        exists|i: int| 0 <= i < 8 && views_of(r@) == fortune_lines(i),
{
    let t = unix_time_seconds();
    let idx = (t % 8) as usize;
    let text: &str = if idx == 0 {
        "A bug in the code is worth two in documentation."
    } else if idx == 1 {
        "Your code will compile on the first try today. (Just kidding)"
    } else if idx == 2 {
        "The best time to document your code was yesterday. The second best is never."
    } else if idx == 3 {
        "Today you will discover a missing semicolon that took 3 hours to find."
    } else if idx == 4 {
        "A commit a day keeps the merge conflicts away."
    } else if idx == 5 {
        "You will refactor that function 'later'. You won't."
    } else if idx == 6 {
        "The cloud is just someone else's computer."
    } else {
        "There are only 10 types of people: those who understand binary and those who don't."
    };
    proof {
        assert(text@ == fortune_text(if idx < 8 { idx as int } else { 7 }));
    }
    let mut out: Vec<RenderLine> = Vec::new();
    push_line(&mut out, LineKind::Normal, "");
    push_line(&mut out, LineKind::Secondary, "\u{1f52e} Your fortune:");
    push_line(&mut out, LineKind::Normal, "");
    push_line_string(&mut out, LineKind::Normal, concat_strs("   ", text));
    push_line(&mut out, LineKind::Normal, "");
    proof {
        let w: int = if idx < 8 { idx as int } else { 7 };
        assert(views_of(out@) =~= fortune_lines(w));
    }
    out
}

/// Whether `ls` was asked to show hidden entries and long details.
pub open spec fn ls_show_all(args: Seq<Seq<char>>) -> bool {
    args.contains("-la"@) || args.contains("-a"@) || args.contains("-l"@)
}

/// The first argument that is not a flag, or `"."`.
pub open spec fn ls_path_arg(args: Seq<Seq<char>>) -> Seq<char>
    decreases args.len(),
{
    if args.len() == 0 {
        "."@
    } else if !(args[0].len() > 0 && args[0][0] == '-') {
        args[0]
    } else {
        ls_path_arg(args.skip(1))
    }
}

/// The `ls` line for one listed entry.
pub open spec fn ls_entry_line(name: Seq<char>, e: FSEntryV, show_all: bool) -> LineV {
    match e {
        FSEntryV::Directory { .. } => lv(name + seq!['/'], LineKind::Primary),
        FSEntryV::Executable { size, .. } => if show_all {
            lv(
                "-rwxr-xr-x  1 uchindami  uchindami  "@ + pad_left_spec(dec_str(size / 1000), 5)
                    + "K "@ + name,
                LineKind::Success,
            )
        } else {
            lv(name, LineKind::Success)
        },
        FSEntryV::File { size, permissions, .. } => if show_all {
            lv(
                permissions + "  1 uchindami  uchindami  "@ + pad_left_spec(dec_str(size), 5)
                    + " "@ + name,
                LineKind::Normal,
            )
        } else {
            lv(name, LineKind::Normal)
        },
    }
}

/// The `ls` lines for a listing, hidden names skipped unless `show_all`.
pub open spec fn ls_entry_lines(entries: Seq<(Seq<char>, FSEntryV)>, show_all: bool) -> Seq<LineV>
    decreases entries.len(),
{
    if entries.len() == 0 {
        Seq::empty()
    } else {
        let rest = ls_entry_lines(entries.drop_last(), show_all);
        let name = entries.last().0;
        if !show_all && name.len() > 0 && name[0] == '.' {
            rest
        } else {
            rest.push(ls_entry_line(name, entries.last().1, show_all))
        }
    }
}

/// What `ls` prints.
pub open spec fn ls_lines(
    m: Map<Seq<char>, FSEntryV>,
    cwd: Seq<char>,
    args: Seq<Seq<char>>,
) -> Seq<LineV> {
    let show_all = ls_show_all(args);
    let path = ls_path_arg(args);
    let resolved = resolve_path_spec(path, cwd);
    match list_dir_spec(m, resolved) {
        Some(entries) => (if show_all {
            seq![lv("total "@ + dec_str(entries.len()), LineKind::Normal)]
        } else {
            Seq::empty()
        }) + ls_entry_lines(entries, show_all),
        None => seq![
            lv(
                "ls: cannot access '"@ + path + "': No such file or directory"@,
                LineKind::Error,
            ),
        ],
    }
}

fn first_path_arg(args: &Vec<String>) -> (r: String)
    ensures
        r@ == ls_path_arg(token_views(args@)),
{
    let ghost views = token_views(args@);
    proof {
        assert(views.skip(0) =~= views);
    }
    let mut i: usize = 0;
    while i < args.len()
        invariant
            views == token_views(args@),
            i <= args@.len(),
            ls_path_arg(views) == ls_path_arg(views.skip(i as int)),
        decreases args.len() - i,
    {
        proof {
            assert(views.skip(i as int)[0] == views[i as int]);
            assert(views.skip(i as int).skip(1) =~= views.skip(i + 1));
        }
        let a = &args[i];
        if a.as_str().is_empty() {
            return a.clone();
        }
        if a.as_str().get_char(0) != '-' {
            return a.clone();
        }
        i += 1;
    }
    proof {
        assert(views.skip(views.len() as int) =~= Seq::<Seq<char>>::empty());
    }
    ".".to_owned()
}

fn ls_render_entry(name: &String, e: &FSEntry, show_all: bool) -> (r: RenderLine)
    ensures
        r@ == ls_entry_line(name@, e@, show_all),
{
    match e {
        FSEntry::Directory { .. } => {
            let t = concat_strs(name.as_str(), "/");
            proof {
                reveal_strlit("/");
                assert("/"@ =~= seq!['/']);
                assert(t@ =~= name@ + seq!['/']);
            }
            crate::render::line_string(LineKind::Primary, t)
        },
        FSEntry::Executable { size, .. } => {
            if show_all {
                let num = usize_to_string(*size / 1000);
                let padded = pad_left(num.as_str(), 5);
                let t = concat_strs("-rwxr-xr-x  1 uchindami  uchindami  ", padded.as_str())
                    .concat("K ").concat(name.as_str());
                proof {
                    assert(t@ =~= "-rwxr-xr-x  1 uchindami  uchindami  "@ + pad_left_spec(
                        dec_str((*size / 1000) as nat),
                        5,
                    ) + "K "@ + name@);
                    assert((*size / 1000) as nat == (*size as nat) / 1000);
                }
                crate::render::line_string(LineKind::Success, t)
            } else {
                crate::render::line_of(LineKind::Success, name.as_str())
            }
        },
        FSEntry::File { size, permissions, .. } => {
            if show_all {
                let num = usize_to_string(*size);
                let padded = pad_left(num.as_str(), 5);
                let t = concat_strs(permissions.as_str(), "  1 uchindami  uchindami  ").concat(
                    padded.as_str(),
                ).concat(" ").concat(name.as_str());
                proof {
                    assert(t@ =~= permissions@ + "  1 uchindami  uchindami  "@ + pad_left_spec(
                        dec_str(*size as nat),
                        5,
                    ) + " "@ + name@);
                }
                crate::render::line_string(LineKind::Normal, t)
            } else {
                crate::render::line_of(LineKind::Normal, name.as_str())
            }
        },
    }
}

fn cmd_ls(args: &Vec<String>, fs: &VirtualFS, cwd: &str) -> (r: Vec<RenderLine>)
    requires
        fs.wf(),
    ensures
        views_of(r@) == ls_lines(fs@, cwd@, token_views(args@)),
{
    let show_all = contains_str(args, "-la") || contains_str(args, "-a") || contains_str(
        args,
        "-l",
    );
    let path = first_path_arg(args);
    let resolved = fs.resolve_path(path.as_str(), cwd);
    match fs.list_dir(resolved.as_str()) {
        Some(entries) => {
            let ghost l = entries@.map_values(|pr: (String, FSEntry)| (pr.0@, pr.1@));
            let mut out: Vec<RenderLine> = Vec::new();
            if show_all {
                let t = concat_strs("total ", usize_to_string(entries.len()).as_str());
                push_line_string(&mut out, LineKind::Normal, t);
            }
            let ghost header = views_of(out@);
            let ghost mut body: Seq<LineV> = Seq::empty();
            let mut i: usize = 0;
            while i < entries.len()
                invariant
                    show_all == ls_show_all(token_views(args@)),
                    l == entries@.map_values(|pr: (String, FSEntry)| (pr.0@, pr.1@)),
                    i <= entries@.len(),
                    body == ls_entry_lines(l.take(i as int), show_all),
                    views_of(out@) == header + body,
                decreases entries.len() - i,
            {
                proof {
                    assert(l[i as int] == (entries@[i as int].0@, entries@[i as int].1@));
                    assert(l.take(i + 1).drop_last() =~= l.take(i as int));
                    assert(l.take(i + 1).last() == l[i as int]);
                }
                let name: &String = &entries[i].0;
                let hidden = if name.as_str().is_empty() {
                    false
                } else {
                    name.as_str().get_char(0) == '.'
                };
                if show_all || !hidden {
                    let line = ls_render_entry(name, &entries[i].1, show_all);
                    let ghost prev = views_of(out@);
                    let ghost el = ls_entry_line(l[i as int].0, l[i as int].1, show_all);
                    out.push(line);
                    proof {
                        assert(views_of(out@) =~= prev.push(el));
                        body = body.push(el);
                        assert(header + body =~= prev.push(el));
                    }
                }
                i += 1;
            }
            proof {
                assert(l.take(entries@.len() as int) =~= l);
                assert(views_of(out@) =~= ls_lines(fs@, cwd@, token_views(args@)));
            }
            out
        },
        None => {
            let mut out: Vec<RenderLine> = Vec::new();
            let t = concat_strs("ls: cannot access '", path.as_str()).concat(
                "': No such file or directory",
            );
            proof {
                assert(t@ =~= "ls: cannot access '"@ + path@ + "': No such file or directory"@);
            }
            push_line_string(&mut out, LineKind::Error, t);
            proof {
                assert(views_of(out@) =~= ls_lines(fs@, cwd@, token_views(args@)));
            }
            out
        },
    }
}

/// What `cat` prints: a file's content split into lines, or one error line.
pub open spec fn cat_lines(
    m: Map<Seq<char>, FSEntryV>,
    cwd: Seq<char>,
    args: Seq<Seq<char>>,
) -> Seq<LineV> {
    if args.len() == 0 {
        seq![lv("cat: missing operand"@, LineKind::Normal)]
    } else {
        let path = resolve_path_spec(args[0], cwd);
        if m.contains_key(path) {
            match m[path] {
                FSEntryV::File { content, .. } => split_lines(content).map_values(
                    |t: Seq<char>| lv(t, LineKind::Normal),
                ),
                FSEntryV::Directory { .. } => seq![
                    lv("cat: "@ + args[0] + ": Is a directory"@, LineKind::Error),
                ],
                FSEntryV::Executable { .. } => seq![
                    lv(
                        "cat: "@ + args[0] + ": Is an executable (try running it with ./"@
                            + args[0] + ")"@,
                        LineKind::Warning,
                    ),
                ],
            }
        } else {
            seq![lv("cat: "@ + args[0] + ": No such file or directory"@, LineKind::Error)]
        }
    }
}

fn cmd_cat(args: &Vec<String>, fs: &VirtualFS, cwd: &str) -> (r: Vec<RenderLine>)
    requires
        fs.wf(),
    ensures
        views_of(r@) == cat_lines(fs@, cwd@, token_views(args@)),
{
    let mut out: Vec<RenderLine> = Vec::new();
    if args.len() == 0 {
        push_line(&mut out, LineKind::Normal, "cat: missing operand");
        proof {
            assert(views_of(out@) =~= cat_lines(fs@, cwd@, token_views(args@)));
        }
        return out;
    }
    let arg0: &String = &args[0];
    proof {
        assert(token_views(args@)[0] == arg0@);
    }
    let path = fs.resolve_path(arg0.as_str(), cwd);
    match fs.get(path.as_str()) {
        Some(FSEntry::File { content, .. }) => {
            let lines = split_file_lines(content.as_str());
            let ghost lviews = split_lines(content@);
            let mut i: usize = 0;
            while i < lines.len()
                invariant
                    lines@.map_values(|t: String| t@) == lviews,
                    i <= lines@.len(),
                    views_of(out@) == lviews.take(i as int).map_values(
                        |t: Seq<char>| lv(t, LineKind::Normal),
                    ),
                decreases lines.len() - i,
            {
                push_line_string(&mut out, LineKind::Normal, lines[i].clone());
                proof {
                    assert(lines@.map_values(|t: String| t@)[i as int] == lines@[i as int]@);
                    assert(views_of(out@) =~= lviews.take(i + 1).map_values(
                        |t: Seq<char>| lv(t, LineKind::Normal),
                    ));
                }
                i += 1;
            }
            proof {
                assert(lviews.take(lviews.len() as int) =~= lviews);
            }
        },
        Some(FSEntry::Directory { .. }) => {
            let t = concat_strs("cat: ", arg0.as_str()).concat(": Is a directory");
            proof {
                assert(t@ =~= "cat: "@ + arg0@ + ": Is a directory"@);
            }
            push_line_string(&mut out, LineKind::Error, t);
        },
        Some(FSEntry::Executable { .. }) => {
            let t = concat_strs("cat: ", arg0.as_str()).concat(
                ": Is an executable (try running it with ./",
            ).concat(arg0.as_str()).concat(")");
            proof {
                assert(t@ =~= "cat: "@ + arg0@ + ": Is an executable (try running it with ./"@
                    + arg0@ + ")"@);
            }
            push_line_string(&mut out, LineKind::Warning, t);
        },
        None => {
            let t = concat_strs("cat: ", arg0.as_str()).concat(": No such file or directory");
            proof {
                assert(t@ =~= "cat: "@ + arg0@ + ": No such file or directory"@);
            }
            push_line_string(&mut out, LineKind::Error, t);
        },
    }
    proof {
        assert(views_of(out@) =~= cat_lines(fs@, cwd@, token_views(args@)));
    }
    out
}

/// The directory `cd` was asked for: its first argument, or the root.
pub open spec fn cd_target(args: Seq<Seq<char>>) -> Seq<char> {
    if args.len() == 0 {
        "~"@
    } else {
        args[0]
    }
}

/// Where `cd` tries to go: root for `"~"` or an empty token, the lexical
/// parent for `".."`, `cwd` for `"."`, a resolved path otherwise.
pub open spec fn cd_new_path(cwd: Seq<char>, target: Seq<char>) -> Seq<char> {
    if target == "~"@ || target.len() == 0 {
        "~"@
    } else if target == ".."@ {
        parent_dir(cwd)
    } else if target == "."@ {
        cwd
    } else {
        resolve_path_spec(target, cwd)
    }
}

/// What `cd` prints: nothing on success, one error line otherwise.
pub open spec fn cd_lines(
    m: Map<Seq<char>, FSEntryV>,
    cwd: Seq<char>,
    args: Seq<Seq<char>>,
) -> Seq<LineV> {
    let target = cd_target(args);
    let np = cd_new_path(cwd, target);
    if m.contains_key(np) && m[np] is Directory {
        Seq::empty()
    } else if m.contains_key(np) {
        seq![lv("cd: not a directory: "@ + target, LineKind::Error)]
    } else {
        seq![lv("cd: no such file or directory: "@ + target, LineKind::Error)]
    }
}

/// The working directory after `cd`: the target if it names a directory,
/// the old working directory otherwise.
pub open spec fn cd_cwd_after(
    m: Map<Seq<char>, FSEntryV>,
    cwd: Seq<char>,
    args: Seq<Seq<char>>,
) -> Seq<char> {
    let np = cd_new_path(cwd, cd_target(args));
    if m.contains_key(np) && m[np] is Directory {
        np
    } else {
        cwd
    }
}

/// `cd` mutates the working directory only when the resolved target exists
/// and is a directory; on any failure the working directory is unchanged.
pub proof fn lemma_cd_failure_preserves_cwd(
    m: Map<Seq<char>, FSEntryV>,
    cwd: Seq<char>,
    args: Seq<Seq<char>>,
)
    ensures
        ({
            let np = cd_new_path(cwd, cd_target(args));
            &&& (!(m.contains_key(np) && m[np] is Directory) ==> cd_cwd_after(m, cwd, args)
                == cwd)
            &&& ((m.contains_key(np) && m[np] is Directory) ==> cd_cwd_after(m, cwd, args) == np)
        }),
{
}

fn cmd_cd(args: &Vec<String>, fs: &VirtualFS, cwd: &mut String) -> (r: Vec<RenderLine>)
    requires
        fs.wf(),
    ensures
        views_of(r@) == cd_lines(fs@, old(cwd)@, token_views(args@)),
        final(cwd)@ == cd_cwd_after(fs@, old(cwd)@, token_views(args@)),
{
    let target: String = if args.len() == 0 {
        "~".to_owned()
    } else {
        args[0].clone()
    };
    proof {
        if args@.len() > 0 {
            assert(token_views(args@)[0] == args@[0]@);
        }
    }
    let new_path: String = if str_eq(target.as_str(), "~") || target.as_str().is_empty() {
        "~".to_owned()
    } else if str_eq(target.as_str(), "..") {
        parent_of(cwd.as_str())
    } else if str_eq(target.as_str(), ".") {
        cwd.clone()
    } else {
        fs.resolve_path(target.as_str(), cwd.as_str())
    };
    let mut out: Vec<RenderLine> = Vec::new();
    match fs.get(new_path.as_str()) {
        Some(FSEntry::Directory { .. }) => {
            *cwd = new_path;
        },
        Some(_) => {
            let t = concat_strs("cd: not a directory: ", target.as_str());
            proof {
                assert(t@ =~= "cd: not a directory: "@ + target@);
            }
            push_line_string(&mut out, LineKind::Error, t);
        },
        None => {
            let t = concat_strs("cd: no such file or directory: ", target.as_str());
            proof {
                assert(t@ =~= "cd: no such file or directory: "@ + target@);
            }
            push_line_string(&mut out, LineKind::Error, t);
        },
    }
    proof {
        assert(views_of(out@) =~= cd_lines(fs@, old(cwd)@, token_views(args@)));
    }
    out
}

/// What executing `cmd` against filesystem `m` at working directory `cwd`
/// produces, and the working directory afterwards. `fi` selects the fortune
/// shown by the clock-seeded `fortune` command; every other command ignores
/// it.
pub open spec fn execute_spec(
    cmd: Seq<char>,
    m: Map<Seq<char>, FSEntryV>,
    cwd: Seq<char>,
    fi: int,
) -> (CommandResultV, Seq<char>) {
    let toks = tokenize(cmd);
    if toks.len() == 0 {
        (CommandResultV::Output(Seq::empty()), cwd)
    } else {
        let c = toks[0];
        let args = toks.skip(1);
        if c == "ls"@ {
            (CommandResultV::Output(ls_lines(m, cwd, args)), cwd)
        } else if c == "cat"@ {
            (CommandResultV::Output(cat_lines(m, cwd, args)), cwd)
        } else if c == "cd"@ {
            (CommandResultV::Output(cd_lines(m, cwd, args)), cd_cwd_after(m, cwd, args))
        } else if c == "pwd"@ {
            (CommandResultV::Output(seq![lv(cwd, LineKind::Normal)]), cwd)
        } else if c == "clear"@ {
            (CommandResultV::Clear, cwd)
        } else if c == "help"@ {
            (CommandResultV::Output(help_lines()), cwd)
        } else if c == "history"@ {
            (CommandResultV::Output(seq![lv("(history is stored in memory)"@, LineKind::Normal)]), cwd)
        } else if c == "whoami"@ {
            (CommandResultV::Output(seq![lv("guest"@, LineKind::Normal)]), cwd)
        } else if c == "uname"@ {
            (CommandResultV::Output(uname_lines(args)), cwd)
        } else if c == "echo"@ {
            (CommandResultV::Output(seq![lv(join_spec(args, " "@), LineKind::Normal)]), cwd)
        } else if c == "date"@ {
            (CommandResultV::Output(seq![lv("Wed Jan 29 10:30:00 CAT 2026"@, LineKind::Normal)]), cwd)
        } else if c == "./dashboard"@ || c == "dashboard"@ {
            (CommandResultV::AppLaunch("dashboard"@), cwd)
        } else if c == "./resume"@ || c == "resume"@ {
            (CommandResultV::AppLaunch("resume"@), cwd)
        } else if c == "./contact"@ || c == "contact"@ {
            (CommandResultV::AppLaunch("contact"@), cwd)
        } else if c == "./about"@ || c == "about"@ {
            (CommandResultV::AppLaunch("about"@), cwd)
        } else if c == "eastereggs"@ {
            (CommandResultV::Output(eastereggs_lines()), cwd)
        } else if c == "sudo"@ {
            (CommandResultV::Output(sudo_lines(args)), cwd)
        } else if c == "hack"@ {
            (CommandResultV::Output(hack_lines()), cwd)
        } else if c == "vim"@ || c == "nvim"@ {
            (CommandResultV::Output(vim_lines()), cwd)
        } else if c == "emacs"@ {
            (CommandResultV::Output(emacs_lines()), cwd)
        } else if c == "neofetch"@ {
            (CommandResultV::Output(neofetch_lines()), cwd)
        } else if c == "cowsay"@ {
            (CommandResultV::Output(cowsay_lines(args)), cwd)
        } else if c == "fortune"@ {
            (CommandResultV::Output(fortune_lines(fi)), cwd)
        } else if c == "matrix"@ {
            (CommandResultV::Output(matrix_lines()), cwd)
        } else if c == "sl"@ {
            (CommandResultV::Output(sl_lines()), cwd)
        } else if c == "rm"@ {
            (CommandResultV::Output(rm_lines(args)), cwd)
        } else {
            (
                CommandResultV::Output(
                    seq![lv("rsh: command not found: "@ + c, LineKind::Error)],
                ),
                cwd,
            )
        }
    }
}

/// Execute one raw command line against the filesystem and the working
/// directory. The filesystem is never changed; `cwd` changes only through
/// `cd`. The result and the new working directory are [`execute_spec`] of
/// the inputs, at some fortune index.
pub fn execute_command(cmd: &str, fs: &mut VirtualFS, cwd: &mut String) -> (r: CommandResult)
    requires
        old(fs).wf(),
    ensures
        *final(fs) == *old(fs),
        exists|fi: int|
            0 <= fi < 8 && (r@, final(cwd)@) == #[trigger] execute_spec(
                cmd@,
                old(fs)@,
                old(cwd)@,
                fi,
            ),
{
    let toks = tokenize_line(cmd);
    let ghost tviews = tokenize(cmd@);
    if toks.len() == 0 {
        let out: Vec<RenderLine> = Vec::new();
        let r = CommandResult::Output(out);
        proof {
            assert(views_of(Seq::<RenderLine>::empty()) =~= Seq::<LineV>::empty());
            assert((r@, cwd@) == execute_spec(cmd@, fs@, cwd@, 0));
        }
        return r;
    }
    let command: &String = &toks[0];
    let args = crate::text::tail_strings(&toks, 1);
    proof {
        assert(token_views(toks@)[0] == toks@[0]@);
        assert(token_views(args@) == tviews.skip(1));
    }
    let r: CommandResult = if str_eq(command.as_str(), "ls") {
        CommandResult::Output(cmd_ls(&args, fs, cwd.as_str()))
    } else if str_eq(command.as_str(), "cat") {
        CommandResult::Output(cmd_cat(&args, fs, cwd.as_str()))
    } else if str_eq(command.as_str(), "cd") {
        CommandResult::Output(cmd_cd(&args, fs, cwd))
    } else if str_eq(command.as_str(), "pwd") {
        let mut out: Vec<RenderLine> = Vec::new();
        push_line_string(&mut out, LineKind::Normal, cwd.clone());
        proof {
            assert(views_of(out@) =~= seq![lv(old(cwd)@, LineKind::Normal)]);
        }
        CommandResult::Output(out)
    } else if str_eq(command.as_str(), "clear") {
        CommandResult::Clear
    } else if str_eq(command.as_str(), "help") {
        CommandResult::Output(cmd_help())
    } else if str_eq(command.as_str(), "history") {
        let mut out: Vec<RenderLine> = Vec::new();
        push_line(&mut out, LineKind::Normal, "(history is stored in memory)");
        proof {
            assert(views_of(out@) =~= seq![
                lv("(history is stored in memory)"@, LineKind::Normal),
            ]);
        }
        CommandResult::Output(out)
    } else if str_eq(command.as_str(), "whoami") {
        let mut out: Vec<RenderLine> = Vec::new();
        push_line(&mut out, LineKind::Normal, "guest");
        proof {
            assert(views_of(out@) =~= seq![lv("guest"@, LineKind::Normal)]);
        }
        CommandResult::Output(out)
    } else if str_eq(command.as_str(), "uname") {
        CommandResult::Output(cmd_uname(&args))
    } else if str_eq(command.as_str(), "echo") {
        let mut out: Vec<RenderLine> = Vec::new();
        push_line_string(&mut out, LineKind::Normal, join_strings(&args, " "));
        proof {
            assert(views_of(out@) =~= seq![
                lv(join_spec(token_views(args@), " "@), LineKind::Normal),
            ]);
        }
        CommandResult::Output(out)
    } else if str_eq(command.as_str(), "date") {
        let mut out: Vec<RenderLine> = Vec::new();
        push_line(&mut out, LineKind::Normal, "Wed Jan 29 10:30:00 CAT 2026");
        proof {
            assert(views_of(out@) =~= seq![
                lv("Wed Jan 29 10:30:00 CAT 2026"@, LineKind::Normal),
            ]);
        }
        CommandResult::Output(out)
    } else if str_eq(command.as_str(), "./dashboard") || str_eq(command.as_str(), "dashboard") {
        CommandResult::AppLaunch("dashboard")
    } else if str_eq(command.as_str(), "./resume") || str_eq(command.as_str(), "resume") {
        CommandResult::AppLaunch("resume")
    } else if str_eq(command.as_str(), "./contact") || str_eq(command.as_str(), "contact") {
        CommandResult::AppLaunch("contact")
    } else if str_eq(command.as_str(), "./about") || str_eq(command.as_str(), "about") {
        CommandResult::AppLaunch("about")
    } else if str_eq(command.as_str(), "eastereggs") {
        CommandResult::Output(cmd_eastereggs())
    } else if str_eq(command.as_str(), "sudo") {
        CommandResult::Output(cmd_sudo(&args))
    } else if str_eq(command.as_str(), "hack") {
        CommandResult::Output(cmd_hack())
    } else if str_eq(command.as_str(), "vim") || str_eq(command.as_str(), "nvim") {
        CommandResult::Output(cmd_vim())
    } else if str_eq(command.as_str(), "emacs") {
        CommandResult::Output(cmd_emacs())
    } else if str_eq(command.as_str(), "neofetch") {
        CommandResult::Output(cmd_neofetch())
    } else if str_eq(command.as_str(), "cowsay") {
        CommandResult::Output(cmd_cowsay(&args))
    } else if str_eq(command.as_str(), "fortune") {
        let out = cmd_fortune();
        let r = CommandResult::Output(out);
        proof {
            let fi = choose|fi: int| 0 <= fi < 8 && views_of(out@) == fortune_lines(fi);
            assert((r@, cwd@) == execute_spec(cmd@, fs@, old(cwd)@, fi));
        }
        return r;
    } else if str_eq(command.as_str(), "matrix") {
        CommandResult::Output(cmd_matrix())
    } else if str_eq(command.as_str(), "sl") {
        CommandResult::Output(cmd_sl())
    } else if str_eq(command.as_str(), "rm") {
        CommandResult::Output(cmd_rm(&args))
    } else {
        let mut out: Vec<RenderLine> = Vec::new();
        let t = concat_strs("rsh: command not found: ", command.as_str());
        proof {
            assert(t@ =~= "rsh: command not found: "@ + command@);
        }
        push_line_string(&mut out, LineKind::Error, t);
        proof {
            assert(views_of(out@) =~= seq![
                lv("rsh: command not found: "@ + tviews[0], LineKind::Error),
            ]);
        }
        CommandResult::Output(out)
    };
    proof {
        assert((r@, cwd@) == execute_spec(cmd@, fs@, old(cwd)@, 0));
    }
    r
}

} // verus!
