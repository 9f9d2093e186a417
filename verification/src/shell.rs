//! The shell session: the input line editor, command history, scrollback
//! buffer, and command submission.

use vstd::prelude::*;
use vstd::string::*;

use crate::commands::{execute_command, execute_spec, CommandResult, CommandResultV};
use crate::filesystem::{root_fs, sorted_completions, FSEntryV, VirtualFS};
use crate::render::{lv, views_of, LineKind, LineV, RenderLine};
use crate::text::{
    chars_to_string, concat_strs, join_spec, join_strings, str_eq, str_to_chars, trim_spec,
    trim_str,
};

verus! {

/// Most history entries kept; the oldest is evicted beyond this.
pub const MAX_HISTORY: usize = 100;

/// Most scrollback lines kept; the oldest are evicted beyond this.
pub const MAX_OUTPUT_LINES: usize = 500;

/// The fixed prompt shown before an echoed completion listing.
pub const PROMPT: &'static str = "guest@uchindami:~$ ";

/// What submitting a line asks the host to do.
pub enum ShellResult {
    /// Nothing special happened.
    Nothing,
    /// The user wants to leave.
    Exit,
    /// Switch to a named full-screen view.
    LaunchApp(&'static str),
}

/// The mathematical value of a [`ShellResult`].
pub ghost enum ShellResultV {
    Nothing,
    Exit,
    LaunchApp(Seq<char>),
}

impl View for ShellResult {
    type V = ShellResultV;

    open spec fn view(&self) -> ShellResultV {
        match self {
            ShellResult::Nothing => ShellResultV::Nothing,
            ShellResult::Exit => ShellResultV::Exit,
            ShellResult::LaunchApp(name) => ShellResultV::LaunchApp(name@),
        }
    }
}

/// The shell session state.
pub struct Shell {
    input_buffer: Vec<char>,
    cursor_pos: usize,
    history: Vec<String>,
    history_pos: Option<usize>,
    output: Vec<RenderLine>,
    fs: VirtualFS,
    cwd: String,
}

/// The mathematical value of a [`Shell`].
pub ghost struct ShellView {
    /// The line being edited.
    pub input: Seq<char>,
    /// The caret position, between `0` and `input.len()`.
    pub cursor: nat,
    /// Submitted commands, oldest first.
    pub history: Seq<Seq<char>>,
    /// Which history entry is being recalled, if any.
    pub history_pos: Option<nat>,
    /// The scrollback lines, oldest first.
    pub output: Seq<LineV>,
    /// The virtual filesystem.
    pub fs: Map<Seq<char>, FSEntryV>,
    /// The current working directory.
    pub cwd: Seq<char>,
}

impl View for Shell {
    type V = ShellView;

    closed spec fn view(&self) -> ShellView {
        ShellView {
            input: self.input_buffer@,
            cursor: self.cursor_pos as nat,
            history: self.history@.map_values(|h: String| h@),
            history_pos: match self.history_pos {
                Some(p) => Some(p as nat),
                None => None,
            },
            output: views_of(self.output@),
            fs: self.fs@,
            cwd: self.cwd@,
        }
    }
}

impl Shell {
    /// The session invariant: the caret stays inside the input line, the
    /// history stays within its bound and any recall position stays inside
    /// it, and the filesystem table is well formed.
    pub closed spec fn wf(&self) -> bool {
        &&& self.cursor_pos <= self.input_buffer@.len()
        &&& self.history@.len() <= MAX_HISTORY
        &&& match self.history_pos {
            Some(p) => p < self.history@.len(),
            None => true,
        }
        &&& self.fs.wf()
    }

    /// The invariant, stated over the session's value.
    pub proof fn lemma_wf_bounds(&self)
        requires
            self.wf(),
        ensures
            self@.cursor <= self@.input.len(),
            self@.history.len() <= MAX_HISTORY,
            self@.history_pos matches Some(p) ==> p < self@.history.len(),
    {
    }

    /// A fresh session: empty buffers, the seeded filesystem, the root as
    /// working directory.
    pub fn new() -> (r: Self)
        ensures
            r.wf(),
            r@.input == Seq::<char>::empty(),
            r@.cursor == 0,
            r@.history == Seq::<Seq<char>>::empty(),
            r@.history_pos is None,
            r@.output == Seq::<LineV>::empty(),
            r@.fs == root_fs(),
            r@.cwd == "~"@,
    {
        let r = Shell {
            input_buffer: Vec::new(),
            cursor_pos: 0,
            history: Vec::new(),
            history_pos: None,
            output: Vec::new(),
            fs: VirtualFS::new(),
            cwd: "~".to_owned(),
        };
        proof {
            assert(r@.history =~= Seq::<Seq<char>>::empty());
            assert(r@.output =~= Seq::<LineV>::empty());
        }
        r
    }

    /// Insert a character at the caret; any history recall is cancelled.
    pub fn input(&mut self, c: char)
        requires
            old(self).wf(),
        ensures
            final(self).wf(),
            final(self)@ == (ShellView {
                input: old(self)@.input.insert(old(self)@.cursor as int, c),
                cursor: old(self)@.cursor + 1,
                history_pos: None,
                ..old(self)@
            }),
    {
        self.input_buffer.insert(self.cursor_pos, c);
        let n = self.input_buffer.len();
        proof {
            assert(self.cursor_pos < n);
        }
        self.cursor_pos += 1;
        self.history_pos = None;
    }

    /// Remove the character before the caret; a no-op at the start of the
    /// line.
    pub fn backspace(&mut self)
        requires
            old(self).wf(),
        ensures
            final(self).wf(),
            final(self)@ == if old(self)@.cursor == 0 {
                old(self)@
            } else {
                ShellView {
                    input: old(self)@.input.remove(old(self)@.cursor - 1),
                    cursor: (old(self)@.cursor - 1) as nat,
                    ..old(self)@
                }
            },
    {
        if self.cursor_pos > 0 {
            self.cursor_pos -= 1;
            self.input_buffer.remove(self.cursor_pos);
        }
    }

    /// Move the caret one place left, clamped at the start.
    pub fn cursor_left(&mut self)
        requires
            old(self).wf(),
        ensures
            final(self).wf(),
            final(self)@ == if old(self)@.cursor == 0 {
                old(self)@
            } else {
                ShellView { cursor: (old(self)@.cursor - 1) as nat, ..old(self)@ }
            },
    {
        if self.cursor_pos > 0 {
            self.cursor_pos -= 1;
        }
    }

    /// Move the caret one place right, clamped at the end of the line.
    pub fn cursor_right(&mut self)
        requires
            old(self).wf(),
        ensures
            final(self).wf(),
            final(self)@ == if old(self)@.cursor == old(self)@.input.len() {
                old(self)@
            } else {
                ShellView { cursor: old(self)@.cursor + 1, ..old(self)@ }
            },
    {
        if self.cursor_pos < self.input_buffer.len() {
            self.cursor_pos += 1;
        }
    }

    /// The history index `history_prev` recalls next.
    pub open spec fn prev_recall_pos(s: ShellView) -> nat
        recommends
            s.history.len() > 0,
    {
        match s.history_pos {
            None => (s.history.len() - 1) as nat,
            Some(p) => if p == 0 {
                0
            } else {
                (p - 1) as nat
            },
        }
    }

    /// Recall the previous (older) history entry: the first call recalls the
    /// most recent entry, later calls step toward the oldest, clamped there.
    /// The recalled text replaces the input line and the caret goes to its
    /// end. A no-op while the history is empty.
    pub fn history_prev(&mut self)
        requires
            old(self).wf(),
        ensures
            final(self).wf(),
            final(self)@ == if old(self)@.history.len() == 0 {
                old(self)@
            } else {
                ShellView {
                    input: old(self)@.history[Self::prev_recall_pos(old(self)@) as int],
                    cursor: old(self)@.history[Self::prev_recall_pos(old(self)@) as int].len(),
                    history_pos: Some(Self::prev_recall_pos(old(self)@)),
                    ..old(self)@
                }
            },
    {
        if self.history.len() == 0 {
            return ;
        }
        let new_pos: usize = match self.history_pos {
            None => self.history.len() - 1,
            Some(p) => if p == 0 {
                0
            } else {
                p - 1
            },
        };
        self.history_pos = Some(new_pos);
        proof {
            assert(old(self)@.history[new_pos as int] == self.history@[new_pos as int]@);
        }
        self.input_buffer = str_to_chars(self.history[new_pos].as_str());
        self.cursor_pos = self.input_buffer.len();
    }

    /// Recall the next (newer) history entry; stepping past the newest ends
    /// the recall and clears the input line. A no-op while not recalling.
    pub fn history_next(&mut self)
        requires
            old(self).wf(),
        ensures
            final(self).wf(),
            final(self)@ == match old(self)@.history_pos {
                None => old(self)@,
                Some(p) => if p + 1 >= old(self)@.history.len() {
                    ShellView {
                        input: Seq::<char>::empty(),
                        cursor: 0,
                        history_pos: None,
                        ..old(self)@
                    }
                } else {
                    ShellView {
                        input: old(self)@.history[p + 1 as int],
                        cursor: old(self)@.history[p + 1 as int].len(),
                        history_pos: Some(p + 1),
                        ..old(self)@
                    }
                },
            },
    {
        match self.history_pos {
            None => {},
            Some(p) => {
                if p >= self.history.len() - 1 {
                    self.history_pos = None;
                    self.input_buffer = Vec::new();
                    self.cursor_pos = 0;
                    proof {
                        assert(self.input_buffer@ =~= Seq::<char>::empty());
                    }
                } else {
                    self.history_pos = Some(p + 1);
                    proof {
                        assert(old(self)@.history[p + 1] == self.history@[p + 1]@);
                    }
                    self.input_buffer = str_to_chars(self.history[p + 1].as_str());
                    self.cursor_pos = self.input_buffer.len();
                }
            },
        }
    }

    /// The prompt: user, host, and the current working directory.
    pub open spec fn prompt_spec(cwd: Seq<char>) -> Seq<char> {
        "guest@uchindami:"@ + cwd + "$ "@
    }

    /// The current prompt string.
    pub fn get_prompt(&self) -> (r: String)
        ensures
            r@ == Self::prompt_spec(self@.cwd),
    {
        let r = concat_strs("guest@uchindami:", self.cwd.as_str()).concat("$ ");
        proof {
            assert(r@ =~= Self::prompt_spec(self@.cwd));
        }
        r
    }

    /// The input line, for rendering.
    pub fn input_buffer(&self) -> (r: String)
        ensures
            r@ == self@.input,
    {
        chars_to_string(&self.input_buffer)
    }

    /// The caret position, for rendering.
    pub fn cursor_pos(&self) -> (r: usize)
        ensures
            r == self@.cursor,
    {
        self.cursor_pos
    }

    /// The current working directory.
    pub fn cwd(&self) -> (r: String)
        ensures
            r@ == self@.cwd,
    {
        self.cwd.clone()
    }

    /// How many commands the history holds.
    pub fn history_len(&self) -> (r: usize)
        ensures
            r == self@.history.len(),
    {
        self.history.len()
    }

    /// The history entry at `i`, oldest first.
    pub fn history_at(&self, i: usize) -> (r: String)
        requires
            i < self@.history.len(),
        ensures
            r@ == self@.history[i as int],
    {
        proof {
            assert(self@.history[i as int] == self.history@[i as int]@);
        }
        self.history[i].clone()
    }

    /// How many lines the scrollback holds.
    pub fn output_len(&self) -> (r: usize)
        ensures
            r == self@.output.len(),
    {
        self.output.len()
    }

    /// The scrollback line at `i`, oldest first.
    pub fn output_at(&self, i: usize) -> (r: RenderLine)
        requires
            i < self@.output.len(),
        ensures
            r@ == self@.output[i as int],
    {
        proof {
            assert(self@.output[i as int] == self.output@[i as int]@);
        }
        self.output[i].duplicate()
    }

    /// The scrollback lines that fit a viewport of `height` lines: the last
    /// `height` of them, oldest first.
    pub fn visible_output(&self, height: usize) -> (r: Vec<RenderLine>)
        ensures
            views_of(r@) == if self@.output.len() > height {
                self@.output.skip(self@.output.len() - height)
            } else {
                self@.output
            },
    {
        let len = self.output.len();
        let start = if len > height {
            len - height
        } else {
            0
        };
        let mut r: Vec<RenderLine> = Vec::new();
        let mut i: usize = start;
        while i < len
            invariant
                start <= i <= len,
                len == self.output@.len(),
                start == if len > height {
                    len - height
                } else {
                    0
                },
                r@.len() == i - start,
                forall|j: int| 0 <= j < r@.len() ==> r@[j]@ == self.output@[start + j]@,
            decreases len - i,
        {
            r.push(self.output[i].duplicate());
            i += 1;
        }
        proof {
            if self@.output.len() > height {
                assert(views_of(r@) =~= self@.output.skip(self@.output.len() - height));
            } else {
                assert(views_of(r@) =~= self@.output);
            }
        }
        r
    }
}

/// `lines` appended to the scrollback, the oldest lines evicted beyond
/// [`MAX_OUTPUT_LINES`].
pub open spec fn append_capped(out: Seq<LineV>, lines: Seq<LineV>) -> Seq<LineV> {
    let r = out + lines;
    if r.len() > MAX_OUTPUT_LINES {
        r.skip(r.len() - MAX_OUTPUT_LINES)
    } else {
        r
    }
}

/// `cmd` recorded in the history: dropped if it repeats the most recent
/// entry, appended otherwise, the oldest entry evicted beyond
/// [`MAX_HISTORY`].
pub open spec fn history_after(h: Seq<Seq<char>>, cmd: Seq<char>) -> Seq<Seq<char>> {
    if h.len() > 0 && h.last() == cmd {
        h
    } else {
        let h2 = h.push(cmd);
        if h2.len() > MAX_HISTORY {
            h2.skip(1)
        } else {
            h2
        }
    }
}

/// History bound: recording a command that does not repeat the most recent
/// entry into a full history keeps the length at [`MAX_HISTORY`] and evicts
/// exactly the oldest entry (first in, first out).
pub proof fn lemma_history_fifo(h: Seq<Seq<char>>, cmd: Seq<char>)
    requires
        h.len() == MAX_HISTORY,
        !(h.len() > 0 && h.last() == cmd),
    ensures
        history_after(h, cmd).len() == MAX_HISTORY,
        history_after(h, cmd) == h.skip(1).push(cmd),
        history_after(h, cmd)[0] == h[1],
{
    assert(h.push(cmd).skip(1) =~= h.skip(1).push(cmd));
}

/// Recording never grows the history beyond its bound.
pub proof fn lemma_history_bounded(h: Seq<Seq<char>>, cmd: Seq<char>)
    requires
        h.len() <= MAX_HISTORY,
    ensures
        history_after(h, cmd).len() <= MAX_HISTORY,
{
}

/// Immediate-repeat de-duplication: recording the same command twice in a
/// row changes the history exactly once.
pub proof fn lemma_history_dedup(h: Seq<Seq<char>>, cmd: Seq<char>)
    ensures
        history_after(history_after(h, cmd), cmd) == history_after(h, cmd),
{
    let h1 = history_after(h, cmd);
    assert(h1.len() > 0);
    assert(h1.last() == cmd);
}

impl Shell {
    /// Append lines to the scrollback, evicting the oldest beyond the cap.
    fn append_output(&mut self, lines: Vec<RenderLine>)
        requires
            old(self).wf(),
        ensures
            final(self).wf(),
            final(self)@ == (ShellView {
                output: append_capped(old(self)@.output, views_of(lines@)),
                ..old(self)@
            }),
    {
        let ghost full = old(self)@.output + views_of(lines@);
        let mut i: usize = 0;
        while i < lines.len()
            invariant
                old(self).wf(),
                self.wf(),
                i <= lines@.len(),
                full == old(self)@.output + views_of(lines@),
                views_of(self.output@) == old(self)@.output + views_of(lines@).take(i as int),
                self@ == (ShellView { output: views_of(self.output@), ..old(self)@ }),
            decreases lines.len() - i,
        {
            let ghost prev = views_of(self.output@);
            let l = lines[i].duplicate();
            self.output.push(l);
            proof {
                assert(views_of(self.output@) =~= prev.push(lines@[i as int]@));
                assert(views_of(lines@)[i as int] == lines@[i as int]@);
                assert(prev.push(lines@[i as int]@) =~= old(self)@.output + views_of(
                    lines@,
                ).take(i + 1));
            }
            i += 1;
        }
        proof {
            assert(views_of(lines@).take(views_of(lines@).len() as int) =~= views_of(lines@));
        }
        while self.output.len() > MAX_OUTPUT_LINES
            invariant
                self.wf(),
                views_of(self.output@).len() >= MAX_OUTPUT_LINES || views_of(self.output@)
                    == full,
                full.len() >= views_of(self.output@).len(),
                views_of(self.output@) == full.skip(full.len() - views_of(self.output@).len()),
                self@ == (ShellView { output: views_of(self.output@), ..old(self)@ }),
            decreases self.output@.len(),
        {
            let ghost prev = views_of(self.output@);
            self.output.remove(0);
            proof {
                assert(views_of(self.output@) =~= prev.skip(1));
                assert(prev.skip(1) =~= full.skip(full.len() - prev.len() + 1));
            }
        }
        proof {
            if full.len() > MAX_OUTPUT_LINES {
                assert(views_of(self.output@).len() == MAX_OUTPUT_LINES);
            } else {
                assert(full.skip(0) =~= full);
            }
        }
    }

    /// The welcome banner and system blurb shown when the session starts.
    pub open spec fn welcome_lines() -> Seq<LineV> {
        seq![
            lv(""@, LineKind::Normal),
            lv("Connecting to uchindami.dev..."@, LineKind::Normal),
            lv("Authenticated."@, LineKind::Normal),
            lv(""@, LineKind::Normal),
            lv(
                "\u{2554}\u{2550}\u{2550}\u{2550}\u{2550}\u{2550}\u{2550}\u{2550}\u{2550}\u{2550}\u{2550}\u{2550}\u{2550}\u{2550}\u{2550}\u{2550}\u{2550}\u{2550}\u{2550}\u{2550}\u{2550}\u{2550}\u{2550}\u{2550}\u{2550}\u{2550}\u{2550}\u{2550}\u{2550}\u{2550}\u{2550}\u{2550}\u{2550}\u{2550}\u{2550}\u{2550}\u{2550}\u{2550}\u{2550}\u{2550}\u{2550}\u{2550}\u{2550}\u{2550}\u{2550}\u{2550}\u{2550}\u{2550}\u{2550}\u{2550}\u{2550}\u{2550}\u{2550}\u{2550}\u{2550}\u{2550}\u{2550}\u{2550}\u{2550}\u{2550}\u{2550}\u{2550}\u{2550}\u{2550}\u{2550}\u{2550}\u{2550}\u{2550}\u{2550}\u{2550}\u{2550}\u{2550}\u{2550}\u{2550}\u{2550}\u{2550}\u{2550}\u{2550}\u{2557}"@,
                LineKind::Normal,
            ),
            lv(
                "\u{2551}                                                                              \u{2551}"@,
                LineKind::Normal,
            ),
            lv(
                "\u{2551}   \u{2588}\u{2588}\u{2557}   \u{2588}\u{2588}\u{2557} \u{2588}\u{2588}\u{2588}\u{2588}\u{2588}\u{2588}\u{2557}\u{2588}\u{2588}\u{2557}  \u{2588}\u{2588}\u{2557}\u{2588}\u{2588}\u{2557}\u{2588}\u{2588}\u{2588}\u{2557}   \u{2588}\u{2588}\u{2557}\u{2588}\u{2588}\u{2588}\u{2588}\u{2588}\u{2588}\u{2557}  \u{2588}\u{2588}\u{2588}\u{2588}\u{2588}\u{2557} \u{2588}\u{2588}\u{2588}\u{2557}   \u{2588}\u{2588}\u{2588}\u{2557}\u{2588}\u{2588}\u{2557}       \u{2551}"@,
                LineKind::Normal,
            ),
            lv(
                "\u{2551}   \u{2588}\u{2588}\u{2551}   \u{2588}\u{2588}\u{2551}\u{2588}\u{2588}\u{2554}\u{2550}\u{2550}\u{2550}\u{2550}\u{255d}\u{2588}\u{2588}\u{2551}  \u{2588}\u{2588}\u{2551}\u{2588}\u{2588}\u{2551}\u{2588}\u{2588}\u{2588}\u{2588}\u{2557}  \u{2588}\u{2588}\u{2551}\u{2588}\u{2588}\u{2554}\u{2550}\u{2550}\u{2588}\u{2588}\u{2557}\u{2588}\u{2588}\u{2554}\u{2550}\u{2550}\u{2588}\u{2588}\u{2557}\u{2588}\u{2588}\u{2588}\u{2588}\u{2557} \u{2588}\u{2588}\u{2588}\u{2588}\u{2551}\u{2588}\u{2588}\u{2551}       \u{2551}"@,
                LineKind::Normal,
            ),
            lv(
                "\u{2551}   \u{2588}\u{2588}\u{2551}   \u{2588}\u{2588}\u{2551}\u{2588}\u{2588}\u{2551}     \u{2588}\u{2588}\u{2588}\u{2588}\u{2588}\u{2588}\u{2588}\u{2551}\u{2588}\u{2588}\u{2551}\u{2588}\u{2588}\u{2554}\u{2588}\u{2588}\u{2557} \u{2588}\u{2588}\u{2551}\u{2588}\u{2588}\u{2551}  \u{2588}\u{2588}\u{2551}\u{2588}\u{2588}\u{2588}\u{2588}\u{2588}\u{2588}\u{2588}\u{2551}\u{2588}\u{2588}\u{2554}\u{2588}\u{2588}\u{2588}\u{2588}\u{2554}\u{2588}\u{2588}\u{2551}\u{2588}\u{2588}\u{2551}       \u{2551}"@,
                LineKind::Normal,
            ),
            lv(
                "\u{2551}   \u{2588}\u{2588}\u{2551}   \u{2588}\u{2588}\u{2551}\u{2588}\u{2588}\u{2551}     \u{2588}\u{2588}\u{2554}\u{2550}\u{2550}\u{2588}\u{2588}\u{2551}\u{2588}\u{2588}\u{2551}\u{2588}\u{2588}\u{2551}\u{255a}\u{2588}\u{2588}\u{2557}\u{2588}\u{2588}\u{2551}\u{2588}\u{2588}\u{2551}  \u{2588}\u{2588}\u{2551}\u{2588}\u{2588}\u{2554}\u{2550}\u{2550}\u{2588}\u{2588}\u{2551}\u{2588}\u{2588}\u{2551}\u{255a}\u{2588}\u{2588}\u{2554}\u{255d}\u{2588}\u{2588}\u{2551}\u{2588}\u{2588}\u{2551}       \u{2551}"@,
                LineKind::Normal,
            ),
            lv(
                "\u{2551}   \u{255a}\u{2588}\u{2588}\u{2588}\u{2588}\u{2588}\u{2588}\u{2554}\u{255d}\u{255a}\u{2588}\u{2588}\u{2588}\u{2588}\u{2588}\u{2588}\u{2557}\u{2588}\u{2588}\u{2551}  \u{2588}\u{2588}\u{2551}\u{2588}\u{2588}\u{2551}\u{2588}\u{2588}\u{2551} \u{255a}\u{2588}\u{2588}\u{2588}\u{2588}\u{2551}\u{2588}\u{2588}\u{2588}\u{2588}\u{2588}\u{2588}\u{2554}\u{255d}\u{2588}\u{2588}\u{2551}  \u{2588}\u{2588}\u{2551}\u{2588}\u{2588}\u{2551} \u{255a}\u{2550}\u{255d} \u{2588}\u{2588}\u{2551}\u{2588}\u{2588}\u{2551}       \u{2551}"@,
                LineKind::Normal,
            ),
            lv(
                "\u{2551}    \u{255a}\u{2550}\u{2550}\u{2550}\u{2550}\u{2550}\u{255d}  \u{255a}\u{2550}\u{2550}\u{2550}\u{2550}\u{2550}\u{255d}\u{255a}\u{2550}\u{255d}  \u{255a}\u{2550}\u{255d}\u{255a}\u{2550}\u{255d}\u{255a}\u{2550}\u{255d}  \u{255a}\u{2550}\u{2550}\u{2550}\u{255d}\u{255a}\u{2550}\u{2550}\u{2550}\u{2550}\u{2550}\u{255d} \u{255a}\u{2550}\u{255d}  \u{255a}\u{2550}\u{255d}\u{255a}\u{2550}\u{255d}     \u{255a}\u{2550}\u{255d}\u{255a}\u{2550}\u{255d}       \u{2551}"@,
                LineKind::Normal,
            ),
            lv(
                "\u{2551}                                                                              \u{2551}"@,
                LineKind::Normal,
            ),
            lv(
                "\u{2551}                       Welcome to my portfolio                                \u{2551}"@,
                LineKind::Normal,
            ),
            lv(
                "\u{2551}                                                                              \u{2551}"@,
                LineKind::Normal,
            ),
            lv(
                "\u{255a}\u{2550}\u{2550}\u{2550}\u{2550}\u{2550}\u{2550}\u{2550}\u{2550}\u{2550}\u{2550}\u{2550}\u{2550}\u{2550}\u{2550}\u{2550}\u{2550}\u{2550}\u{2550}\u{2550}\u{2550}\u{2550}\u{2550}\u{2550}\u{2550}\u{2550}\u{2550}\u{2550}\u{2550}\u{2550}\u{2550}\u{2550}\u{2550}\u{2550}\u{2550}\u{2550}\u{2550}\u{2550}\u{2550}\u{2550}\u{2550}\u{2550}\u{2550}\u{2550}\u{2550}\u{2550}\u{2550}\u{2550}\u{2550}\u{2550}\u{2550}\u{2550}\u{2550}\u{2550}\u{2550}\u{2550}\u{2550}\u{2550}\u{2550}\u{2550}\u{2550}\u{2550}\u{2550}\u{2550}\u{2550}\u{2550}\u{2550}\u{2550}\u{2550}\u{2550}\u{2550}\u{2550}\u{2550}\u{2550}\u{2550}\u{2550}\u{2550}\u{2550}\u{2550}\u{255d}"@,
                LineKind::Normal,
            ),
            lv(""@, LineKind::Normal),
            lv("System Information:"@, LineKind::Normal),
            lv("  OS: uchindami OS v2.0.26"@, LineKind::Normal),
            lv("  Kernel: Rust 1.83.0"@, LineKind::Normal),
            lv("  Uptime: 420 days, 69 hours"@, LineKind::Normal),
            lv("  Shell: rsh (Rust Shell)"@, LineKind::Normal),
            lv("  Complete the sentence: I use ____ btw"@, LineKind::Normal),
            lv(""@, LineKind::Normal),
            lv("Type 'ls' to see available commands, or 'help' for assistance."@, LineKind::Normal),
            lv(""@, LineKind::Normal),
        ]
    }

    /// Append the welcome banner to the scrollback.
    pub fn show_welcome(&mut self)
        requires
            old(self).wf(),
        ensures
            final(self).wf(),
            final(self)@ == (ShellView {
                output: append_capped(old(self)@.output, Self::welcome_lines()),
                ..old(self)@
            }),
    {
        let mut ls: Vec<RenderLine> = Vec::new();
        crate::render::push_line(&mut ls, LineKind::Normal, "");
        crate::render::push_line(&mut ls, LineKind::Normal, "Connecting to uchindami.dev...");
        crate::render::push_line(&mut ls, LineKind::Normal, "Authenticated.");
        crate::render::push_line(&mut ls, LineKind::Normal, "");
        crate::render::push_line(
            &mut ls,
            LineKind::Normal,
            "\u{2554}\u{2550}\u{2550}\u{2550}\u{2550}\u{2550}\u{2550}\u{2550}\u{2550}\u{2550}\u{2550}\u{2550}\u{2550}\u{2550}\u{2550}\u{2550}\u{2550}\u{2550}\u{2550}\u{2550}\u{2550}\u{2550}\u{2550}\u{2550}\u{2550}\u{2550}\u{2550}\u{2550}\u{2550}\u{2550}\u{2550}\u{2550}\u{2550}\u{2550}\u{2550}\u{2550}\u{2550}\u{2550}\u{2550}\u{2550}\u{2550}\u{2550}\u{2550}\u{2550}\u{2550}\u{2550}\u{2550}\u{2550}\u{2550}\u{2550}\u{2550}\u{2550}\u{2550}\u{2550}\u{2550}\u{2550}\u{2550}\u{2550}\u{2550}\u{2550}\u{2550}\u{2550}\u{2550}\u{2550}\u{2550}\u{2550}\u{2550}\u{2550}\u{2550}\u{2550}\u{2550}\u{2550}\u{2550}\u{2550}\u{2550}\u{2550}\u{2550}\u{2550}\u{2557}",
        );
        crate::render::push_line(
            &mut ls,
            LineKind::Normal,
            "\u{2551}                                                                              \u{2551}",
        );
        crate::render::push_line(
            &mut ls,
            LineKind::Normal,
            "\u{2551}   \u{2588}\u{2588}\u{2557}   \u{2588}\u{2588}\u{2557} \u{2588}\u{2588}\u{2588}\u{2588}\u{2588}\u{2588}\u{2557}\u{2588}\u{2588}\u{2557}  \u{2588}\u{2588}\u{2557}\u{2588}\u{2588}\u{2557}\u{2588}\u{2588}\u{2588}\u{2557}   \u{2588}\u{2588}\u{2557}\u{2588}\u{2588}\u{2588}\u{2588}\u{2588}\u{2588}\u{2557}  \u{2588}\u{2588}\u{2588}\u{2588}\u{2588}\u{2557} \u{2588}\u{2588}\u{2588}\u{2557}   \u{2588}\u{2588}\u{2588}\u{2557}\u{2588}\u{2588}\u{2557}       \u{2551}",
        );
        crate::render::push_line(
            &mut ls,
            LineKind::Normal,
            "\u{2551}   \u{2588}\u{2588}\u{2551}   \u{2588}\u{2588}\u{2551}\u{2588}\u{2588}\u{2554}\u{2550}\u{2550}\u{2550}\u{2550}\u{255d}\u{2588}\u{2588}\u{2551}  \u{2588}\u{2588}\u{2551}\u{2588}\u{2588}\u{2551}\u{2588}\u{2588}\u{2588}\u{2588}\u{2557}  \u{2588}\u{2588}\u{2551}\u{2588}\u{2588}\u{2554}\u{2550}\u{2550}\u{2588}\u{2588}\u{2557}\u{2588}\u{2588}\u{2554}\u{2550}\u{2550}\u{2588}\u{2588}\u{2557}\u{2588}\u{2588}\u{2588}\u{2588}\u{2557} \u{2588}\u{2588}\u{2588}\u{2588}\u{2551}\u{2588}\u{2588}\u{2551}       \u{2551}",
        );
        crate::render::push_line(
            &mut ls,
            LineKind::Normal,
            "\u{2551}   \u{2588}\u{2588}\u{2551}   \u{2588}\u{2588}\u{2551}\u{2588}\u{2588}\u{2551}     \u{2588}\u{2588}\u{2588}\u{2588}\u{2588}\u{2588}\u{2588}\u{2551}\u{2588}\u{2588}\u{2551}\u{2588}\u{2588}\u{2554}\u{2588}\u{2588}\u{2557} \u{2588}\u{2588}\u{2551}\u{2588}\u{2588}\u{2551}  \u{2588}\u{2588}\u{2551}\u{2588}\u{2588}\u{2588}\u{2588}\u{2588}\u{2588}\u{2588}\u{2551}\u{2588}\u{2588}\u{2554}\u{2588}\u{2588}\u{2588}\u{2588}\u{2554}\u{2588}\u{2588}\u{2551}\u{2588}\u{2588}\u{2551}       \u{2551}",
        );
        crate::render::push_line(
            &mut ls,
            LineKind::Normal,
            "\u{2551}   \u{2588}\u{2588}\u{2551}   \u{2588}\u{2588}\u{2551}\u{2588}\u{2588}\u{2551}     \u{2588}\u{2588}\u{2554}\u{2550}\u{2550}\u{2588}\u{2588}\u{2551}\u{2588}\u{2588}\u{2551}\u{2588}\u{2588}\u{2551}\u{255a}\u{2588}\u{2588}\u{2557}\u{2588}\u{2588}\u{2551}\u{2588}\u{2588}\u{2551}  \u{2588}\u{2588}\u{2551}\u{2588}\u{2588}\u{2554}\u{2550}\u{2550}\u{2588}\u{2588}\u{2551}\u{2588}\u{2588}\u{2551}\u{255a}\u{2588}\u{2588}\u{2554}\u{255d}\u{2588}\u{2588}\u{2551}\u{2588}\u{2588}\u{2551}       \u{2551}",
        );
        crate::render::push_line(
            &mut ls,
            LineKind::Normal,
            "\u{2551}   \u{255a}\u{2588}\u{2588}\u{2588}\u{2588}\u{2588}\u{2588}\u{2554}\u{255d}\u{255a}\u{2588}\u{2588}\u{2588}\u{2588}\u{2588}\u{2588}\u{2557}\u{2588}\u{2588}\u{2551}  \u{2588}\u{2588}\u{2551}\u{2588}\u{2588}\u{2551}\u{2588}\u{2588}\u{2551} \u{255a}\u{2588}\u{2588}\u{2588}\u{2588}\u{2551}\u{2588}\u{2588}\u{2588}\u{2588}\u{2588}\u{2588}\u{2554}\u{255d}\u{2588}\u{2588}\u{2551}  \u{2588}\u{2588}\u{2551}\u{2588}\u{2588}\u{2551} \u{255a}\u{2550}\u{255d} \u{2588}\u{2588}\u{2551}\u{2588}\u{2588}\u{2551}       \u{2551}",
        );
        crate::render::push_line(
            &mut ls,
            LineKind::Normal,
            "\u{2551}    \u{255a}\u{2550}\u{2550}\u{2550}\u{2550}\u{2550}\u{255d}  \u{255a}\u{2550}\u{2550}\u{2550}\u{2550}\u{2550}\u{255d}\u{255a}\u{2550}\u{255d}  \u{255a}\u{2550}\u{255d}\u{255a}\u{2550}\u{255d}\u{255a}\u{2550}\u{255d}  \u{255a}\u{2550}\u{2550}\u{2550}\u{255d}\u{255a}\u{2550}\u{2550}\u{2550}\u{2550}\u{2550}\u{255d} \u{255a}\u{2550}\u{255d}  \u{255a}\u{2550}\u{255d}\u{255a}\u{2550}\u{255d}     \u{255a}\u{2550}\u{255d}\u{255a}\u{2550}\u{255d}       \u{2551}",
        );
        crate::render::push_line(
            &mut ls,
            LineKind::Normal,
            "\u{2551}                                                                              \u{2551}",
        );
        crate::render::push_line(
            &mut ls,
            LineKind::Normal,
            "\u{2551}                       Welcome to my portfolio                                \u{2551}",
        );
        crate::render::push_line(
            &mut ls,
            LineKind::Normal,
            "\u{2551}                                                                              \u{2551}",
        );
        crate::render::push_line(
            &mut ls,
            LineKind::Normal,
            "\u{255a}\u{2550}\u{2550}\u{2550}\u{2550}\u{2550}\u{2550}\u{2550}\u{2550}\u{2550}\u{2550}\u{2550}\u{2550}\u{2550}\u{2550}\u{2550}\u{2550}\u{2550}\u{2550}\u{2550}\u{2550}\u{2550}\u{2550}\u{2550}\u{2550}\u{2550}\u{2550}\u{2550}\u{2550}\u{2550}\u{2550}\u{2550}\u{2550}\u{2550}\u{2550}\u{2550}\u{2550}\u{2550}\u{2550}\u{2550}\u{2550}\u{2550}\u{2550}\u{2550}\u{2550}\u{2550}\u{2550}\u{2550}\u{2550}\u{2550}\u{2550}\u{2550}\u{2550}\u{2550}\u{2550}\u{2550}\u{2550}\u{2550}\u{2550}\u{2550}\u{2550}\u{2550}\u{2550}\u{2550}\u{2550}\u{2550}\u{2550}\u{2550}\u{2550}\u{2550}\u{2550}\u{2550}\u{2550}\u{2550}\u{2550}\u{2550}\u{2550}\u{2550}\u{2550}\u{255d}",
        );
        crate::render::push_line(&mut ls, LineKind::Normal, "");
        crate::render::push_line(&mut ls, LineKind::Normal, "System Information:");
        crate::render::push_line(&mut ls, LineKind::Normal, "  OS: uchindami OS v2.0.26");
        crate::render::push_line(&mut ls, LineKind::Normal, "  Kernel: Rust 1.83.0");
        crate::render::push_line(&mut ls, LineKind::Normal, "  Uptime: 420 days, 69 hours");
        crate::render::push_line(&mut ls, LineKind::Normal, "  Shell: rsh (Rust Shell)");
        crate::render::push_line(&mut ls, LineKind::Normal, "  Complete the sentence: I use ____ btw");
        crate::render::push_line(&mut ls, LineKind::Normal, "");
        crate::render::push_line(
            &mut ls,
            LineKind::Normal,
            "Type 'ls' to see available commands, or 'help' for assistance.",
        );
        crate::render::push_line(&mut ls, LineKind::Normal, "");
        proof {
            assert(views_of(ls@) =~= Self::welcome_lines());
        }
        self.append_output(ls);
    }

    /// The session value after tab completion: one candidate replaces the
    /// input line; several are listed in the scrollback behind an echo of
    /// the prompt and input; none is a no-op.
    pub open spec fn tab_view_after(s: ShellView) -> ShellView {
        let cs = sorted_completions(s.fs, s.input, s.cwd);
        if cs.len() == 1 {
            ShellView { input: cs[0], cursor: cs[0].len(), ..s }
        } else if cs.len() > 1 {
            ShellView {
                output: append_capped(
                    s.output,
                    seq![
                        lv(PROMPT@ + s.input, LineKind::Normal),
                        lv(join_spec(cs, "  "@), LineKind::Normal),
                    ],
                ),
                ..s
            }
        } else {
            s
        }
    }

    /// Tab completion over the current input line at the current directory.
    pub fn tab_complete(&mut self)
        requires
            old(self).wf(),
        ensures
            final(self).wf(),
            final(self)@ == Self::tab_view_after(old(self)@),
    {
        let input_s = chars_to_string(&self.input_buffer);
        let completions = self.fs.complete(input_s.as_str(), self.cwd.as_str());
        let ghost cs = sorted_completions(old(self)@.fs, old(self)@.input, old(self)@.cwd);
        if completions.len() == 1 {
            proof {
                assert(cs[0] == completions@[0]@);
            }
            self.input_buffer = str_to_chars(completions[0].as_str());
            self.cursor_pos = self.input_buffer.len();
        } else if completions.len() > 1 {
            let mut echo: Vec<RenderLine> = Vec::new();
            let first = concat_strs(PROMPT, input_s.as_str());
            crate::render::push_line_string(&mut echo, LineKind::Normal, first);
            let listing = join_strings(&completions, "  ");
            crate::render::push_line_string(&mut echo, LineKind::Normal, listing);
            proof {
                assert(views_of(echo@) =~= seq![
                    lv(PROMPT@ + old(self)@.input, LineKind::Normal),
                    lv(join_spec(cs, "  "@), LineKind::Normal),
                ]);
            }
            self.append_output(echo);
        }
    }
}

impl Shell {
    /// The session value and result after submitting the current line: the
    /// prompt and trimmed line are echoed to the scrollback and the input is
    /// cleared; an empty line does nothing more; the exact tokens `exit` and
    /// `quit` leave without touching the history; any other line is recorded
    /// in the history and executed, its output appended (or the scrollback
    /// cleared, or a view launch handed back). `fi` selects the fortune, as
    /// in [`execute_spec`].
    pub open spec fn submit_view_after(s: ShellView, fi: int) -> (ShellView, ShellResultV) {
        let cmd = trim_spec(s.input);
        let echoed = append_capped(
            s.output,
            seq![lv(Self::prompt_spec(s.cwd) + cmd, LineKind::Prompt)],
        );
        let base = ShellView { input: Seq::<char>::empty(), cursor: 0, output: echoed, ..s };
        if cmd.len() == 0 {
            (base, ShellResultV::Nothing)
        } else if cmd == "exit"@ || cmd == "quit"@ {
            (base, ShellResultV::Exit)
        } else {
            let run = ShellView {
                history: history_after(s.history, cmd),
                history_pos: None,
                ..base
            };
            let rc = execute_spec(cmd, s.fs, s.cwd, fi);
            match rc.0 {
                CommandResultV::Output(lines) => (
                    ShellView { output: append_capped(echoed, lines), cwd: rc.1, ..run },
                    ShellResultV::Nothing,
                ),
                CommandResultV::Clear => (
                    ShellView { output: Seq::<LineV>::empty(), cwd: rc.1, ..run },
                    ShellResultV::Nothing,
                ),
                CommandResultV::AppLaunch(name) => (
                    ShellView { cwd: rc.1, ..run },
                    ShellResultV::LaunchApp(name),
                ),
            }
        }
    }

    /// Submit the current input line (see [`Shell::submit_view_after`]).
    pub fn submit(&mut self) -> (r: ShellResult)
        requires
            old(self).wf(),
        ensures
            final(self).wf(),
            exists|fi: int|
                0 <= fi < 8 && #[trigger] Self::submit_view_after(old(self)@, fi) == (
                    final(self)@,
                    r@,
                ),
    {
        let input_s = chars_to_string(&self.input_buffer);
        let cmd = trim_str(input_s.as_str());
        let prompt = self.get_prompt();
        let mut echo: Vec<RenderLine> = Vec::new();
        let line = concat_strs(prompt.as_str(), cmd.as_str());
        crate::render::push_line_string(&mut echo, LineKind::Prompt, line);
        proof {
            assert(views_of(echo@) =~= seq![
                lv(
                    Self::prompt_spec(old(self)@.cwd) + trim_spec(old(self)@.input),
                    LineKind::Prompt,
                ),
            ]);
        }
        self.append_output(echo);
        self.input_buffer = Vec::new();
        self.cursor_pos = 0;
        proof {
            assert(self.input_buffer@ =~= Seq::<char>::empty());
        }
        if cmd.as_str().is_empty() {
            let r = ShellResult::Nothing;
            proof {
                assert(Self::submit_view_after(old(self)@, 0) == (self@, r@));
            }
            return r;
        }
        if str_eq(cmd.as_str(), "exit") || str_eq(cmd.as_str(), "quit") {
            let r = ShellResult::Exit;
            proof {
                assert(Self::submit_view_after(old(self)@, 0) == (self@, r@));
            }
            return r;
        }
        let ghost oldh = self@.history;
        let hlen = self.history.len();
        let dup = if hlen > 0 {
            proof {
                assert(oldh.last() == self.history@[hlen - 1]@);
            }
            str_eq(self.history[hlen - 1].as_str(), cmd.as_str())
        } else {
            false
        };
        if !dup {
            self.history.push(cmd.clone());
            proof {
                assert(self@.history =~= oldh.push(cmd@));
            }
            if self.history.len() > MAX_HISTORY {
                let ghost h3 = self@.history;
                self.history.remove(0);
                proof {
                    assert(self@.history =~= h3.skip(1));
                }
            }
        }
        proof {
            assert(self@.history == history_after(oldh, cmd@));
        }
        self.history_pos = None;
        let result = execute_command(cmd.as_str(), &mut self.fs, &mut self.cwd);
        let ghost fi = choose|fi: int|
            0 <= fi < 8 && (result@, self.cwd@) == #[trigger] execute_spec(
                cmd@,
                old(self)@.fs,
                old(self)@.cwd,
                fi,
            );
        match result {
            CommandResult::Output(lines) => {
                self.append_output(lines);
                let r = ShellResult::Nothing;
                proof {
                    assert(Self::submit_view_after(old(self)@, fi) == (self@, r@));
                }
                r
            },
            CommandResult::Clear => {
                self.output = Vec::new();
                let r = ShellResult::Nothing;
                proof {
                    assert(views_of(self.output@) =~= Seq::<LineV>::empty());
                    assert(Self::submit_view_after(old(self)@, fi) == (self@, r@));
                }
                r
            },
            CommandResult::AppLaunch(name) => {
                let r = ShellResult::LaunchApp(name);
                proof {
                    assert(Self::submit_view_after(old(self)@, fi) == (self@, r@));
                }
                r
            },
        }
    }
}

} // verus!
