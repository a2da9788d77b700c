use vstd::prelude::*;

use crate::cfg::{Cfg, Notifications, Slot};
use vstd::utf8::encode_utf8;
use crate::scripts::{log_tail, notify_critical, notify_send_critical, tail_log};
use crate::text::{
    is_word, lemma_parse_decimal, lemma_parse_signed_decimal, lemma_words_of_join, parse_signed,
    parse_unsigned, words,
    decimal_string, debug_quote, debug_text, decimal, join, join_path, join_path_str, join_strings, lines, lines_of, push_char, push_decimal,
    push_text, signed_decimal, push_signed, texts,
};
use crate::process::Info;
use crate::tmux::{PaneInfo, keys_enter, keys_interrupt, keys_text, new_window_args, tmux_call, Terminal, Tmux};

verus! {

/// Owner may read, write and execute.
pub const PERM_OWNER_RWX: u32 = 0o100 + 0o200 + 0o400;

pub const NAME_CMD: &'static str = "cmd";

pub const NAME_RUN: &'static str = "run";

pub const NAME_OUT: &'static str = "out";

pub const NAME_ERR: &'static str = "err";

pub const NAME_PISTA: &'static str = "pista";

/// How long to wait for a slot's first line, in seconds.
pub const FIRST_LINE_TIMEOUT_SECS: u64 = 5;

/// The directory name of the slot at `position`: `<position>-<name>`.
pub open spec fn slot_dir_text(position: nat, name: Seq<char>) -> Seq<char> {
    decimal(position) + seq!['-'] + name
}

pub fn slot_dir_name(position: usize, name: &str) -> (r: String)
    ensures
        r@ == slot_dir_text(position as nat, name@),
{
    let mut r = String::new();
    push_decimal(&mut r, position as u64);
    push_char(&mut r, '-');
    push_text(&mut r, name);
    assert(r@ =~= slot_dir_text(position as nat, name@));
    r
}

/// The name of a slot: its own, or else its position.
pub open spec fn slot_name_text(position: nat, slot: Slot) -> Seq<char> {
    match slot.name {
        Some(n) => n@,
        None => decimal(position),
    }
}

/// The script that holds the user's command, run by its interpreter.
pub open spec fn cmd_script_text(interpreter: Seq<char>, cmd: Seq<char>) -> Seq<char> {
    "#! "@ + interpreter + "\n"@ + cmd + "\n"@
}

/// The error log of a failed run, as an alert body shows it.
pub open spec fn alert_log(notif: Notifications) -> Seq<char> {
    "log=$("@ + log_tail(
        "err"@,
        notif.log_lines_limit as nat,
        notif.indent@,
        notif.width_limit as nat,
    ) + ")\n"@
}

/// The script that runs a slot's command in the slot's directory, its
/// output into the pipe and its errors appended to the log, and raises an
/// alert with the end of the log when the command exits.
pub open spec fn run_script_text(notif: Notifications, dir: Seq<char>, name: Seq<char>) -> Seq<
    char,
> {
    "#! /bin/bash\n"@ + "# This script wraps the user-provided script,\n"@
        + "# which was written to ./cmd,\n"@ + "# adding output redirection and\n"@
        + "# a notification in case of an unexpected exit.\n"@ + "cd "@ + debug_text(dir)
        + " && ./cmd > ./out 2>> ./err;\n"@ + "code=$?\n"@ + "slot_name="@ + name + "\n"@
        + alert_log(notif) + "body=\"slot: $slot_name\ncode: $code\nlog:\n$log\"\n"@
        + notify_critical("'pista feed exited!'"@, "\"$body\""@) + "\n"@
}

/// The script that runs the renderer with `args` and the slot
/// specifications, its output and errors appended to files of its
/// directory, and raises an alert with the end of its log when it exits.
pub open spec fn renderer_script_text(
    notif: Notifications,
    args: Seq<char>,
    specs: Seq<Seq<char>>,
) -> Seq<char> {
    "#! /bin/bash\n"@ + "pista "@ + args + " "@ + join(specs, " "@) + " >> ./out 2>> ./err;\n"@
        + "code=$?\n"@ + alert_log(notif) + "body=\"code: $code\nlog:\n$log\"\n"@
        + notify_critical("'pista exited!'"@, "\"$body\""@) + "\n"@
}

/// The calls that start the `run` script in the pane at `addr`: its name
/// typed, then Enter.
pub open spec fn launch_calls(sock: Seq<char>, addr: Seq<char>) -> Seq<Seq<Seq<char>>> {
    seq![tmux_call(sock, keys_text(addr, "./run"@)), tmux_call(sock, keys_enter(addr))]
}

/// The calls that restart a slot's feed: an interrupt, then the `run`
/// script started again.
pub open spec fn restart_calls(sock: Seq<char>, addr: Seq<char>) -> Seq<Seq<Seq<char>>> {
    seq![tmux_call(sock, keys_interrupt(addr))] + launch_calls(sock, addr)
}

/// The texts of a list of calls.
pub open spec fn calls(v: Seq<Vec<String>>) -> Seq<Seq<Seq<char>>> {
    v.map_values(|c: Vec<String>| texts(c@))
}

/// A slot's specification for the renderer: `<pipe> <length> <ttl>`, the
/// pipe written as `{:?}` writes it.
pub open spec fn slot_spec_text(pipe: Seq<char>, len: nat, ttl: int) -> Seq<char> {
    debug_text(pipe) + " "@ + decimal(len) + " "@ + signed_decimal(ttl)
}

fn push_alert_log(r: &mut String, notif: &Notifications)
    ensures
        final(r)@ == old(r)@ + alert_log(*notif),
{
    push_text(r, "log=$(");
    let tail = tail_log(NAME_ERR, notif.log_lines_limit, notif.indent.as_str(), notif.width_limit);
    push_text(r, tail.as_str());
    push_text(r, ")\n");
    proof {
        reveal_strlit("err");
    }
    assert(final(r)@ =~= old(r)@ + alert_log(*notif));
}

pub fn cmd_script(slot: &Slot) -> (r: String)
    ensures
        r@ == cmd_script_text(slot.interpreter@, slot.cmd@),
{
    let mut r = String::new();
    push_text(&mut r, "#! ");
    push_text(&mut r, slot.interpreter.as_str());
    push_text(&mut r, "\n");
    push_text(&mut r, slot.cmd.as_str());
    push_text(&mut r, "\n");
    assert(r@ =~= cmd_script_text(slot.interpreter@, slot.cmd@));
    r
}

pub fn run_script(notif: &Notifications, slot_dir: &str, slot_name: &str) -> (r: String)
    ensures
        r@ == run_script_text(*notif, slot_dir@, slot_name@),
{
    let mut r = String::new();
    push_text(&mut r, "#! /bin/bash\n");
    push_text(&mut r, "# This script wraps the user-provided script,\n");
    push_text(&mut r, "# which was written to ./cmd,\n");
    push_text(&mut r, "# adding output redirection and\n");
    push_text(&mut r, "# a notification in case of an unexpected exit.\n");
    push_text(&mut r, "cd ");
    let q = debug_quote(slot_dir);
    push_text(&mut r, q.as_str());
    push_text(&mut r, " && ./cmd > ./out 2>> ./err;\n");
    push_text(&mut r, "code=$?\n");
    push_text(&mut r, "slot_name=");
    push_text(&mut r, slot_name);
    push_text(&mut r, "\n");
    push_alert_log(&mut r, notif);
    push_text(&mut r, "body=\"slot: $slot_name\ncode: $code\nlog:\n$log\"\n");
    let alert = notify_send_critical("'pista feed exited!'", "\"$body\"");
    push_text(&mut r, alert.as_str());
    push_text(&mut r, "\n");
    assert(r@ =~= run_script_text(*notif, slot_dir@, slot_name@));
    r
}

pub fn renderer_script(notif: &Notifications, args: &str, specs: &Vec<String>) -> (r: String)
    ensures
        r@ == renderer_script_text(*notif, args@, texts(specs@)),
{
    let mut r = String::new();
    push_text(&mut r, "#! /bin/bash\n");
    push_text(&mut r, "pista ");
    push_text(&mut r, args);
    push_text(&mut r, " ");
    let joined = join_strings(specs, " ");
    push_text(&mut r, joined.as_str());
    push_text(&mut r, " >> ./out 2>> ./err;\n");
    push_text(&mut r, "code=$?\n");
    push_alert_log(&mut r, notif);
    push_text(&mut r, "body=\"code: $code\nlog:\n$log\"\n");
    let alert = notify_send_critical("'pista exited!'", "\"$body\"");
    push_text(&mut r, alert.as_str());
    push_text(&mut r, "\n");
    assert(r@ =~= renderer_script_text(*notif, args@, texts(specs@)));
    r
}

/// The calls that start the `run` script in `term`.
pub fn launch(tmux: &Tmux, term: &Terminal) -> (r: Vec<Vec<String>>)
    ensures
        calls(r@) == launch_calls(tmux.sock_name(), term.address()),
{
    let mut r: Vec<Vec<String>> = Vec::new();
    r.push(tmux.send_text(term, "./run"));
    r.push(tmux.send_enter(term));
    assert(calls(r@) =~= launch_calls(tmux.sock_name(), term.address()));
    r
}

/// A slot's specification for the renderer.
pub fn slot_spec(pipe: &str, len: usize, ttl: i32) -> (r: String)
    ensures
        r@ == slot_spec_text(pipe@, len as nat, ttl as int),
{
    let mut r = debug_quote(pipe);
    push_text(&mut r, " ");
    push_decimal(&mut r, len as u64);
    push_text(&mut r, " ");
    push_signed(&mut r, ttl as i64);
    assert(r@ =~= slot_spec_text(pipe@, len as nat, ttl as int));
    r
}

/// What `start` does for one slot, decided before any of it is done: the
/// slot's directory and files, its pane, and the calls that launch it.
#[derive(Debug)]
pub struct SlotPlan {
    pub name: String,
    pub dir: String,
    /// The named pipe that the feed writes to.
    pub pipe: String,
    pub cmd_file: String,
    pub cmd_script: String,
    pub run_file: String,
    pub run_script: String,
    pub terminal: Terminal,
    /// The tmux call that opens the slot's window.
    pub new_window: Vec<String>,
    /// The tmux calls that start the `run` script in the slot's pane.
    pub launch: Vec<Vec<String>>,
    /// The declared width of the slot's output.
    pub len: Option<usize>,
    pub ttl: i32,
}

/// How a slot's width is had.
#[derive(Debug, Clone, Copy, PartialEq, Eq)]
pub enum LengthStep {
    /// Declared: no probe, and no restart.
    Known(usize),
    /// Read the first line of the pipe, then restart the feed.
    ReadFirstLine,
}

/// The number of bytes of a text in UTF-8.
pub open spec fn byte_len(s: Seq<char>) -> nat {
    encode_utf8(s).len()
}

impl SlotPlan {
    /// Whether this plan is the one for `slot` at `position`, with its files
    /// under `base`, on socket `sock` and session `session`.
    pub open spec fn plans(
        &self,
        notif: Notifications,
        base: Seq<char>,
        position: nat,
        slot: Slot,
        sock: Seq<char>,
        session: Seq<char>,
    ) -> bool {
        let name = slot_name_text(position, slot);
        let dir = join_path(base, slot_dir_text(position, name));
        &&& self.name@ == name
        &&& self.dir@ == dir
        &&& self.pipe@ == join_path(dir, "out"@)
        &&& self.cmd_file@ == join_path(dir, "cmd"@)
        &&& self.cmd_script@ == cmd_script_text(slot.interpreter@, slot.cmd@)
        &&& self.run_file@ == join_path(dir, "run"@)
        &&& self.run_script@ == run_script_text(notif, dir, name)
        &&& self.terminal.session@ == session
        &&& self.terminal.pane_id == 0
        &&& texts(self.new_window@) == tmux_call(sock, new_window_args(dir, name, session))
        &&& calls(self.launch@) == launch_calls(sock, self.terminal.address())
        &&& self.len == slot.len
        &&& self.ttl == slot.ttl
    }

    /// The slot's width is taken as declared where it is; only where it is
    /// not is the pipe read.
    pub fn length_step(&self) -> (r: LengthStep)
        ensures
            self.len matches Some(l) ==> r == LengthStep::Known(l),
            self.len is None ==> r == LengthStep::ReadFirstLine,
    {
        match self.len {
            Some(l) => LengthStep::Known(l),
            None => LengthStep::ReadFirstLine,
        }
    }

    /// The outcome of reading the pipe's first line (`None` where the pipe
    /// closed or the wait timed out): the slot's width, its byte length,
    /// and, whatever the outcome, the calls that restart the feed, so that
    /// the line read is not lost to the renderer.
    pub fn after_first_line(&self, tmux: &Tmux, line: &Option<String>) -> (r: (
        Option<usize>,
        Vec<Vec<String>>,
    ))
        ensures
            match *line {
                Some(l) => r.0 == Some(byte_len(l@) as usize),
                None => r.0 is None,
            },
            calls(r.1@) == restart_calls(tmux.sock_name(), self.terminal.address()),
    {
        let len = match line {
            Some(l) => Some(l.as_str().len()),
            None => None,
        };
        let mut restart: Vec<Vec<String>> = Vec::new();
        restart.push(tmux.send_interrupt(&self.terminal));
        restart.push(tmux.send_text(&self.terminal, "./run"));
        restart.push(tmux.send_enter(&self.terminal));
        assert(calls(restart@) =~= restart_calls(tmux.sock_name(), self.terminal.address()));
        (len, restart)
    }

    /// The slot's specification for the renderer; an unknown width is 0.
    pub fn spec(&self, len: Option<usize>) -> (r: String)
        ensures
            r@ == slot_spec_text(
                self.pipe@,
                match len {
                    Some(n) => n as nat,
                    None => 0,
                },
                self.ttl as int,
            ),
    {
        let n = match len {
            Some(n) => n,
            None => 0,
        };
        slot_spec(self.pipe.as_str(), n, self.ttl)
    }
}

/// Plans the slot at `position`, allocating its pane.
pub fn plan_slot(
    notif: &Notifications,
    base_dir: &str,
    position: usize,
    slot: &Slot,
    tmux: &mut Tmux,
) -> (r: SlotPlan)
    requires
        old(tmux).allocated() < usize::MAX,
    ensures
        r.plans(
            *notif,
            base_dir@,
            position as nat,
            *slot,
            old(tmux).sock_name(),
            old(tmux).session_name(),
        ),
        r.terminal.window_id == final(tmux).allocated(),
        final(tmux).allocated() == old(tmux).allocated() + 1,
        final(tmux).sock_name() == old(tmux).sock_name(),
        final(tmux).session_name() == old(tmux).session_name(),
{
    let name = match &slot.name {
        Some(n) => n.clone(),
        None => decimal_string(position as u64),
    };
    let dir_name = slot_dir_name(position, name.as_str());
    let dir = join_path_str(base_dir, dir_name.as_str());
    proof {
        reveal_strlit("out");
        reveal_strlit("cmd");
        reveal_strlit("run");
    }
    let pipe = join_path_str(dir.as_str(), NAME_OUT);
    let cmd_file = join_path_str(dir.as_str(), NAME_CMD);
    let run_file = join_path_str(dir.as_str(), NAME_RUN);
    let cmd_script = cmd_script(slot);
    let run_script = run_script(notif, dir.as_str(), name.as_str());
    let (terminal, new_window) = tmux.new_terminal(dir.as_str(), name.as_str());
    let launch = launch(tmux, &terminal);
    SlotPlan {
        name,
        dir,
        pipe,
        cmd_file,
        cmd_script,
        run_file,
        run_script,
        terminal,
        new_window,
        launch,
        len: slot.len,
        ttl: slot.ttl,
    }
}

/// Plans every slot, in declaration order, at positions 1, 2, ...: the
/// `k`-th slot gets the `k`-th window allocated after those already there.
pub fn plan_slots(cfg: &Cfg, tmux: &mut Tmux) -> (r: Vec<SlotPlan>)
    requires
        old(tmux).allocated() + cfg.pista.slots@.len() <= usize::MAX,
    ensures
        r@.len() == cfg.pista.slots@.len(),
        forall|k: int|
            0 <= k < r@.len() ==> (#[trigger] r@[k]).plans(
                cfg.notifications,
                cfg.slots_fifos_dir@,
                (k + 1) as nat,
                cfg.pista.slots@[k],
                old(tmux).sock_name(),
                old(tmux).session_name(),
            ) && r@[k].terminal.window_id == old(tmux).allocated() + k + 1,
        final(tmux).allocated() == old(tmux).allocated() + cfg.pista.slots@.len(),
        final(tmux).sock_name() == old(tmux).sock_name(),
        final(tmux).session_name() == old(tmux).session_name(),
{
    let slots = &cfg.pista.slots;
    let mut plans: Vec<SlotPlan> = Vec::new();
    let mut i: usize = 0;
    while i < slots.len()
        invariant
            i <= slots.len(),
            slots == &cfg.pista.slots,
            old(tmux).allocated() + slots@.len() <= usize::MAX,
            plans@.len() == i,
            tmux.allocated() == old(tmux).allocated() + i,
            tmux.sock_name() == old(tmux).sock_name(),
            tmux.session_name() == old(tmux).session_name(),
            forall|k: int|
                0 <= k < i ==> (#[trigger] plans@[k]).plans(
                    cfg.notifications,
                    cfg.slots_fifos_dir@,
                    (k + 1) as nat,
                    slots@[k],
                    old(tmux).sock_name(),
                    old(tmux).session_name(),
                ) && plans@[k].terminal.window_id == old(tmux).allocated() + k + 1,
        decreases slots.len() - i,
    {
        let plan = plan_slot(&cfg.notifications, cfg.slots_fifos_dir.as_str(), i + 1, &slots[i], tmux);
        plans.push(plan);
        i = i + 1;
    }
    plans
}

/// What `start` does for the renderer once every slot is launched.
#[derive(Debug)]
pub struct RendererPlan {
    pub dir: String,
    pub run_file: String,
    pub run_script: String,
    pub terminal: Terminal,
    /// The tmux call that names window 0 after the renderer.
    pub rename: Vec<String>,
    /// The tmux calls that start the `run` script in window 0.
    pub launch: Vec<Vec<String>>,
}

/// Plans the renderer, fed with the slots' specifications in slot order.
pub fn plan_renderer(cfg: &Cfg, tmux: &Tmux, specs: &Vec<String>) -> (r: RendererPlan)
    ensures
        r.dir@ == join_path(cfg.slots_fifos_dir@, slot_dir_text(0, "pista"@)),
        r.run_file@ == join_path(r.dir@, "run"@),
        r.run_script@ == renderer_script_text(
            cfg.notifications,
            join(cfg.pista.flags(), " "@),
            texts(specs@),
        ),
        r.terminal.session@ == tmux.session_name(),
        r.terminal.window_id == 0,
        r.terminal.pane_id == 0,
        texts(r.rename@) == tmux_call(
            tmux.sock_name(),
            seq!["rename-window"@, "-t"@, tmux.session_name() + seq![':'] + decimal(0), "pista"@],
        ),
        calls(r.launch@) == launch_calls(tmux.sock_name(), r.terminal.address()),
{
    proof {
        reveal_strlit("pista");
        reveal_strlit("run");
    }
    let dir_name = slot_dir_name(0, NAME_PISTA);
    let dir = join_path_str(cfg.slots_fifos_dir.as_str(), dir_name.as_str());
    let run_file = join_path_str(dir.as_str(), NAME_RUN);
    let args = cfg.pista.to_arg_str();
    let run_script = renderer_script(&cfg.notifications, args.as_str(), specs);
    let (terminal, rename) = tmux.zeroth_terminal(NAME_PISTA);
    let launch = launch(tmux, &terminal);
    RendererPlan { dir, run_file, run_script, terminal, rename, launch }
}

/// One line of the status report.
#[derive(Debug)]
pub struct StatusRow {
    pub window_id: usize,
    pub window_name: String,
    /// Whether the slot's `run` script is in the foreground of its pane.
    pub running: bool,
    /// The number of lines of the slot's error log.
    pub log_lines: usize,
}

/// Whether `p` is a `run` script in the foreground of terminal `tty`.
pub open spec fn runs_on(p: Info, tty: Seq<char>) -> bool {
    &&& p.fg
    &&& p.comm@ == "run"@
    &&& match p.tty {
        Some(t) => t@ == tty,
        None => false,
    }
}

/// Whether a foreground process named `run` has `tty` as its terminal.
pub open spec fn runs_in(procs: Seq<Info>, tty: Seq<char>) -> bool {
    exists|j: int| 0 <= j < procs.len() && runs_on(#[trigger] procs[j], tty)
}

/// The number of lines of a log; 0 where it could not be read.
pub open spec fn log_count(log: Option<String>) -> nat {
    match log {
        Some(t) => lines(t@).len(),
        None => 0,
    }
}

impl StatusRow {
    /// Whether this is the row of `pane`, given the processes and the
    /// pane's log.
    pub open spec fn reports(&self, pane: PaneInfo, procs: Seq<Info>, log: Option<String>) -> bool {
        &&& self.window_id == pane.window_id
        &&& self.window_name@ == pane.window_name@
        &&& self.running == runs_in(procs, pane.tty@)
        &&& self.log_lines == log_count(log)
    }

    /// Window 0 carries another name than the renderer's: renaming is
    /// cooperative, so this is worth a warning and no more.
    pub fn misnamed_renderer(&self) -> (r: bool)
        ensures
            r == (self.window_id == 0 && self.window_name@ != "pista"@),
    {
        self.window_id == 0 && self.window_name != NAME_PISTA.to_owned()
    }

    /// `<window> <name> YES|NO <log lines>`.
    pub fn line(&self) -> (r: String)
        ensures
            r@ == decimal(self.window_id as nat) + " "@ + self.window_name@ + " "@ + (if self.running {
                "YES"@
            } else {
                "NO"@
            }) + " "@ + decimal(self.log_lines as nat),
    {
        let mut r = String::new();
        push_decimal(&mut r, self.window_id as u64);
        push_text(&mut r, " ");
        push_text(&mut r, self.window_name.as_str());
        push_text(&mut r, " ");
        if self.running {
            push_text(&mut r, "YES");
        } else {
            push_text(&mut r, "NO");
        }
        push_text(&mut r, " ");
        push_decimal(&mut r, self.log_lines as u64);
        assert(r@ =~= decimal(self.window_id as nat) + " "@ + self.window_name@ + " "@ + (if self.running {
            "YES"@
        } else {
            "NO"@
        }) + " "@ + decimal(self.log_lines as nat));
        r
    }
}

/// The header of the status report.
pub const STATUS_HEADER: &'static str = "POSITION NAME RUNNING? LOG_LINES";

/// The error log of the slot in `pane`, under the slots' directory `dir`.
pub fn log_file(dir: &str, pane: &PaneInfo) -> (r: String)
    ensures
        r@ == join_path(
            join_path(dir@, slot_dir_text(pane.window_id as nat, pane.window_name@)),
            "err"@,
        ),
{
    proof {
        reveal_strlit("err");
    }
    let name = slot_dir_name(pane.window_id, pane.window_name.as_str());
    let slot_dir = join_path_str(dir, name.as_str());
    join_path_str(slot_dir.as_str(), NAME_ERR)
}

fn is_running(procs: &Vec<Info>, tty: &String) -> (r: bool)
    ensures
        r == runs_in(procs@, tty@),
{
    let run = NAME_RUN.to_owned();
    proof {
        reveal_strlit("run");
    }
    let mut j: usize = 0;
    while j < procs.len()
        invariant
            j <= procs.len(),
            run@ == "run"@,
            forall|k: int|
                0 <= k < j ==> !runs_on(#[trigger] procs@[k], tty@),
        decreases procs.len() - j,
    {
        let p = &procs[j];
        if p.fg && p.comm == run {
            match &p.tty {
                Some(t) => {
                    if *t == *tty {
                        return true;
                    }
                },
                None => {},
            }
        }
        j = j + 1;
    }
    false
}

/// Whether `rows[k]` is the row of pane `idx[k]`, for an `idx` that takes
/// each pane once and keeps the listing order of panes of one window.
pub open spec fn arranges(
    rows: Seq<StatusRow>,
    idx: Seq<int>,
    panes: Seq<PaneInfo>,
    procs: Seq<Info>,
    logs: Seq<Option<String>>,
) -> bool {
    &&& idx.len() == rows.len()
    &&& forall|k: int|
        0 <= k < idx.len() ==> 0 <= #[trigger] idx[k] < panes.len() && rows[k].reports(
            panes[idx[k]],
            procs,
            logs[idx[k]],
        )
    &&& forall|k: int, l: int| 0 <= k < l < idx.len() ==> idx[k] != idx[l]
    &&& forall|k: int, l: int|
        0 <= k < l < idx.len() && rows[k].window_id == rows[l].window_id ==> idx[k] < idx[l]
}

/// The status of every pane, in window order (panes of one window in
/// listing order): whether its feed runs, and how long its log is.
/// `logs[i]` is the error log of `panes[i]`, where it could be read.
pub fn status(panes: &Vec<PaneInfo>, procs: &Vec<Info>, logs: &Vec<Option<String>>) -> (r: Vec<
    StatusRow,
>)
    requires
        logs@.len() == panes@.len(),
    ensures
        r@.len() == panes@.len(),
        forall|k: int, l: int| 0 <= k < l < r@.len() ==> r@[k].window_id <= r@[l].window_id,
        exists|idx: Seq<int>| #[trigger] arranges(r@, idx, panes@, procs@, logs@),
{
    let mut rows: Vec<StatusRow> = Vec::new();
    let ghost mut idx: Seq<int> = seq![];
    let mut i: usize = 0;
    while i < panes.len()
        invariant
            i <= panes.len(),
            logs@.len() == panes@.len(),
            rows@.len() == i,
            idx.len() == i,
            forall|k: int, l: int| 0 <= k < l < rows@.len() ==> rows@[k].window_id <= rows@[l].window_id,
            forall|k: int|
                0 <= k < idx.len() ==> 0 <= #[trigger] idx[k] < i && rows@[k].reports(
                    panes@[idx[k]],
                    procs@,
                    logs@[idx[k]],
                ),
            forall|k: int, l: int| 0 <= k < l < idx.len() ==> idx[k] != idx[l],
            forall|k: int, l: int|
                0 <= k < l < idx.len() && rows@[k].window_id == rows@[l].window_id ==> idx[k]
                    < idx[l],
        decreases panes.len() - i,
    {
        let pane = &panes[i];
        let log_lines = match &logs[i] {
            Some(t) => lines_of(t.as_str()).len(),
            None => 0,
        };
        let row = StatusRow {
            window_id: pane.window_id,
            window_name: pane.window_name.clone(),
            running: is_running(procs, &pane.tty),
            log_lines,
        };
        let w = pane.window_id;
        let mut p: usize = 0;
        while p < rows.len() && rows[p].window_id <= w
            invariant
                p <= rows@.len(),
                forall|k: int| 0 <= k < p ==> (#[trigger] rows@[k]).window_id <= w,
            decreases rows@.len() - p,
        {
            p = p + 1;
        }
        let ghost old_rows = rows@;
        let ghost old_idx = idx;
        assert(forall|k: int| p <= k < old_rows.len() ==> (#[trigger] old_rows[k]).window_id > w)
            by {
            if p < old_rows.len() {
                assert(old_rows[p as int].window_id > w);
            }
        };
        rows.insert(p, row);
        proof {
            idx = old_idx.insert(p as int, i as int);
            assert(forall|k: int| 0 <= k < p ==> rows@[k] == old_rows[k]);
            assert(forall|k: int| p < k < rows@.len() ==> rows@[k] == old_rows[k - 1]);
            assert(forall|k: int| 0 <= k < p ==> idx[k] == old_idx[k]);
            assert(forall|k: int| p < k < idx.len() ==> idx[k] == old_idx[k - 1]);
            assert(rows@[p as int] == row && idx[p as int] == i);
        }
        i = i + 1;
    }
    assert(arranges(rows@, idx, panes@, procs@, logs@));
    rows
}

/// The status report: a header, then one line per row.
pub fn status_lines(rows: &Vec<StatusRow>) -> (r: Vec<String>)
    ensures
        r@.len() == rows@.len() + 1,
        r@[0]@ == STATUS_HEADER@,
        forall|k: int|
            0 <= k < rows@.len() ==> (#[trigger] r@[k + 1])@ == decimal(rows@[k].window_id as nat)
                + " "@ + rows@[k].window_name@ + " "@ + (if rows@[k].running {
                "YES"@
            } else {
                "NO"@
            }) + " "@ + decimal(rows@[k].log_lines as nat),
{
    let mut r: Vec<String> = Vec::new();
    r.push(STATUS_HEADER.to_owned());
    let mut i: usize = 0;
    while i < rows.len()
        invariant
            i <= rows@.len(),
            r@.len() == i + 1,
            r@[0]@ == STATUS_HEADER@,
            forall|k: int|
                0 <= k < i ==> (#[trigger] r@[k + 1])@ == decimal(rows@[k].window_id as nat)
                    + " "@ + rows@[k].window_name@ + " "@ + (if rows@[k].running {
                    "YES"@
                } else {
                    "NO"@
                }) + " "@ + decimal(rows@[k].log_lines as nat),
        decreases rows@.len() - i,
    {
        r.push(rows[i].line());
        i = i + 1;
    }
    r
}

/// The messages that `stop` logs: one for a session that could not be
/// killed, one for a slots' directory that could not be removed. Neither
/// keeps the other from being tried, and neither fails `stop`.
pub fn stop(dir: &str, kill: &Result<(), String>, removal: &Result<(), String>) -> (r: Vec<String>)
    ensures
        r@.len() == (if kill is Err {
            1int
        } else {
            0
        }) + (if removal is Err {
            1int
        } else {
            0
        }),
        kill matches Err(e) ==> r@[0]@ == "Failure in kill session: "@ + e@,
        removal matches Err(e) ==> r@.last()@ == "Failure in removal of slot directory: "@
            + debug_text(dir@) + ". Error: "@ + e@,
{
    let mut r: Vec<String> = Vec::new();
    match kill {
        Err(e) => {
            let mut m = String::new();
            push_text(&mut m, "Failure in kill session: ");
            push_text(&mut m, e.as_str());
            r.push(m);
        },
        Ok(()) => {},
    }
    match removal {
        Err(e) => {
            let mut m = String::new();
            push_text(&mut m, "Failure in removal of slot directory: ");
            let q = debug_quote(dir);
            push_text(&mut m, q.as_str());
            push_text(&mut m, ". Error: ");
            push_text(&mut m, e.as_str());
            assert(m@ =~= "Failure in removal of slot directory: "@ + debug_text(dir@)
                + ". Error: "@ + e@);
            r.push(m);
        },
        Ok(()) => {},
    }
    r
}

/// A slot as the renderer sees it: its pipe, its width and its time to live.
pub type SlotTriple = (Seq<char>, nat, int);

/// The specifications of slots, in slot order.
pub open spec fn slot_specs_text(slots: Seq<SlotTriple>) -> Seq<Seq<char>> {
    slots.map_values(|t: SlotTriple| slot_spec_text(t.0, t.1, t.2))
}

/// The slots with each pipe in its `{:?}` form, as the specifications
/// write them.
pub open spec fn quoted_pipes(slots: Seq<SlotTriple>) -> Seq<SlotTriple> {
    slots.map_values(|t: SlotTriple| (debug_text(t.0), t.1, t.2))
}

/// The words of the slots' specifications: three per slot.
pub open spec fn slot_words(slots: Seq<SlotTriple>) -> Seq<Seq<char>> {
    Seq::new(
        3 * slots.len(),
        |k: int|
            if k % 3 == 0 {
                debug_text(slots[k / 3].0)
            } else if k % 3 == 1 {
                decimal(slots[k / 3].1)
            } else {
                signed_decimal(slots[k / 3].2)
            },
    )
}

/// How slot specifications are read back from the renderer's arguments:
/// split on white space, three words per slot, the width read as by
/// `usize::from_str` and the time to live as by `i32::from_str`.
pub open spec fn read_slot_specs(s: Seq<char>) -> Option<Seq<SlotTriple>> {
    let w = words(s);
    if w.len() % 3 == 0 && (forall|i: int|
        0 <= i < w.len() / 3 ==> parse_unsigned(#[trigger] w[3 * i + 1]) is Some && parse_signed(
            w[3 * i + 2],
        ) is Some) {
        Some(
            Seq::new(
                w.len() / 3,
                |i: int|
                    (w[3 * i], parse_unsigned(w[3 * i + 1])->0, parse_signed(w[3 * i + 2])->0),
            ),
        )
    } else {
        None
    }
}

proof fn lemma_join_slot_specs(slots: Seq<SlotTriple>)
    ensures
        join(slot_specs_text(slots), " "@) == join(slot_words(slots), " "@),
    decreases slots.len(),
{
    let n = slots.len();
    let specs = slot_specs_text(slots);
    let w = slot_words(slots);
    if n == 0 {
        assert(specs =~= seq![]);
        assert(w =~= seq![]);
    } else {
        let prev = slots.drop_last();
        lemma_join_slot_specs(prev);
        let t = slots.last();
        let a = debug_text(t.0);
        let b = decimal(t.1);
        let c = signed_decimal(t.2);
        let wp = slot_words(prev);
        assert(w =~= wp + seq![a, b, c]) by {
            assert forall|k: int| 0 <= k < w.len() implies #[trigger] w[k] == (wp + seq![a, b, c])[k] by {
                if k < 3 * (n - 1) {
                    assert(k / 3 < n - 1);
                    assert(prev[k / 3] == slots[k / 3]);
                } else {
                    assert(k / 3 == n - 1);
                }
            };
        };
        assert(specs.drop_last() =~= slot_specs_text(prev));
        let sp = " "@;
        let x3 = wp + seq![a, b, c];
        let x2 = wp + seq![a, b];
        let x1 = wp + seq![a];
        assert(x3.drop_last() =~= x2);
        assert(x2.drop_last() =~= x1);
        assert(x1.drop_last() =~= wp);
        assert(join(x3, sp) == join(x2, sp) + sp + c);
        assert(join(x2, sp) == join(x1, sp) + sp + b);
        assert(specs.last() == a + sp + b + sp + c);
        if n == 1 {
            assert(wp =~= seq![]);
            assert(join(x1, sp) == a);
            assert(join(w, sp) =~= specs[0]);
        } else {
            assert(wp.len() >= 3);
            assert(join(x1, sp) == join(wp, sp) + sp + a);
            assert(join(specs, sp) == join(specs.drop_last(), sp) + sp + specs.last());
            assert(join(w, sp) =~= join(specs, sp));
        }
    }
}

/// Slot specifications read back: the renderer's slot arguments (the
/// specifications joined by spaces) split on white space give back every
/// slot's pipe (in its `{:?}` form), width and time to live, in slot order,
/// wherever a pipe's `{:?}` form holds no white space.
pub proof fn lemma_slot_specs_round_trip(slots: Seq<SlotTriple>)
    requires
        forall|i: int|
            0 <= i < slots.len() ==> (#[trigger] slots[i]).1 <= usize::MAX && i32::MIN <= slots[i].2
                <= i32::MAX && is_word(debug_text(slots[i].0)),
    ensures
        read_slot_specs(join(slot_specs_text(slots), " "@)) == Some(quoted_pipes(slots)),
{
    lemma_join_slot_specs(slots);
    let w = slot_words(slots);
    assert forall|k: int| 0 <= k < w.len() implies is_word(#[trigger] w[k]) by {
        let t = slots[k / 3];
        lemma_parse_decimal(t.1);
        lemma_parse_signed_decimal(t.2);
    };
    lemma_words_of_join(w);
    let n = slots.len();
    assert(w.len() / 3 == n);
    assert forall|i: int| 0 <= i < n implies parse_unsigned(#[trigger] w[3 * i + 1]) == Some(
        slots[i].1,
    ) && parse_signed(w[3 * i + 2]) == Some(slots[i].2) && w[3 * i] == debug_text(slots[i].0) by {
        assert((3 * i + 1) / 3 == i && (3 * i + 1) % 3 == 1);
        assert((3 * i + 2) / 3 == i && (3 * i + 2) % 3 == 2);
        assert((3 * i) / 3 == i && (3 * i) % 3 == 0);
        lemma_parse_decimal(slots[i].1);
        lemma_parse_signed_decimal(slots[i].2);
    };
    let r = read_slot_specs(join(slot_specs_text(slots), " "@));
    assert(r->0 =~= quoted_pipes(slots));
}

} // verus!
