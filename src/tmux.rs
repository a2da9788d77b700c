use vstd::prelude::*;

use crate::text::{
    chars_of, decimal, lines, lines_of, parse_unsigned, parse_usize, push_char, push_decimal,
    push_text, split_whitespace, texts, words,
};

verus! {

/// The address of a pane: `<session>:<window>.<pane>`.
pub open spec fn address(session: Seq<char>, window: nat, pane: nat) -> Seq<char> {
    session + seq![':'] + decimal(window) + seq!['.'] + decimal(pane)
}

/// One pane of the session, where a command runs.
#[derive(Debug)]
pub struct Terminal {
    pub session: String,
    pub window_id: usize,
    pub pane_id: usize,
}

impl Terminal {
    /// The text of the pane's address, as tmux reads it after `-t`.
    pub open spec fn address(&self) -> Seq<char> {
        address(self.session@, self.window_id as nat, self.pane_id as nat)
    }

    pub fn to_string(&self) -> (r: String)
        ensures
            r@ == self.address(),
    {
        let mut r = String::new();
        push_text(&mut r, self.session.as_str());
        push_char(&mut r, ':');
        push_decimal(&mut r, self.window_id as u64);
        push_char(&mut r, '.');
        push_decimal(&mut r, self.pane_id as u64);
        assert(r@ =~= self.address());
        r
    }
}

/// What a line of the pane listing holds.
#[derive(Debug)]
pub struct PaneInfo {
    pub window_id: usize,
    pub window_name: String,
    pub tty: String,
    pub pane_id: usize,
}

/// Which part of a pane listing line is malformed.
#[derive(Debug, Clone, Copy, PartialEq, Eq)]
pub enum PaneFault {
    /// The line does not have exactly four fields.
    Fields,
    /// The window id lacks its `@` tag.
    WindowPrefix,
    /// The window id is not a number.
    WindowNumber,
    /// The pane id lacks its `%` tag.
    PanePrefix,
    /// The pane id is not a number.
    PaneNumber,
}

/// A malformed line of the pane listing: what is wrong, and the text at fault
/// (the whole line, or the id field).
#[derive(Debug)]
pub struct PaneParseError {
    pub fault: PaneFault,
    pub text: String,
}

/// Whether a field starts with its type tag.
pub open spec fn tagged(field: Seq<char>, tag: char) -> bool {
    field.len() > 0 && field[0] == tag
}

/// The first fault of a pane listing line, if it has one.
pub open spec fn pane_fault(s: Seq<char>) -> Option<PaneFault> {
    let f = words(s);
    if f.len() != 4 {
        Some(PaneFault::Fields)
    } else if !tagged(f[0], '@') {
        Some(PaneFault::WindowPrefix)
    } else if parse_unsigned(f[0].drop_first()) is None {
        Some(PaneFault::WindowNumber)
    } else if !tagged(f[3], '%') {
        Some(PaneFault::PanePrefix)
    } else if parse_unsigned(f[3].drop_first()) is None {
        Some(PaneFault::PaneNumber)
    } else {
        None
    }
}

/// The text that a fault of line `s` reports.
pub open spec fn fault_text(s: Seq<char>, fault: PaneFault) -> Seq<char> {
    match fault {
        PaneFault::Fields => s,
        PaneFault::WindowPrefix | PaneFault::WindowNumber => words(s)[0],
        PaneFault::PanePrefix | PaneFault::PaneNumber => words(s)[3],
    }
}

impl PaneInfo {
    /// Whether this is what the well-formed line `s` describes:
    /// `@<window_id> <window_name> <tty> %<pane_id>`.
    pub open spec fn describes(&self, s: Seq<char>) -> bool {
        let f = words(s);
        &&& Some(self.window_id as nat) == parse_unsigned(f[0].drop_first())
        &&& self.window_name@ == f[1]
        &&& self.tty@ == f[2]
        &&& Some(self.pane_id as nat) == parse_unsigned(f[3].drop_first())
    }

    /// Reads one line of the pane listing.
    pub fn from_str(s: &str) -> (r: Result<PaneInfo, PaneParseError>)
        ensures
            match r {
                Ok(p) => pane_fault(s@) is None && p.describes(s@),
                Err(e) => pane_fault(s@) == Some(e.fault) && e.text@ == fault_text(s@, e.fault),
            },
    {
        let mut fields = split_whitespace(s);
        let ghost f = words(s@);
        if fields.len() != 4 {
            return Err(PaneParseError { fault: PaneFault::Fields, text: s.to_owned() });
        }
        assert(fields[0]@ == f[0] && fields[1]@ == f[1] && fields[2]@ == f[2] && fields[3]@
            == f[3]);
        let pane_field = fields.pop().unwrap();
        let tty = fields.pop().unwrap();
        let window_name = fields.pop().unwrap();
        let window_field = fields.pop().unwrap();
        let window_id = match tagged_number(&window_field, '@') {
            Ok(n) => n,
            Err(missing_tag) => {
                let fault = if missing_tag {
                    PaneFault::WindowPrefix
                } else {
                    PaneFault::WindowNumber
                };
                return Err(PaneParseError { fault, text: window_field });
            },
        };
        let pane_id = match tagged_number(&pane_field, '%') {
            Ok(n) => n,
            Err(missing_tag) => {
                let fault = if missing_tag {
                    PaneFault::PanePrefix
                } else {
                    PaneFault::PaneNumber
                };
                return Err(PaneParseError { fault, text: pane_field });
            },
        };
        Ok(PaneInfo { window_id, window_name, tty, pane_id })
    }
}

/// Reads a field `<tag><number>`; the error says whether the tag was missing.
fn tagged_number(field: &String, tag: char) -> (r: Result<usize, bool>)
    ensures
        match r {
            Ok(n) => tagged(field@, tag) && parse_unsigned(field@.drop_first()) == Some(n as nat),
            Err(missing_tag) => missing_tag == !tagged(field@, tag) && (!missing_tag
                ==> parse_unsigned(field@.drop_first()) is None),
        },
{
    let cs = chars_of(field.as_str());
    if cs.len() == 0 || cs[0] != tag {
        return Err(true);
    }
    let mut rest = String::new();
    let mut i: usize = 1;
    while i < cs.len()
        invariant
            1 <= i <= cs.len(),
            cs@ == field@,
            rest@ == cs@.subrange(1, i as int),
        decreases cs.len() - i,
    {
        push_char(&mut rest, cs[i]);
        i = i + 1;
        assert(rest@ =~= cs@.subrange(1, i as int));
    }
    assert(rest@ =~= field@.drop_first());
    match parse_usize(rest.as_str()) {
        Some(n) => Ok(n),
        None => Err(false),
    }
}

/// The argument list of a tmux call on socket `sock`.
pub open spec fn tmux_call(sock: Seq<char>, args: Seq<Seq<char>>) -> Seq<Seq<char>> {
    seq!["-L"@, sock] + args
}

/// Keys typed literally into the pane at `addr`.
pub open spec fn keys_text(addr: Seq<char>, text: Seq<char>) -> Seq<Seq<char>> {
    seq!["send-keys"@, "-t"@, addr, "-l"@, text]
}

/// The Enter key, pressed in the pane at `addr`.
pub open spec fn keys_enter(addr: Seq<char>) -> Seq<Seq<char>> {
    seq!["send-keys"@, "-t"@, addr, "ENTER"@]
}

/// The interrupt key (`^C`), pressed in the pane at `addr`.
pub open spec fn keys_interrupt(addr: Seq<char>) -> Seq<Seq<char>> {
    seq!["send-keys"@, "-t"@, addr, "^C"@]
}

/// A new window of `session`, named `name`, working in `dir`.
pub open spec fn new_window_args(dir: Seq<char>, name: Seq<char>, session: Seq<char>) -> Seq<
    Seq<char>,
> {
    seq!["new-window"@, "-c"@, dir, "-n"@, name, "-t"@, session]
}

/// The addressing state of one tmux session: its socket, its name, and the
/// number of windows allocated so far after window 0.
#[derive(Debug)]
pub struct Tmux {
    cur_window: usize,
    sock: String,
    session: String,
}

impl Tmux {
    /// The number of windows allocated after window 0.
    pub closed spec fn allocated(&self) -> nat {
        self.cur_window as nat
    }

    /// The name of the tmux socket.
    pub closed spec fn sock_name(&self) -> Seq<char> {
        self.sock@
    }

    /// The name of the session.
    pub closed spec fn session_name(&self) -> Seq<char> {
        self.session@
    }

    pub fn new(sock: &str, session: &str) -> (r: Self)
        ensures
            r.allocated() == 0,
            r.sock_name() == sock@,
            r.session_name() == session@,
    {
        Tmux { cur_window: 0, sock: sock.to_owned(), session: session.to_owned() }
    }

    /// Starts the session detached in `working_directory`, then turns off
    /// automatic window renaming, on which window names rely.
    pub fn new_session(&self, working_directory: &str) -> (r: Vec<Vec<String>>)
        ensures
            r@.len() == 2,
            texts(r@[0]@) == tmux_call(
                self.sock_name(),
                seq!["new-session"@, "-d"@, "-c"@, working_directory@, "-s"@, self.session_name()],
            ),
            texts(r@[1]@) == tmux_call(
                self.sock_name(),
                seq!["set-option"@, "-g"@, "-t"@, self.session_name(), "allow-rename"@, "off"@],
            ),
    {
        let mut a: Vec<String> = Vec::new();
        a.push("new-session".to_owned());
        a.push("-d".to_owned());
        a.push("-c".to_owned());
        a.push(working_directory.to_owned());
        a.push("-s".to_owned());
        a.push(self.session.clone());
        assert(texts(a@) =~= seq![
            "new-session"@,
            "-d"@,
            "-c"@,
            working_directory@,
            "-s"@,
            self.session_name(),
        ]);
        let mut b: Vec<String> = Vec::new();
        b.push("set-option".to_owned());
        b.push("-g".to_owned());
        b.push("-t".to_owned());
        b.push(self.session.clone());
        b.push("allow-rename".to_owned());
        b.push("off".to_owned());
        assert(texts(b@) =~= seq![
            "set-option"@,
            "-g"@,
            "-t"@,
            self.session_name(),
            "allow-rename"@,
            "off"@,
        ]);
        let mut r: Vec<Vec<String>> = Vec::new();
        r.push(self.call(a));
        r.push(self.call(b));
        r
    }

    pub fn kill_session(&self) -> (r: Vec<String>)
        ensures
            texts(r@) == tmux_call(self.sock_name(), seq!["kill-session"@, "-t"@, self.session_name()]),
    {
        let mut a: Vec<String> = Vec::new();
        a.push("kill-session".to_owned());
        a.push("-t".to_owned());
        a.push(self.session.clone());
        assert(texts(a@) =~= seq!["kill-session"@, "-t"@, self.session_name()]);
        self.call(a)
    }

    pub fn attach(&self) -> (r: Vec<String>)
        ensures
            texts(r@) == tmux_call(self.sock_name(), seq!["attach"@, "-t"@, self.session_name()]),
    {
        let mut a: Vec<String> = Vec::new();
        a.push("attach".to_owned());
        a.push("-t".to_owned());
        a.push(self.session.clone());
        assert(texts(a@) =~= seq!["attach"@, "-t"@, self.session_name()]);
        self.call(a)
    }

    /// Types `text` into the pane as literal characters: key names are not
    /// looked up, so no character triggers a key binding.
    pub fn send_text(&self, term: &Terminal, text: &str) -> (r: Vec<String>)
        ensures
            texts(r@) == tmux_call(self.sock_name(), keys_text(term.address(), text@)),
    {
        let mut a: Vec<String> = Vec::new();
        a.push("send-keys".to_owned());
        a.push("-t".to_owned());
        a.push(term.to_string());
        a.push("-l".to_owned());
        a.push(text.to_owned());
        assert(texts(a@) =~= keys_text(term.address(), text@));
        self.call(a)
    }

    pub fn send_enter(&self, term: &Terminal) -> (r: Vec<String>)
        ensures
            texts(r@) == tmux_call(self.sock_name(), keys_enter(term.address())),
    {
        let mut a: Vec<String> = Vec::new();
        a.push("send-keys".to_owned());
        a.push("-t".to_owned());
        a.push(term.to_string());
        a.push("ENTER".to_owned());
        assert(texts(a@) =~= keys_enter(term.address()));
        self.call(a)
    }

    pub fn send_interrupt(&self, term: &Terminal) -> (r: Vec<String>)
        ensures
            texts(r@) == tmux_call(self.sock_name(), keys_interrupt(term.address())),
    {
        let mut a: Vec<String> = Vec::new();
        a.push("send-keys".to_owned());
        a.push("-t".to_owned());
        a.push(term.to_string());
        a.push("^C".to_owned());
        assert(texts(a@) =~= keys_interrupt(term.address()));
        self.call(a)
    }

    /// A new window named `name` in `working_directory`.
    pub fn new_window(&self, working_directory: &str, name: &str) -> (r: Vec<String>)
        ensures
            texts(r@) == tmux_call(
                self.sock_name(),
                new_window_args(working_directory@, name@, self.session_name()),
            ),
    {
        let mut a: Vec<String> = Vec::new();
        a.push("new-window".to_owned());
        a.push("-c".to_owned());
        a.push(working_directory.to_owned());
        a.push("-n".to_owned());
        a.push(name.to_owned());
        a.push("-t".to_owned());
        a.push(self.session.clone());
        assert(texts(a@) =~= new_window_args(working_directory@, name@, self.session_name()));
        self.call(a)
    }

    /// Renames window `window` of the session.
    pub fn rename_window(&self, window: usize, name: &str) -> (r: Vec<String>)
        ensures
            texts(r@) == tmux_call(
                self.sock_name(),
                seq![
                    "rename-window"@,
                    "-t"@,
                    self.session_name() + seq![':'] + decimal(window as nat),
                    name@,
                ],
            ),
    {
        let mut target = self.session.clone();
        push_char(&mut target, ':');
        push_decimal(&mut target, window as u64);
        assert(target@ =~= self.session_name() + seq![':'] + decimal(window as nat));
        let mut a: Vec<String> = Vec::new();
        a.push("rename-window".to_owned());
        a.push("-t".to_owned());
        a.push(target);
        a.push(name.to_owned());
        assert(texts(a@) =~= seq![
            "rename-window"@,
            "-t"@,
            self.session_name() + seq![':'] + decimal(window as nat),
            name@,
        ]);
        self.call(a)
    }

    /// The pane for the renderer: window 0, renamed to `name`. It takes no
    /// place in the sequence of allocated windows.
    pub fn zeroth_terminal(&self, name: &str) -> (r: (Terminal, Vec<String>))
        ensures
            r.0.session@ == self.session_name(),
            r.0.window_id == 0,
            r.0.pane_id == 0,
            texts(r.1@) == tmux_call(
                self.sock_name(),
                seq!["rename-window"@, "-t"@, self.session_name() + seq![':'] + decimal(0), name@],
            ),
    {
        let term = Terminal { session: self.session.clone(), window_id: 0, pane_id: 0 };
        let cmd = self.rename_window(0, name);
        (term, cmd)
    }

    /// Allocates the next window: the pane to address and the call that
    /// opens its window.
    pub fn new_terminal(&mut self, working_directory: &str, name: &str) -> (r: (
        Terminal,
        Vec<String>,
    ))
        requires
            old(self).allocated() < usize::MAX,
        ensures
            final(self).allocated() == old(self).allocated() + 1,
            final(self).sock_name() == old(self).sock_name(),
            final(self).session_name() == old(self).session_name(),
            r.0.session@ == old(self).session_name(),
            r.0.window_id == final(self).allocated(),
            r.0.pane_id == 0,
            texts(r.1@) == tmux_call(
                old(self).sock_name(),
                new_window_args(working_directory@, name@, old(self).session_name()),
            ),
    {
        let cmd = self.new_window(working_directory, name);
        self.cur_window = self.cur_window + 1;
        let term = Terminal { session: self.session.clone(), window_id: self.cur_window, pane_id: 0 };
        (term, cmd)
    }

    /// The call that lists the session's panes, one line per pane in the
    /// form that `PaneInfo::from_str` reads.
    pub fn list_panes_command(&self) -> (r: Vec<String>)
        ensures
            texts(r@) == tmux_call(
                self.sock_name(),
                seq![
                    "list-panes"@,
                    "-s"@,
                    "-t"@,
                    self.session_name(),
                    "-F"@,
                    "#{window_id} #{window_name} #{pane_tty} #{pane_id}"@,
                ],
            ),
    {
        let mut a: Vec<String> = Vec::new();
        a.push("list-panes".to_owned());
        a.push("-s".to_owned());
        a.push("-t".to_owned());
        a.push(self.session.clone());
        a.push("-F".to_owned());
        a.push("#{window_id} #{window_name} #{pane_tty} #{pane_id}".to_owned());
        assert(texts(a@) =~= seq![
            "list-panes"@,
            "-s"@,
            "-t"@,
            self.session_name(),
            "-F"@,
            "#{window_id} #{window_name} #{pane_tty} #{pane_id}"@,
        ]);
        self.call(a)
    }

    /// Reads the pane listing: one pane per line. A malformed line fails
    /// the whole listing; none is skipped.
    pub fn list_panes(&self, listing: &str) -> (r: Result<Vec<PaneInfo>, PaneParseError>)
        ensures
            match r {
                Ok(panes) => {
                    &&& panes@.len() == lines(listing@).len()
                    &&& forall|i: int|
                        0 <= i < panes@.len() ==> pane_fault(#[trigger] lines(listing@)[i]) is None
                            && panes@[i].describes(lines(listing@)[i])
                },
                Err(e) => exists|k: int|
                    0 <= k < lines(listing@).len() && (forall|i: int|
                        0 <= i < k ==> pane_fault(#[trigger] lines(listing@)[i]) is None)
                        && pane_fault(lines(listing@)[k]) == Some(e.fault) && e.text@
                        == fault_text(lines(listing@)[k], e.fault),
            },
    {
        let ls = lines_of(listing);
        let ghost l = lines(listing@);
        let mut panes: Vec<PaneInfo> = Vec::new();
        let mut i: usize = 0;
        while i < ls.len()
            invariant
                i <= ls.len(),
                texts(ls@) == l,
                l == lines(listing@),
                panes@.len() == i,
                forall|j: int|
                    0 <= j < i ==> pane_fault(#[trigger] l[j]) is None && panes@[j].describes(l[j]),
            decreases ls.len() - i,
        {
            assert(ls[i as int]@ == l[i as int]);
            match PaneInfo::from_str(ls[i].as_str()) {
                Ok(p) => {
                    panes.push(p);
                },
                Err(e) => {
                    assert(0 <= i < l.len() && (forall|j: int|
                        0 <= j < i ==> pane_fault(#[trigger] l[j]) is None));
                    return Err(e);
                },
            }
            i = i + 1;
        }
        Ok(panes)
    }

    /// The tmux arguments that `args` stand for on this socket.
    fn call(&self, args: Vec<String>) -> (r: Vec<String>)
        ensures
            texts(r@) == tmux_call(self.sock_name(), texts(args@)),
    {
        let mut r: Vec<String> = Vec::new();
        r.push("-L".to_owned());
        r.push(self.sock.clone());
        let mut i: usize = 0;
        while i < args.len()
            invariant
                i <= args.len(),
                texts(r@) == tmux_call(self.sock_name(), texts(args@).subrange(0, i as int)),
            decreases args.len() - i,
        {
            let ghost prev = texts(r@);
            r.push(args[i].clone());
            assert(texts(r@) =~= prev.push(args[i as int]@));
            i = i + 1;
            assert(texts(r@) =~= tmux_call(self.sock_name(), texts(args@).subrange(0, i as int)));
        }
        assert(texts(args@).subrange(0, args.len() as int) =~= texts(args@));
        r
    }
}

} // verus!
