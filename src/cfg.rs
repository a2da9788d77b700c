use vstd::prelude::*;

use crate::text::{decimal, join, join_strings, push_char, push_decimal, push_text, texts};

verus! {

/// The configuration of one run of the controller.
#[derive(Debug)]
pub struct Cfg {
    pub debug: bool,
    /// Name of the tmux socket (`tmux -L`).
    pub sock: String,
    /// Name of the tmux session.
    pub session: String,
    /// Directory that holds one subdirectory per slot.
    pub slots_fifos_dir: String,
    pub notifications: Notifications,
    pub pista: Pista,
}

/// How much of a failing feed's error log an alert shows.
#[derive(Debug)]
pub struct Notifications {
    /// Number of last log lines.
    pub log_lines_limit: usize,
    /// Prefix of each log line.
    pub indent: String,
    /// Characters kept of each log line.
    pub width_limit: usize,
}

/// The renderer's own settings, and its slots in display order.
#[derive(Debug)]
pub struct Pista {
    pub log_level: Option<PistaLogLevel>,
    pub x11: Option<bool>,
    /// Refresh interval in seconds, written as a decimal number.
    pub interval: Option<String>,
    pub expiry_character: Option<char>,
    pub pad_left: Option<String>,
    pub pad_right: Option<String>,
    pub separator: Option<String>,
    pub slots: Vec<Slot>,
}

#[derive(Debug, Copy, Clone, PartialEq, Eq)]
pub enum PistaLogLevel {
    Nothing,
    Error,
    Warn,
    Info,
    Debug,
}

/// One feed: the command that writes it, and how the renderer shows it.
#[derive(Debug)]
pub struct Slot {
    /// Name of the slot; its position when absent.
    pub name: Option<String>,
    /// The command, run as a script.
    pub cmd: String,
    /// The interpreter of the command's script.
    pub interpreter: String,
    /// Width of the slot's output in bytes; read from its first line when absent.
    pub len: Option<usize>,
    /// How long the renderer shows a line of the slot, in seconds.
    pub ttl: i32,
}

impl PistaLogLevel {
    /// The number of the level on the renderer's command line.
    pub open spec fn spec_code(self) -> u8 {
        match self {
            PistaLogLevel::Nothing => 0,
            PistaLogLevel::Error => 1,
            PistaLogLevel::Warn => 2,
            PistaLogLevel::Info => 3,
            PistaLogLevel::Debug => 4,
        }
    }

    pub fn code(self) -> (r: u8)
        ensures
            r == self.spec_code(),
    {
        match self {
            PistaLogLevel::Nothing => 0,
            PistaLogLevel::Error => 1,
            PistaLogLevel::Warn => 2,
            PistaLogLevel::Info => 3,
            PistaLogLevel::Debug => 4,
        }
    }
}

/// A flag followed by a space and a value.
pub open spec fn value_flag(flag: Seq<char>, v: Option<Seq<char>>) -> Seq<Seq<char>> {
    match v {
        Some(v) => seq![flag + " "@ + v],
        None => seq![],
    }
}

/// A flag followed by a space and a value in single quotes.
pub open spec fn quoted_flag(flag: Seq<char>, v: Option<Seq<char>>) -> Seq<Seq<char>> {
    match v {
        Some(v) => seq![flag + " '"@ + v + "'"@],
        None => seq![],
    }
}

/// The text of an optional string.
pub open spec fn opt_text(v: Option<String>) -> Option<Seq<char>> {
    match v {
        Some(s) => Some(s@),
        None => None,
    }
}

impl Pista {
    /// The renderer's flags, in the order it is given them.
    pub open spec fn flags(&self) -> Seq<Seq<char>> {
        value_flag("-i"@, opt_text(self.interval)) + quoted_flag("-f"@, opt_text(self.pad_left))
            + quoted_flag("-s"@, opt_text(self.separator)) + quoted_flag(
            "-r"@,
            opt_text(self.pad_right),
        ) + (if self.x11 == Some(true) {
            seq!["-x"@]
        } else {
            seq![]
        }) + quoted_flag(
            "-e"@,
            match self.expiry_character {
                Some(c) => Some(seq![c]),
                None => None,
            },
        ) + value_flag(
            "-l"@,
            match self.log_level {
                Some(l) => Some(decimal(l.spec_code() as nat)),
                None => None,
            },
        )
    }

    /// The renderer's flags on one line, separated by spaces.
    pub fn to_arg_str(&self) -> (r: String)
        ensures
            r@ == join(self.flags(), " "@),
    {
        let mut parts: Vec<String> = Vec::new();
        push_flag(&mut parts, "-i", &self.interval, false);
        push_flag(&mut parts, "-f", &self.pad_left, true);
        push_flag(&mut parts, "-s", &self.separator, true);
        push_flag(&mut parts, "-r", &self.pad_right, true);
        let ghost before_x = texts(parts@);
        if self.x11 == Some(true) {
            parts.push("-x".to_owned());
        }
        assert(texts(parts@) =~= before_x + (if self.x11 == Some(true) {
            seq!["-x"@]
        } else {
            seq![]
        }));
        let e = match self.expiry_character {
            Some(c) => {
                let mut t = String::new();
                push_char(&mut t, c);
                assert(t@ =~= seq![c]);
                Some(t)
            },
            None => None,
        };
        push_flag(&mut parts, "-e", &e, true);
        let l = match self.log_level {
            Some(level) => {
                let mut t = String::new();
                push_decimal(&mut t, level.code() as u64);
                assert(t@ =~= decimal(level.spec_code() as nat));
                Some(t)
            },
            None => None,
        };
        push_flag(&mut parts, "-l", &l, false);
        assert(texts(parts@) =~= self.flags());
        join_strings(&parts, " ")
    }
}

/// Adds `flag value` (or `flag 'value'`) to `parts` where there is a value.
fn push_flag(parts: &mut Vec<String>, flag: &str, value: &Option<String>, quote: bool)
    ensures
        texts(final(parts)@) == texts(old(parts)@) + if quote {
            quoted_flag(flag@, opt_text(*value))
        } else {
            value_flag(flag@, opt_text(*value))
        },
{
    let ghost before = texts(parts@);
    match value {
        Some(v) => {
            let mut t = String::new();
            push_text(&mut t, flag);
            if quote {
                push_text(&mut t, " '");
                push_text(&mut t, v.as_str());
                push_text(&mut t, "'");
            } else {
                push_text(&mut t, " ");
                push_text(&mut t, v.as_str());
            }
            parts.push(t);
            assert(texts(parts@) =~= before.push(t@));
        },
        None => {
            assert(texts(parts@) =~= before);
        },
    }
    assert(texts(final(parts)@) =~= texts(old(parts)@) + if quote {
        quoted_flag(flag@, opt_text(*value))
    } else {
        value_flag(flag@, opt_text(*value))
    });
}

/// What a configuration file sets; what it leaves out is taken from the
/// defaults.
#[derive(Debug)]
pub struct FileCfg {
    pub debug: Option<bool>,
    pub sock_name: Option<String>,
    pub session: Option<String>,
    /// The slots' directory, with `~` already expanded.
    pub slots_fifos_dir: Option<String>,
    pub notifications: Option<Notifications>,
    pub pista: Option<Pista>,
}

/// The name of the program, of its socket and of its session by default.
pub const NAME: &'static str = "pistactl";

impl Cfg {
    /// The defaults: socket and session named after the program, no slots,
    /// and alerts with the last 5 log lines, indented by two spaces and cut
    /// to 80 characters.
    pub fn defaults(slots_fifos_dir: String) -> (r: Cfg)
        ensures
            !r.debug,
            r.sock@ == NAME@,
            r.session@ == NAME@,
            r.slots_fifos_dir@ == slots_fifos_dir@,
            r.notifications.log_lines_limit == 5,
            r.notifications.indent@ == "  "@,
            r.notifications.width_limit == 80,
            r.pista.log_level is None,
            r.pista.x11 is None,
            r.pista.interval is None,
            r.pista.expiry_character is None,
            r.pista.pad_left is None,
            r.pista.pad_right is None,
            r.pista.separator is None,
            r.pista.slots@.len() == 0,
    {
        Cfg {
            debug: false,
            sock: NAME.to_owned(),
            session: NAME.to_owned(),
            slots_fifos_dir,
            notifications: Notifications {
                log_lines_limit: 5,
                indent: "  ".to_owned(),
                width_limit: 80,
            },
            pista: Pista {
                log_level: None,
                x11: None,
                interval: None,
                expiry_character: None,
                pad_left: None,
                pad_right: None,
                separator: None,
                slots: Vec::new(),
            },
        }
    }

    /// The file's settings over the defaults, field by field.
    pub fn layer(file: FileCfg, default: Cfg) -> (r: Cfg)
        ensures
            r.debug == match file.debug {
                Some(d) => d,
                None => default.debug,
            },
            r.sock@ == match file.sock_name {
                Some(s) => s@,
                None => default.sock@,
            },
            r.session@ == match file.session {
                Some(s) => s@,
                None => default.session@,
            },
            r.slots_fifos_dir@ == match file.slots_fifos_dir {
                Some(s) => s@,
                None => default.slots_fifos_dir@,
            },
            r.notifications == match file.notifications {
                Some(n) => n,
                None => default.notifications,
            },
            r.pista == match file.pista {
                Some(p) => p,
                None => default.pista,
            },
    {
        Cfg {
            debug: match file.debug {
                Some(d) => d,
                None => default.debug,
            },
            sock: match file.sock_name {
                Some(s) => s,
                None => default.sock,
            },
            session: match file.session {
                Some(s) => s,
                None => default.session,
            },
            slots_fifos_dir: match file.slots_fifos_dir {
                Some(s) => s,
                None => default.slots_fifos_dir,
            },
            notifications: match file.notifications {
                Some(n) => n,
                None => default.notifications,
            },
            pista: match file.pista {
                Some(p) => p,
                None => default.pista,
            },
        }
    }
}

} // verus!
