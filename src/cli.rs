use vstd::prelude::*;

use crate::cfg::Cfg;

verus! {

/// The command line: where the configuration is, what overrides it, and
/// what to do.
#[derive(Debug)]
pub struct Cli {
    /// Path to the configuration file.
    pub config: String,
    /// Log more.
    pub debug: bool,
    /// Name of the tmux socket (`tmux -L`).
    pub sock_name: Option<String>,
    /// Name of the tmux session.
    pub session: Option<String>,
    /// Directory for the slots' subdirectories.
    pub dir: Option<String>,
    pub command: Cmd,
}

#[derive(Debug, Clone, Copy, PartialEq, Eq)]
pub enum Cmd {
    Status,
    Start,
    Stop,
    Restart,
    Attach,
}

/// An override where there is one, else the configured text.
pub open spec fn or_text(o: Option<String>, v: String) -> Seq<char> {
    match o {
        Some(s) => s@,
        None => v@,
    }
}

impl Cli {
    /// The configuration with the command line's flags put over it.
    pub fn to_cfg(&self, cfg: Cfg) -> (r: Cfg)
        ensures
            r.debug == (cfg.debug || self.debug),
            r.sock@ == or_text(self.sock_name, cfg.sock),
            r.session@ == or_text(self.session, cfg.session),
            r.slots_fifos_dir@ == or_text(self.dir, cfg.slots_fifos_dir),
            r.notifications == cfg.notifications,
            r.pista == cfg.pista,
    {
        let mut cfg = cfg;
        if self.debug {
            cfg.debug = true;
        }
        if let Some(sock) = &self.sock_name {
            cfg.sock = sock.clone();
        }
        if let Some(session) = &self.session {
            cfg.session = session.clone();
        }
        if let Some(dir) = &self.dir {
            cfg.slots_fifos_dir = dir.clone();
        }
        cfg
    }
}

} // verus!
