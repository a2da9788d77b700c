use vstd::prelude::*;

use crate::text::{chars_of, join_path, join_path_str, lines, lines_of, split_whitespace, texts, words};

verus! {

/// What the process table says of one process.
#[derive(Debug)]
pub struct Info {
    /// The command name.
    pub comm: String,
    /// Whether it is in the foreground process group of its terminal.
    pub fg: bool,
    /// Its controlling terminal, as an absolute path under `/dev`.
    pub tty: Option<String>,
}

/// A line of the process listing with fewer than three fields.
#[derive(Debug)]
pub struct ListError {
    pub line: String,
}

/// Whether `info` is what the listing line `line` (`<state> <tty> <command>
/// ...`) says: in the foreground where the state codes end with `+`, and
/// with no terminal where the terminal is `?`.
pub open spec fn describes(info: Info, line: Seq<char>) -> bool {
    let f = words(line);
    &&& info.comm@ == f[2]
    &&& info.fg == (f[0].len() > 0 && f[0].last() == '+')
    &&& match info.tty {
        None => f[1] == seq!['?'],
        Some(t) => f[1] != seq!['?'] && t@ == join_path("/dev"@, f[1]),
    }
}

/// Reads the output of `ps -eo stat,tty,comm`, one process per line.
pub fn list(ps_output: &str) -> (r: Result<Vec<Info>, ListError>)
    ensures
        match r {
            Ok(v) => {
                &&& v@.len() == lines(ps_output@).len()
                &&& forall|i: int|
                    0 <= i < v@.len() ==> words(#[trigger] lines(ps_output@)[i]).len() >= 3
                        && describes(v@[i], lines(ps_output@)[i])
            },
            Err(e) => exists|k: int|
                0 <= k < lines(ps_output@).len() && (forall|i: int|
                    0 <= i < k ==> words(#[trigger] lines(ps_output@)[i]).len() >= 3) && words(
                    lines(ps_output@)[k],
                ).len() < 3 && e.line@ == lines(ps_output@)[k],
        },
{
    let ls = lines_of(ps_output);
    let ghost l = lines(ps_output@);
    let mut v: Vec<Info> = Vec::new();
    let mut i: usize = 0;
    while i < ls.len()
        invariant
            i <= ls.len(),
            texts(ls@) == l,
            l == lines(ps_output@),
            v@.len() == i,
            forall|j: int|
                0 <= j < i ==> words(#[trigger] l[j]).len() >= 3 && describes(v@[j], l[j]),
        decreases ls.len() - i,
    {
        assert(ls[i as int]@ == l[i as int]);
        let line = ls[i].as_str();
        let mut fields = split_whitespace(line);
        let ghost f = words(l[i as int]);
        if fields.len() < 3 {
            assert(0 <= i < l.len() && (forall|j: int|
                0 <= j < i ==> words(#[trigger] l[j]).len() >= 3));
            return Err(ListError { line: ls[i].clone() });
        }
        assert(fields[0]@ == f[0] && fields[1]@ == f[1] && fields[2]@ == f[2]);
        let state = chars_of(fields[0].as_str());
        let fg = state.len() > 0 && state[state.len() - 1] == '+';
        let tty_chars = chars_of(fields[1].as_str());
        let tty = if tty_chars.len() == 1 && tty_chars[0] == '?' {
            assert(f[1] =~= seq!['?']);
            None
        } else {
            proof {
                reveal_strlit("/dev");
                if f[1] == seq!['?'] {
                    assert(tty_chars@.len() == 1 && tty_chars@[0] == '?');
                }
            }
            Some(join_path_str("/dev", fields[1].as_str()))
        };
        let comm = fields[2].clone();
        v.push(Info { comm, fg, tty });
        i = i + 1;
    }
    Ok(v)
}

} // verus!
