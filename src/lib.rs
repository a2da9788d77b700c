// Control of a status bar whose slots are fed by commands that run in the
// windows of one tmux session. The library decides; the caller acts:
// - `tmux`: addresses, the tmux calls that drive the session, and the
//   reading of its pane listing;
// - `cmd`: what starting, stopping and reporting the slots take;
// - `process`: the reading of the process table;
// - `scripts`: shell snippets for the slots' alerts;
// - `cfg` and `cli`: the configuration and the command line;
// - `text`: the text primitives the rest is stated over.

pub mod cfg;
pub mod cli;
pub mod cmd;
pub mod process;
pub mod scripts;
pub mod text;
pub mod tmux;
