//! Replays a repository's history: a command is run at every commit, its
//! output is captured and rendered, and the repository is put back where it
//! was. The decisions of a run are a state machine in [`orchestrator`]; the
//! program around the library performs the git and shell work it asks for.

pub mod commit;
pub mod orchestrator;
pub mod output;
pub mod render;
pub mod text;

pub use commit::{Commit, ParseError, parse_log, parse_log_line};
pub use orchestrator::{Action, Event, ExecMode, Op, Orchestrator, Phase, RunContext, RunError};
pub use output::IterationOutput;
pub use render::{OutMode, csv_header_row, escape_text, render_many, render_one};
