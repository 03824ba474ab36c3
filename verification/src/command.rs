//! A record type with its builder written out by hand: what the generator
//! emits for `Command`, as ordinary items.

use vstd::prelude::*;

verus! {

/// A process to run.
pub struct Command {
    pub executable: String,
    pub args: Vec<String>,
    pub env: Vec<String>,
    pub current_dir: String,
}

/// The builder of a [`Command`]: each field is present or still absent.
pub struct CommandBuilder {
    pub executable: Option<String>,
    pub args: Option<Vec<String>>,
    pub env: Option<Vec<String>>,
    pub current_dir: Option<String>,
}

impl Command {
    /// A builder in which no field has been supplied yet.
    pub fn builder() -> (b: CommandBuilder)
        ensures
            b.executable is None,
            b.args is None,
            b.env is None,
            b.current_dir is None,
    {
        CommandBuilder { executable: None, args: None, env: None, current_dir: None }
    }
}

} // verus!
