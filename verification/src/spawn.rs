//! What to launch inside a freshly allocated pseudo-terminal, and what the
//! blocking reader thread does with each read.
//!
//! The caller that owns the OS side reads the environment, allocates the
//! terminal and spawns the child; the decisions — which program, which
//! arguments, which environment variables, which working directory — are
//! made here from plain values.

use vstd::prelude::*;
use vstd::string::*;

verus! {

/// One environment variable to set for the child process.
pub struct EnvVar {
    pub name: String,
    pub value: String,
}

/// The fully decided launch: program, arguments, environment additions and
/// working directory.
pub struct SpawnPlan {
    pub program: String,
    pub args: Vec<String>,
    pub env: Vec<EnvVar>,
    pub cwd: Option<String>,
}

/// Decide what to launch. A given command string runs through a shell
/// invocation; otherwise the user's configured shell (with a fixed
/// fallback) is launched as a login shell. Terminal-type and
/// color-capability variables are always set, and the working directory
/// defaults to the user's home when known.
pub fn plan_spawn(command: Option<&str>, shell: Option<&str>, home: Option<&str>) -> (p: SpawnPlan)
    ensures
        match command {
            Option::Some(c) => {
                &&& p.program@ == "sh"@
                &&& p.args@.len() == 2
                &&& p.args@[0]@ == "-c"@
                &&& p.args@[1]@ == c@
            },
            Option::None => {
                &&& p.program@ == (match shell {
                    Option::Some(s) => s@,
                    Option::None => "/bin/zsh"@,
                })
                &&& p.args@.len() == 1
                &&& p.args@[0]@ == "-l"@
            },
        },
        p.env@.len() == 2,
        p.env@[0].name@ == "TERM"@ && p.env@[0].value@ == "xterm-256color"@,
        p.env@[1].name@ == "COLORTERM"@ && p.env@[1].value@ == "truecolor"@,
        match home {
            Option::Some(h) => p.cwd matches Option::Some(c) && c@ == h@,
            Option::None => p.cwd is None,
        },
{
    let mut args: Vec<String> = Vec::new();
    let program: String;
    match command {
        Option::Some(c) => {
            program = String::from_str("sh");
            args.push(String::from_str("-c"));
            args.push(String::from_str(c));
        },
        Option::None => {
            program = match shell {
                Option::Some(s) => String::from_str(s),
                Option::None => String::from_str("/bin/zsh"),
            };
            args.push(String::from_str("-l"));
        },
    }
    let mut env: Vec<EnvVar> = Vec::new();
    env.push(
        EnvVar {
            name: String::from_str("TERM"),
            value: String::from_str("xterm-256color"),
        },
    );
    env.push(
        EnvVar {
            name: String::from_str("COLORTERM"),
            value: String::from_str("truecolor"),
        },
    );
    let cwd = match home {
        Option::Some(h) => Option::Some(String::from_str(h)),
        Option::None => Option::None,
    };
    SpawnPlan { program, args, env, cwd }
}

/// What one blocking read against the terminal master produced.
pub enum ReadEvent {
    /// The read returned these bytes (none at all means the stream is
    /// exhausted).
    Chunk(Vec<u8>),
    /// The read failed; a terminal read error conventionally means the
    /// child has gone away and is treated exactly like the exhausted
    /// stream.
    Failure,
}

/// What the reader thread does next with one read's outcome.
pub enum ReaderStep {
    /// Push this non-empty chunk onto the session's channel.
    Forward(Vec<u8>),
    /// Stop reading; the channel closes permanently.
    Stop,
}

/// Decide the reader thread's next move: forward every non-empty chunk,
/// stop on an empty read or on a read failure — the two are treated
/// identically.
pub fn reader_step(event: ReadEvent) -> (r: ReaderStep)
    ensures
        match event {
            ReadEvent::Chunk(d) => {
                if d@.len() == 0 {
                    r is Stop
                } else {
                    r matches ReaderStep::Forward(f) && f@ == d@
                }
            },
            ReadEvent::Failure => r is Stop,
        },
{
    match event {
        ReadEvent::Chunk(d) => {
            if d.len() == 0 {
                ReaderStep::Stop
            } else {
                ReaderStep::Forward(d)
            }
        },
        ReadEvent::Failure => ReaderStep::Stop,
    }
}

} // verus!
