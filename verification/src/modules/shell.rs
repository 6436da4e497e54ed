//! Shell command output module: runs a configured command every few
//! seconds and shows its trimmed, truncated output. The process itself is
//! run by the application runtime, which hands the result back here.

use vstd::prelude::*;
use crate::modules::weather::elapsed_ms;
use crate::text::{chars_of, substring, trim, trim_bounds};

verus! {

/// Configuration for the shell command output module.
#[derive(Debug, Clone, PartialEq, Eq)]
pub struct ShellConfig {
    /// Shell command to run (passed to `sh -c`).
    pub command: String,
    /// How often to re-run the command, in seconds.
    pub interval_secs: u64,
    /// Maximum number of characters to display before truncating.
    pub max_chars: usize,
    /// Hard timeout for command execution in seconds.
    pub timeout_secs: u64,
}

/// Seconds between runs when none is configured.
pub fn default_interval() -> (r: u64)
    ensures
        r == 5,
{
    5
}

/// Characters of output shown when no limit is configured.
pub fn default_max_chars() -> (r: usize)
    ensures
        r == 64,
{
    64
}

/// Seconds a run may take when no timeout is configured.
pub fn default_timeout() -> (r: u64)
    ensures
        r == 5,
{
    5
}

impl Default for ShellConfig {
    fn default() -> (r: Self)
        ensures
            r.command@.len() == 0,
            r.interval_secs == 5,
            r.max_chars == 64,
            r.timeout_secs == 5,
    {
        ShellConfig {
            command: String::new(),
            interval_secs: default_interval(),
            max_chars: default_max_chars(),
            timeout_secs: default_timeout(),
        }
    }
}

/// Runtime state for the shell output module.
#[derive(Debug)]
pub struct ShellModule {
    pub config: ShellConfig,
    /// Last captured output of the command.
    pub output: String,
    /// Clock reading (milliseconds) of the most recent completed run.
    pub last_run_ms: Option<u64>,
    /// Whether a run is currently in progress.
    pub running: bool,
}

/// What one update tick of the shell module decided.
#[derive(Debug, Clone, Copy, PartialEq, Eq, Structural)]
pub struct ShellTick {
    /// The displayed output changed and the module must be redrawn.
    pub changed: bool,
    /// The runtime must start the command now.
    pub spawn: bool,
}

/// Is a new run due at `now`?
pub open spec fn should_run_spec(m: ShellModule, now: u64) -> bool {
    m.config.command@.len() > 0 && match m.last_run_ms {
        None => true,
        Some(t) => elapsed_ms(t, now) >= m.config.interval_secs * 1000,
    }
}

/// The module once a finished run has been taken: not running, stamped now.
pub open spec fn after_result(m: ShellModule, result: Option<String>, now: u64) -> ShellModule {
    match result {
        Some(_) => ShellModule { running: false, last_run_ms: Some(now), ..m },
        None => m,
    }
}

/// A finished run whose text differs from the output shown.
pub open spec fn replaces_output(m: ShellModule, result: Option<String>) -> bool {
    match result {
        Some(text) => text@ != m.output@,
        None => false,
    }
}

impl ShellModule {
    /// A shell module that has not run yet.
    pub fn new(config: ShellConfig) -> (r: Self)
        ensures
            r.config == config,
            r.output@.len() == 0,
            r.last_run_ms is None,
            !r.running,
    {
        ShellModule { config, output: String::new(), last_run_ms: None, running: false }
    }

    /// Stable module identifier.
    pub fn id(&self) -> (r: &'static str)
        ensures
            r@ == "shell"@,
    {
        "shell"
    }

    /// A run is due when a command is configured and none ran yet or the
    /// interval has passed since the last one.
    pub fn should_run(&self, now_ms: u64) -> (r: bool)
        ensures
            r == should_run_spec(*self, now_ms),
    {
        if self.config.command.as_str().is_empty() {
            return false;
        }
        match self.last_run_ms {
            None => true,
            Some(t) => {
                let elapsed = if now_ms >= t { now_ms - t } else { 0 };
                elapsed / 1000 >= self.config.interval_secs
            },
        }
    }

    /// One update tick. A finished run (`result`) is taken first: it ends the
    /// run and stamps the time; when its text differs from the output shown,
    /// it replaces it and asks for a redraw, and nothing else happens in that
    /// tick. Otherwise a new run is started when one is due and none is in
    /// progress (the first run also stamps the time).
    pub fn tick(&mut self, result: Option<String>, now_ms: u64) -> (r: ShellTick)
        ensures
            final(self).config == old(self).config,
            replaces_output(*old(self), result) ==> {
                &&& final(self).output == result->0
                &&& !final(self).running
                &&& final(self).last_run_ms == Some(now_ms)
                &&& r == (ShellTick { changed: true, spawn: false })
            },
            !replaces_output(*old(self), result) ==> ({
                let m = after_result(*old(self), result, now_ms);
                &&& final(self).output == old(self).output
                &&& !r.changed
                &&& r.spawn == (should_run_spec(m, now_ms) && !m.running)
                &&& final(self).running == (m.running || r.spawn)
                &&& final(self).last_run_ms == (if r.spawn && m.last_run_ms is None {
                    Some(now_ms)
                } else {
                    m.last_run_ms
                })
            }),
    {
        match result {
            Some(text) => {
                self.running = false;
                self.last_run_ms = Some(now_ms);
                if text != self.output {
                    self.output = text;
                    return ShellTick { changed: true, spawn: false };
                }
            },
            None => {},
        }
        if self.should_run(now_ms) && !self.running {
            self.running = true;
            if self.last_run_ms.is_none() {
                self.last_run_ms = Some(now_ms);
            }
            return ShellTick { changed: false, spawn: true };
        }
        ShellTick { changed: false, spawn: false }
    }
}

/// The first `n` characters of `s` (all of them if it is shorter).
pub fn truncate_chars(s: &str, n: usize) -> (r: String)
    ensures
        r@ == s@.take(if n < s@.len() { n as int } else { s@.len() as int }),
{
    let len = s.unicode_len();
    let end = if n < len { n } else { len };
    substring(s, 0, end)
}

/// Text shown for a finished command: `err` when it failed, else its
/// standard output trimmed and cut to `max_chars` characters.
pub fn command_output_text(succeeded: bool, stdout: &str, max_chars: usize) -> (r: String)
    ensures
        !succeeded ==> r@ == "err"@,
        succeeded ==> r@ == trim(stdout@).take(if max_chars < trim(stdout@).len() { max_chars as int } else { trim(stdout@).len() as int }),
{
    if !succeeded {
        return "err".to_owned();
    }
    let v = chars_of(stdout);
    let (a, b) = trim_bounds(&v, 0, v.len());
    assert(v@.subrange(0, v@.len() as int) =~= stdout@);
    let end = if max_chars < b - a { a + max_chars } else { b };
    assert(stdout@.subrange(a as int, end as int) =~= trim(stdout@).take(end - a));
    substring(stdout, a, end)
}

} // verus!
