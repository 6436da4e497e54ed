//! Command-socket side of the Hyprland IPC: socket locations, the client
//! handle, and assembling a state snapshot from query results.

use std::path::PathBuf;
use vstd::prelude::*;
use crate::find::{first_match, lemma_first_match_is, lemma_first_match_none};
use crate::state::{
    normalize_address, normalize_address_spec, opt_window, windows_view, HyprState, MonitorInfo,
    StateModel, WindowInfo, WindowModel, Workspace, monitors_view, workspaces_view,
};

verus! {

/// `std::path::PathBuf`, declared so that socket paths can be built and
/// handed on. A path is spoken of through the names below for what
/// `PathBuf::from` and `PathBuf::push` give.
#[verifier::external_type_specification]
#[verifier::external_body]
pub struct ExPathBuf(std::path::PathBuf);

/// The path `PathBuf::from` builds from a text.
pub uninterp spec fn path_of_text(s: Seq<char>) -> PathBuf;

/// The path `PathBuf::push` makes of `p` and one more component.
pub uninterp spec fn pushed(p: PathBuf, component: Seq<char>) -> PathBuf;

/// The text a path holds (what `Path::to_str` reads back).
pub uninterp spec fn path_text(p: PathBuf) -> Seq<char>;

/// A component that starts at the root.
pub open spec fn is_absolute_text(c: Seq<char>) -> bool {
    c.len() > 0 && c[0] == '/'
}

/// `PathBuf::from` on a `String`: the path is named by the text alone, and
/// holds that text (the conversion takes the string's buffer as it is).
#[verifier::external_body]
fn path_from(s: String) -> (r: PathBuf)
    ensures
        r == path_of_text(s@),
        path_text(r) == s@,
{
    PathBuf::from(s)
}

/// `PathBuf::push` of one component: the new path is named by the old one
/// and the component alone. As its documentation shows, an absolute
/// component replaces the path, and a relative one extends a path with a
/// separator; the text is stated for a non-empty path not already ending
/// in `/` and a non-empty component, and left unsaid otherwise.
#[verifier::external_body]
fn path_push(p: &mut PathBuf, component: &str)
    ensures
        *final(p) == pushed(*old(p), component@),
        is_absolute_text(component@) ==> path_text(*final(p)) == component@,
        !is_absolute_text(component@) && component@.len() > 0 && path_text(*old(p)).len() > 0
            && path_text(*old(p)).last() != '/' ==> path_text(*final(p)) == path_text(*old(p))
            + seq!['/'] + component@,
{
    p.push(component)
}

/// First delay before reconnecting to the event socket, in milliseconds.
pub const INITIAL_BACKOFF_MS: u64 = 1000;

/// Longest delay between reconnect attempts, in milliseconds.
pub const MAX_BACKOFF_MS: u64 = 30000;

/// The delay after `d` once an attempt failed: doubled, at most
/// [`MAX_BACKOFF_MS`].
pub open spec fn doubled_delay(d: u64) -> u64 {
    if 2 * d < MAX_BACKOFF_MS {
        (2 * d) as u64
    } else {
        MAX_BACKOFF_MS
    }
}

/// The delay after `n` failed attempts in a row.
pub open spec fn delay_after_failures(n: nat) -> u64
    decreases n,
{
    if n == 0 {
        INITIAL_BACKOFF_MS
    } else {
        doubled_delay(delay_after_failures((n - 1) as nat))
    }
}

/// How long to wait before the next attempt to reconnect to the event
/// socket: one second at first, doubled after each failed attempt up to
/// thirty seconds, and back to one second once a line is read or a
/// reconnect succeeds.
#[derive(Debug, Clone, Copy, PartialEq, Eq, Structural)]
pub struct ReconnectBackoff {
    pub delay_ms: u64,
}

impl ReconnectBackoff {
    /// The delay before a first attempt.
    pub fn new() -> (r: Self)
        ensures
            r.delay_ms == INITIAL_BACKOFF_MS,
    {
        ReconnectBackoff { delay_ms: INITIAL_BACKOFF_MS }
    }

    /// An attempt failed: wait longer next time.
    pub fn attempt_failed(&mut self)
        ensures
            final(self).delay_ms == doubled_delay(old(self).delay_ms),
    {
        if self.delay_ms < MAX_BACKOFF_MS / 2 {
            self.delay_ms = 2 * self.delay_ms;
        } else {
            self.delay_ms = MAX_BACKOFF_MS;
        }
    }

    /// The connection works again: start over.
    pub fn reset(&mut self)
        ensures
            final(self).delay_ms == INITIAL_BACKOFF_MS,
    {
        self.delay_ms = INITIAL_BACKOFF_MS;
    }
}

/// Failed reconnects wait one, two, four, eight and sixteen seconds, and
/// thirty seconds from the fifth failure on; the delay never shrinks while
/// attempts keep failing.
pub proof fn law_backoff_schedule(n: nat)
    ensures
        n < 5 ==> delay_after_failures(n) == INITIAL_BACKOFF_MS * vstd::arithmetic::power2::pow2(n),
        n >= 5 ==> delay_after_failures(n) == MAX_BACKOFF_MS,
        INITIAL_BACKOFF_MS <= delay_after_failures(n) <= MAX_BACKOFF_MS,
        delay_after_failures(n) <= delay_after_failures(n + 1),
    decreases n,
{
    vstd::arithmetic::power2::lemma2_to64();
    if n > 0 {
        law_backoff_schedule((n - 1) as nat);
    }
    assert(delay_after_failures(n + 1) == doubled_delay(delay_after_failures(n)));
}

/// Errors of the IPC layer that the library itself decides.
#[derive(Debug, PartialEq, Eq)]
pub enum IpcError {
    /// `$HYPRLAND_INSTANCE_SIGNATURE` was not set.
    NoHyprland,
    /// `$XDG_RUNTIME_DIR` was not set.
    NoXdgRuntime,
    /// Hyprland's command socket returned an error string.
    CommandFailed(String),
}

/// Which error, if any, locating a socket gives for the two environment values.
pub open spec fn socket_path_outcome(runtime: Option<String>, signature: Option<String>) -> Option<IpcError> {
    match (runtime, signature) {
        (None, _) => Some(IpcError::NoXdgRuntime),
        (Some(_), None) => Some(IpcError::NoHyprland),
        _ => None,
    }
}

/// The directory `<runtime>/hypr/<signature>` that holds both sockets.
pub open spec fn socket_dir(runtime: Seq<char>, signature: Seq<char>) -> PathBuf {
    pushed(pushed(path_of_text(runtime), "hypr"@), signature)
}

/// The path `<runtime>/hypr/<signature>/<name>`.
pub open spec fn socket_file(runtime: Seq<char>, signature: Seq<char>, name: Seq<char>) -> PathBuf {
    pushed(socket_dir(runtime, signature), name)
}

/// A relative path component with no `/` at either end.
pub open spec fn is_plain_component(c: Seq<char>) -> bool {
    c.len() > 0 && c[0] != '/' && c.last() != '/'
}

/// Parts whose socket path text is spelled out below: a non-empty runtime
/// directory without a trailing `/`, and a plain signature and file name.
pub open spec fn plain_socket_parts(runtime: Seq<char>, signature: Seq<char>, name: Seq<char>) -> bool {
    runtime.len() > 0 && runtime.last() != '/' && is_plain_component(signature)
        && is_plain_component(name)
}

/// The text `<runtime>/hypr/<signature>/<name>`.
pub open spec fn socket_text(runtime: Seq<char>, signature: Seq<char>, name: Seq<char>) -> Seq<char> {
    runtime + seq!['/'] + "hypr"@ + seq!['/'] + signature + seq!['/'] + name
}

/// `$XDG_RUNTIME_DIR/hypr/$HYPRLAND_INSTANCE_SIGNATURE/<name>`, given the two
/// environment values; the runtime directory is checked first.
pub fn socket_path(runtime: Option<String>, signature: Option<String>, name: &str) -> (r: Result<PathBuf, IpcError>)
    ensures
        match socket_path_outcome(runtime, signature) {
            Some(e) => r == Err::<PathBuf, IpcError>(e),
            None => r == Ok::<PathBuf, IpcError>(socket_file(runtime->0@, signature->0@, name@)),
        },
        socket_path_outcome(runtime, signature) is None && plain_socket_parts(
            runtime->0@,
            signature->0@,
            name@,
        ) ==> path_text(r->Ok_0) == socket_text(runtime->0@, signature->0@, name@),
{
    let runtime = match runtime {
        Some(r) => r,
        None => return Err(IpcError::NoXdgRuntime),
    };
    let signature = match signature {
        Some(s) => s,
        None => return Err(IpcError::NoHyprland),
    };
    let ghost rt = runtime@;
    let ghost sg = signature@;
    let ghost plain = plain_socket_parts(rt, sg, name@);
    let mut path = path_from(runtime);
    proof {
        reveal_strlit("hypr");
    }
    path_push(&mut path, "hypr");
    let ghost t1 = rt + seq!['/'] + "hypr"@;
    assert(plain ==> path_text(path) == t1 && t1.last() == 'r');
    path_push(&mut path, signature.as_str());
    let ghost t2 = t1 + seq!['/'] + sg;
    assert(plain ==> path_text(path) == t2 && t2.last() == sg.last());
    path_push(&mut path, name);
    assert(plain ==> path_text(path) == t2 + seq!['/'] + name@);
    assert(t2 + seq!['/'] + name@ =~= socket_text(rt, sg, name@));
    Ok(path)
}

/// Path of Hyprland's command socket (`.socket.sock`).
pub fn command_socket_path(runtime: Option<String>, signature: Option<String>) -> (r: Result<PathBuf, IpcError>)
    ensures
        match socket_path_outcome(runtime, signature) {
            Some(e) => r == Err::<PathBuf, IpcError>(e),
            None => r == Ok::<PathBuf, IpcError>(socket_file(runtime->0@, signature->0@, ".socket.sock"@)),
        },
        socket_path_outcome(runtime, signature) is None && plain_socket_parts(
            runtime->0@,
            signature->0@,
            ".socket.sock"@,
        ) ==> path_text(r->Ok_0) == socket_text(runtime->0@, signature->0@, ".socket.sock"@),
{
    socket_path(runtime, signature, ".socket.sock")
}

/// Path of Hyprland's event socket (`.socket2.sock`).
pub fn event_socket_path(runtime: Option<String>, signature: Option<String>) -> (r: Result<PathBuf, IpcError>)
    ensures
        match socket_path_outcome(runtime, signature) {
            Some(e) => r == Err::<PathBuf, IpcError>(e),
            None => r == Ok::<PathBuf, IpcError>(socket_file(runtime->0@, signature->0@, ".socket2.sock"@)),
        },
        socket_path_outcome(runtime, signature) is None && plain_socket_parts(
            runtime->0@,
            signature->0@,
            ".socket2.sock"@,
        ) ==> path_text(r->Ok_0) == socket_text(runtime->0@, signature->0@, ".socket2.sock"@),
{
    socket_path(runtime, signature, ".socket2.sock")
}

/// The command and event sockets are found or missed together: both fail
/// with the same error on the same environment, and when both are found they
/// lie in the same directory, as `.socket.sock` and `.socket2.sock`.
pub proof fn law_sockets_share_directory(runtime: Option<String>, signature: Option<String>)
    ensures
        socket_path_outcome(runtime, signature) is None ==> {
            &&& socket_file(runtime->0@, signature->0@, ".socket.sock"@)
                == pushed(socket_dir(runtime->0@, signature->0@), ".socket.sock"@)
            &&& socket_file(runtime->0@, signature->0@, ".socket2.sock"@)
                == pushed(socket_dir(runtime->0@, signature->0@), ".socket2.sock"@)
        },
        socket_path_outcome(runtime, signature) is None <==> (runtime is Some && signature is Some),
{
}

/// For a runtime directory without a trailing `/` and a plain signature,
/// both socket paths are spelled out: the text `<runtime>/hypr/<signature>`
/// followed by `/.socket.sock` for commands and `/.socket2.sock` for events.
pub proof fn law_socket_texts(runtime: Seq<char>, signature: Seq<char>)
    requires
        runtime.len() > 0,
        runtime.last() != '/',
        is_plain_component(signature),
    ensures
        plain_socket_parts(runtime, signature, ".socket.sock"@),
        plain_socket_parts(runtime, signature, ".socket2.sock"@),
        socket_text(runtime, signature, ".socket.sock"@) == runtime + "/hypr/"@ + signature
            + "/.socket.sock"@,
        socket_text(runtime, signature, ".socket2.sock"@) == runtime + "/hypr/"@ + signature
            + "/.socket2.sock"@,
{
    reveal_strlit(".socket.sock");
    reveal_strlit(".socket2.sock");
    reveal_strlit("/.socket.sock");
    reveal_strlit("/.socket2.sock");
    reveal_strlit("/hypr/");
    reveal_strlit("hypr");
    assert(socket_text(runtime, signature, ".socket.sock"@) =~= runtime + "/hypr/"@ + signature
        + "/.socket.sock"@);
    assert(socket_text(runtime, signature, ".socket2.sock"@) =~= runtime + "/hypr/"@ + signature
        + "/.socket2.sock"@);
}

/// One-shot client handle for Hyprland's command socket (`.socket.sock`).
#[derive(Debug)]
pub struct CommandClient {
    socket_path: PathBuf,
}

impl CommandClient {
    /// The socket this client talks to.
    pub closed spec fn path(&self) -> PathBuf {
        self.socket_path
    }

    /// Construct a client pointing at the given socket path.
    pub fn new(socket_path: PathBuf) -> (r: Self)
        ensures
            r.path() == socket_path,
    {
        CommandClient { socket_path }
    }

    /// Borrow the underlying socket path.
    pub fn socket_path(&self) -> (r: &PathBuf)
        ensures
            *r == self.path(),
    {
        &self.socket_path
    }
}

/// A window as listed by `j/clients`: the address loses its `0x`, and the
/// most recently focused window (focus history 0) is the focused one.
pub fn window_from_client(
    address: &str,
    title: String,
    class: String,
    workspace_id: i32,
    focus_history_id: i32,
    fullscreen: bool,
) -> (r: WindowInfo)
    ensures
        r@ == (WindowModel {
            address: normalize_address_spec(address@),
            title: title@,
            class: class@,
            workspace_id,
            is_focused: focus_history_id == 0,
            is_fullscreen: fullscreen,
        }),
{
    WindowInfo {
        address: normalize_address(address),
        title,
        class,
        workspace_id,
        is_focused: focus_history_id == 0,
        is_fullscreen: fullscreen,
    }
}

/// A workspace as listed by `j/workspaces`; urgency is only ever learnt from events.
pub fn workspace_from_query(id: i32, name: String, monitor: String) -> (r: Workspace)
    ensures
        r.id == id,
        r.name == name,
        r.monitor == monitor,
        !r.has_urgent,
{
    Workspace { id, name, monitor, has_urgent: false }
}

pub open spec fn win_focused() -> spec_fn(WindowModel) -> bool {
    |w: WindowModel| w.is_focused
}

/// The state right after hydration from the four startup queries.
pub open spec fn assembled_state(
    workspaces: Seq<Workspace>,
    windows: Seq<WindowInfo>,
    monitors: Seq<MonitorInfo>,
    active_id: i32,
) -> StateModel {
    let wins = windows_view(windows);
    StateModel {
        workspaces: workspaces_view(workspaces),
        active_workspace: active_id,
        active_window: match first_match(wins, win_focused()) {
            Some(i) => Some(wins[i]),
            None => None,
        },
        monitors: monitors_view(monitors),
        windows: wins,
        focused_monitor: Seq::empty(),
    }
}

fn find_focused(windows: &Vec<WindowInfo>) -> (r: Option<usize>)
    ensures
        match r {
            Some(i) => i < windows@.len() && first_match(windows_view(windows@), win_focused()) == Some(i as int),
            None => first_match(windows_view(windows@), win_focused()) is None,
        },
{
    let ghost wins = windows_view(windows@);
    let mut i: usize = 0;
    while i < windows.len()
        invariant
            i <= windows@.len(),
            wins == windows_view(windows@),
            forall|j: int| 0 <= j < i ==> !win_focused()(#[trigger] wins[j]),
        decreases windows@.len() - i,
    {
        if windows[i].is_focused {
            proof {
                lemma_first_match_is(wins, win_focused(), i as int);
            }
            return Some(i);
        }
        i += 1;
    }
    proof {
        lemma_first_match_none(wins, win_focused());
    }
    None
}

/// Assemble a [`HyprState`] from the raw query results: the active
/// workspace comes from the `activeworkspace` query, the active window is
/// the first window marked focused, and no monitor is focused yet.
pub fn assemble_state(
    workspaces: Vec<Workspace>,
    windows: Vec<WindowInfo>,
    monitors: Vec<MonitorInfo>,
    active_ws: Workspace,
) -> (r: HyprState)
    ensures
        r@ == assembled_state(workspaces@, windows@, monitors@, active_ws.id),
{
    let active_window = match find_focused(&windows) {
        Some(i) => Some(windows[i].clone()),
        None => None,
    };
    HyprState {
        workspaces,
        active_workspace: active_ws.id,
        active_window,
        monitors,
        windows,
        focused_monitor: String::new(),
    }
}

} // verus!
