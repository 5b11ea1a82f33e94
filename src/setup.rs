//! The set-up itself, run against the process's logging crates, with a ledger
//! of what it has installed in the process.
use vstd::prelude::*;
use tracing_subscriber::fmt::format::FmtSpan;
use tracing_subscriber::layer::SubscriberExt;
use crate::error::{Error, ErrorKind};
use crate::filter::{Filter, FilterSpec, build_filter, override_used, override_view, resolved_filter};
use crate::target::{LogTarget, select_target, target_for};

verus! {

#[verifier::external_type_specification]
#[verifier::external_body]
pub struct ExJournalLayer(tracing_journald::Layer);

/// How the terminal formatter renders records.
#[derive(Clone, Copy, Debug, PartialEq, Eq, Structural)]
pub struct TerminalFormat {
    /// An event when a span closes.
    pub close_spans: bool,
    /// Colour.
    pub ansi: bool,
    /// The source line of each record.
    pub line_numbers: bool,
    /// The identifier of the emitting thread.
    pub thread_ids: bool,
}

/// The rendering used on an interactive terminal: span-close events, colour,
/// source lines and thread identifiers.
pub open spec fn terminal_spec() -> TerminalFormat {
    TerminalFormat { close_spans: true, ansi: true, line_numbers: true, thread_ids: true }
}

/// The rendering used on an interactive terminal.
pub fn terminal_format() -> (r: TerminalFormat)
    ensures
        r == terminal_spec(),
{
    TerminalFormat { close_spans: true, ansi: true, line_numbers: true, thread_ids: true }
}

/// What a sandboxed set-up installs, in the order it does so.
#[derive(Clone, Copy, Debug, PartialEq, Eq, Structural)]
pub enum SandboxInstall {
    PanicHook,
    ConsoleTransport,
}

/// A global handler as installed.
pub enum Handler {
    /// A native handler: the filter's directives and whether it enables
    /// errors by default, the terminal formatter if any, and whether it
    /// writes to the journal.
    Native { directives: Seq<char>, error_default: bool, terminal: Option<TerminalFormat>, journal: bool },
    /// The sandbox's console transport.
    Console,
}

/// What the set-up has done in this process: whether it set the legacy
/// bridge, which handler it installed, how often it opened the journal and
/// whether the last opening failed, and what the sandbox installed, in order.
pub struct Ledger {
    pub bridge: bool,
    pub handler: Option<Handler>,
    pub journal_opens: nat,
    pub journal_failed: bool,
    pub sandbox_installs: Seq<SandboxInstall>,
}

/// The state of the set-up in a process. The ledger starts empty and only a
/// call into the logging crates moves it, so a bridge or a handler in it
/// means that the process-wide slot is taken.
pub struct ProcessState {
    ledger: Ghost<Ledger>,
    sandbox_claimed: bool,
}

impl ProcessState {
    /// What the set-up has done in this process.
    pub closed spec fn ledger(&self) -> Ledger {
        self.ledger@
    }

    /// The sandbox's set-up has run.
    pub closed spec fn sandbox_done(&self) -> bool {
        self.sandbox_claimed
    }

    /// The state of a process in which nothing was installed yet.
    pub fn new() -> (r: ProcessState)
        ensures
            !r.ledger().bridge,
            r.ledger().handler is None,
            r.ledger().journal_opens == 0,
            !r.ledger().journal_failed,
            r.ledger().sandbox_installs == Seq::<SandboxInstall>::empty(),
            !r.sandbox_done(),
    {
        ProcessState {
            ledger: Ghost(
                Ledger {
                    bridge: false,
                    handler: None,
                    journal_opens: 0,
                    journal_failed: false,
                    sandbox_installs: Seq::empty(),
                },
            ),
            sandbox_claimed: false,
        }
    }

    /// Whether the sandbox's set-up has run.
    pub fn sandbox_installed(&self) -> (r: bool)
        ensures
            r == self.sandbox_done(),
    {
        self.sandbox_claimed
    }
}

/// Relies on `tracing_log::LogTracer::init`: installs the bridge from `log`
/// calls, and fails where a `log` logger was set before.
#[verifier::external_body]
fn install_bridge(state: &mut ProcessState) -> (r: Result<(), tracing_log::log::SetLoggerError>)
    ensures
        old(state).ledger().bridge ==> r is Err,
        final(state).ledger() == (if r is Ok {
            Ledger { bridge: true, ..old(state).ledger() }
        } else {
            old(state).ledger()
        }),
        final(state).sandbox_done() == old(state).sandbox_done(),
{
    tracing_log::LogTracer::init()
}

/// Relies on `tracing_journald::layer`: opens a socket and sends journald an
/// empty record, or fails where the socket cannot be made or none listens.
#[verifier::external_body]
fn open_journal(state: &mut ProcessState) -> (r: std::io::Result<tracing_journald::Layer>)
    ensures
        final(state).ledger() == (Ledger {
            journal_opens: old(state).ledger().journal_opens + 1,
            journal_failed: r is Err,
            ..old(state).ledger()
        }),
        final(state).sandbox_done() == old(state).sandbox_done(),
{
    tracing_journald::layer()
}

/// Relies on `tracing::subscriber::set_global_default`: installs a registry,
/// filtered by `filter`, with the terminal formatter and the journal layer that
/// are given, as the process's handler; fails where one was installed before.
#[verifier::external_body]
fn set_global_handler(
    filter: Filter,
    terminal: Option<TerminalFormat>,
    journal: Option<tracing_journald::Layer>,
    state: &mut ProcessState,
) -> (r: Result<(), tracing::subscriber::SetGlobalDefaultError>)
    ensures
        old(state).ledger().handler is Some ==> r is Err,
        final(state).ledger() == (if r is Ok {
            Ledger {
                handler: Some(
                    Handler::Native {
                        directives: filter.directives(),
                        error_default: filter.error_default(),
                        terminal,
                        journal: journal is Some,
                    },
                ),
                ..old(state).ledger()
            }
        } else {
            old(state).ledger()
        }),
        final(state).sandbox_done() == old(state).sandbox_done(),
{
    let fmt = terminal.map(|f| tracing_subscriber::fmt::layer()
        .with_span_events(if f.close_spans { FmtSpan::CLOSE } else { FmtSpan::NONE })
        .with_ansi(f.ansi)
        .with_line_number(f.line_numbers)
        .with_thread_ids(f.thread_ids));
    let handler = tracing_subscriber::registry().with(filter.into_layer()).with(fmt).with(journal);
    tracing::subscriber::set_global_default(handler)
}

/// Relies on `console_error_panic_hook::set_once`: sets the panic hook that
/// reports to the console on its first call in the process; it does not fail.
#[verifier::external_body]
fn install_panic_hook(state: &mut ProcessState)
    ensures
        final(state).ledger() == (Ledger {
            sandbox_installs: old(state).ledger().sandbox_installs.push(SandboxInstall::PanicHook),
            ..old(state).ledger()
        }),
        final(state).sandbox_done() == old(state).sandbox_done(),
{
    console_error_panic_hook::set_once()
}

/// Relies on `wasm_tracing::try_set_as_global_default`: installs the console
/// transport as the global handler, and fails where one was installed before.
#[verifier::external_body]
fn install_console_transport(state: &mut ProcessState) -> (r: Result<(), tracing::subscriber::SetGlobalDefaultError>)
    ensures
        old(state).ledger().handler is Some ==> r is Err,
        final(state).ledger() == (Ledger {
            sandbox_installs: old(state).ledger().sandbox_installs.push(SandboxInstall::ConsoleTransport),
            handler: if r is Ok {
                Some(Handler::Console)
            } else {
                old(state).ledger().handler
            },
            ..old(state).ledger()
        }),
        final(state).sandbox_done() == old(state).sandbox_done(),
{
    wasm_tracing::try_set_as_global_default()
}

/// Which environment a build serves, fixed when it is built.
#[derive(Clone, Copy, Debug, PartialEq, Eq, Structural)]
pub enum DeploymentTarget {
    /// A process under a service manager, with a journal and maybe a terminal.
    NativeSupervised,
    /// A single-threaded sandbox with a console and no journal.
    Sandboxed,
}

/// What a successful set-up installed.
pub enum Installed {
    /// A native handler with this filter and sink.
    Native { filter: FilterSpec, target: LogTarget },
    /// The sandbox's console transport and panic hook.
    Sandboxed,
}

/// The set-up ended because the legacy bridge was refused.
pub open spec fn bridge_refused(r: Result<Installed, Error>) -> bool {
    r matches Err(Error::TracingLog(_))
}

/// The handler that a native set-up installs for this override, profile and
/// terminal state: the resolved filter, with the error default only where the
/// override is not used; the terminal formatter on a terminal, the journal
/// otherwise.
pub open spec fn native_handler(filter_override: Option<Seq<char>>, development: bool, stdout_is_terminal: bool) -> Handler {
    Handler::Native {
        directives: resolved_filter(filter_override, development),
        error_default: !override_used(filter_override),
        terminal: if stdout_is_terminal {
            Some(terminal_spec())
        } else {
            None
        },
        journal: !stdout_is_terminal,
    }
}

/// What installing the native handler owes, from the ledger `pre` to `post`
/// with the result `r`:
/// - the journal is opened once where standard output is not a terminal, and
///   never on a terminal; its failing is exactly what gives `Error::IO`;
/// - success installs `native_handler` and reports its filter and sink;
/// - a failure leaves the handler as it was, and a handler set before fails it;
/// - the bridge and the sandbox's installs stay as they were.
pub open spec fn handler_post(
    pre: Ledger,
    post: Ledger,
    r: Result<Installed, Error>,
    filter_override: Option<Seq<char>>,
    development: bool,
    stdout_is_terminal: bool,
) -> bool {
    &&& post.bridge == pre.bridge
    &&& post.sandbox_installs == pre.sandbox_installs
    &&& !bridge_refused(r)
    &&& stdout_is_terminal ==> (post.journal_opens == pre.journal_opens && post.journal_failed
        == pre.journal_failed)
    &&& !stdout_is_terminal ==> (post.journal_opens == pre.journal_opens + 1 && (post.journal_failed
        <==> r matches Err(Error::IO(_))))
    &&& r matches Ok(i) ==> (i matches Installed::Native { filter, target } && filter@ == resolved_filter(
        filter_override,
        development,
    ) && target == target_for(stdout_is_terminal) && post.handler == Some(
        native_handler(filter_override, development, stdout_is_terminal),
    ))
    &&& r is Err ==> post.handler == pre.handler
    &&& pre.handler is Some ==> r is Err
}

/// What a native set-up owes: the bridge first; where it is refused (always
/// so when the ledger has it set), the set-up ends with its error and nothing
/// else happens; otherwise the bridge is set and the handler is installed as
/// `handler_post` says.
pub open spec fn native_post(
    pre: Ledger,
    post: Ledger,
    r: Result<Installed, Error>,
    filter_override: Option<Seq<char>>,
    development: bool,
    stdout_is_terminal: bool,
) -> bool {
    &&& pre.bridge ==> bridge_refused(r)
    &&& (bridge_refused(r) && post == pre) || (!pre.bridge && handler_post(
        Ledger { bridge: true, ..pre },
        post,
        r,
        filter_override,
        development,
        stdout_is_terminal,
    ))
}

/// What a sandboxed set-up owes: the first one installs the panic hook, then
/// the console transport; a later one changes nothing.
pub open spec fn sandbox_post(pre: ProcessState, post: ProcessState) -> bool {
    &&& post.sandbox_done()
    &&& pre.sandbox_done() ==> post == pre
    &&& !pre.sandbox_done() ==> post.ledger().sandbox_installs == pre.ledger().sandbox_installs
        + seq![SandboxInstall::PanicHook, SandboxInstall::ConsoleTransport]
    &&& post.ledger().bridge == pre.ledger().bridge
    &&& post.ledger().journal_opens == pre.ledger().journal_opens
    &&& pre.ledger().handler is Some ==> post.ledger().handler == pre.ledger().handler
}

/// Installs the native handler once the bridge is set, for standard output
/// probed as given: the filter, then the sink (the journal is opened only off
/// a terminal), then the global handler.
pub fn install_handler(
    filter_override: Option<String>,
    development: bool,
    stdout_is_terminal: bool,
    state: &mut ProcessState,
) -> (r: Result<Installed, Error>)
    ensures
        handler_post(
            old(state).ledger(),
            final(state).ledger(),
            r,
            override_view(filter_override),
            development,
            stdout_is_terminal,
        ),
        final(state).sandbox_done() == old(state).sandbox_done(),
{
    let ghost ov = override_view(filter_override);
    let (filter, layer) = build_filter(filter_override, development);
    let target = select_target(stdout_is_terminal);
    let installed = match target {
        LogTarget::InteractiveTerminal => set_global_handler(layer, Some(terminal_format()), None, state),
        LogTarget::JournalTransport => match open_journal(state) {
            Err(e) => {
                return Err(Error::IO(e));
            },
            Ok(journal) => set_global_handler(layer, None, Some(journal), state),
        },
    };
    match installed {
        Err(e) => Err(Error::TracingGlobal(e)),
        Ok(()) => Ok(Installed::Native { filter, target }),
    }
}

/// Sets up a native process for standard output probed as given: the legacy
/// bridge, then the handler. The first step that fails ends the set-up.
pub fn install_native(
    filter_override: Option<String>,
    development: bool,
    stdout_is_terminal: bool,
    state: &mut ProcessState,
) -> (r: Result<Installed, Error>)
    ensures
        native_post(
            old(state).ledger(),
            final(state).ledger(),
            r,
            override_view(filter_override),
            development,
            stdout_is_terminal,
        ),
        final(state).sandbox_done() == old(state).sandbox_done(),
{
    match install_bridge(state) {
        Err(e) => Err(Error::TracingLog(e)),
        Ok(()) => install_handler(filter_override, development, stdout_is_terminal, state),
    }
}

/// Sets up a native process: the legacy bridge, then one probe of whether
/// standard output is a terminal, then the handler. Nothing is probed where
/// the bridge is refused.
pub fn init_native(filter_override: Option<String>, development: bool, state: &mut ProcessState) -> (r:
    Result<Installed, Error>)
    ensures
        exists|t: bool|
            native_post(
                old(state).ledger(),
                final(state).ledger(),
                r,
                override_view(filter_override),
                development,
                t,
            ),
        final(state).sandbox_done() == old(state).sandbox_done(),
{
    let ghost ov = override_view(filter_override);
    match install_bridge(state) {
        Err(e) => {
            let r = Err(Error::TracingLog(e));
            assert(native_post(old(state).ledger(), state.ledger(), r, ov, development, false));
            r
        },
        Ok(()) => {
            let is_term = console::Term::stdout().is_term();
            let r = install_handler(filter_override, development, is_term, state);
            assert(native_post(old(state).ledger(), state.ledger(), r, ov, development, is_term));
            r
        },
    }
}

/// Sets up a sandbox: the first call installs the console panic hook, then the
/// console transport; later calls do nothing. Returns whether this call installed.
pub fn init_sandboxed(state: &mut ProcessState) -> (installed_now: bool)
    ensures
        installed_now == !old(state).sandbox_done(),
        sandbox_post(*old(state), *final(state)),
{
    if state.sandbox_claimed {
        return false;
    }
    state.sandbox_claimed = true;
    install_panic_hook(state);
    let _ = install_console_transport(state);
    assert(state.ledger().sandbox_installs =~= old(state).ledger().sandbox_installs + seq![
        SandboxInstall::PanicHook,
        SandboxInstall::ConsoleTransport,
    ]);
    true
}

/// Sets up logging for the deployment this build serves. A sandboxed set-up
/// never fails; a native one owes what `native_post` says for the terminal
/// state that it probed.
pub fn init(
    deployment: DeploymentTarget,
    development: bool,
    filter_override: Option<String>,
    state: &mut ProcessState,
) -> (r: Result<Installed, Error>)
    ensures
        deployment == DeploymentTarget::Sandboxed ==> (r matches Ok(Installed::Sandboxed) && sandbox_post(
            *old(state),
            *final(state),
        )),
        deployment == DeploymentTarget::NativeSupervised ==> (final(state).sandbox_done() == old(
            state,
        ).sandbox_done() && exists|t: bool|
            native_post(
                old(state).ledger(),
                final(state).ledger(),
                r,
                override_view(filter_override),
                development,
                t,
            )),
{
    match deployment {
        DeploymentTarget::NativeSupervised => init_native(filter_override, development, state),
        DeploymentTarget::Sandboxed => {
            init_sandboxed(state);
            Ok(Installed::Sandboxed)
        },
    }
}

/// After a native set-up that succeeded, a second one in the same process
/// fails with the bridge's error, an already-initialized failure, and changes
/// nothing, whatever its override, profile and terminal state.
pub proof fn lemma_second_native_init_refused(
    l0: Ledger,
    l1: Ledger,
    l2: Ledger,
    r1: Result<Installed, Error>,
    r2: Result<Installed, Error>,
    o1: Option<Seq<char>>,
    o2: Option<Seq<char>>,
    d1: bool,
    d2: bool,
    t1: bool,
    t2: bool,
)
    requires
        native_post(l0, l1, r1, o1, d1, t1),
        r1 is Ok,
        native_post(l1, l2, r2, o2, d2, t2),
    ensures
        r2 matches Err(e) && e is TracingLog && e.spec_kind() == ErrorKind::AlreadyInitialized,
        l2 == l1,
{
}

/// A native set-up off a terminal whose opening of the journal failed ends
/// with an unavailable transport, and leaves the handler as it was.
pub proof fn lemma_journal_failure_surfaces(
    pre: Ledger,
    post: Ledger,
    r: Result<Installed, Error>,
    filter_override: Option<Seq<char>>,
    development: bool,
)
    requires
        native_post(pre, post, r, filter_override, development, false),
        post.journal_opens > pre.journal_opens,
        post.journal_failed,
    ensures
        r matches Err(e) && e is IO && e.spec_kind() == ErrorKind::TransportUnavailable,
        post.handler == pre.handler,
{
}

/// A native set-up that succeeds installs exactly the resolved filter and the
/// sink of the terminal state: the terminal formatter with all its options on
/// a terminal, the journal otherwise.
pub proof fn lemma_native_success_installs_resolved_handler(
    pre: Ledger,
    post: Ledger,
    r: Result<Installed, Error>,
    filter_override: Option<Seq<char>>,
    development: bool,
    stdout_is_terminal: bool,
)
    requires
        native_post(pre, post, r, filter_override, development, stdout_is_terminal),
        r is Ok,
    ensures
        post.bridge,
        post.handler == Some(native_handler(filter_override, development, stdout_is_terminal)),
        stdout_is_terminal ==> post.journal_opens == pre.journal_opens,
{
}

/// Any run of sandboxed set-ups installs the panic hook and the console
/// transport at most once, in that order: after the first, every later one
/// changes nothing.
pub proof fn lemma_sandbox_installs_once(s0: ProcessState, s1: ProcessState, s2: ProcessState)
    requires
        sandbox_post(s0, s1),
        sandbox_post(s1, s2),
    ensures
        s2 == s1,
        s2.ledger().sandbox_installs == s0.ledger().sandbox_installs || s2.ledger().sandbox_installs
            == s0.ledger().sandbox_installs + seq![SandboxInstall::PanicHook, SandboxInstall::ConsoleTransport],
{
}

} // verus!
