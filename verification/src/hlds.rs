//! The life of the server process: what it is launched with, which process
//! is tracked, and what each request to start, stop, probe or address it
//! comes to.

use vstd::prelude::*;
use vstd::string::*;
use crate::event::{EventView, WebhookEvent};

verus! {

/// The port and the map that the server is started with.
#[derive(Clone, Debug, PartialEq, Eq)]
pub struct ServerConfig {
    pub port: String,
    pub map: String,
}

impl Default for ServerConfig {
    fn default() -> (config: Self)
        ensures
            config.port@ == Seq::<char>::empty(),
            config.map@ == Seq::<char>::empty(),
    {
        ServerConfig { port: String::new(), map: String::new() }
    }
}

/// Why a request to the supervisor failed. A variant with a text carries
/// what the operating system said.
#[derive(Clone, Debug, PartialEq, Eq)]
pub enum HldsError {
    /// No installation path is configured.
    PathNotConfigured,
    /// The process could not be created.
    Spawn(String),
    /// The process was created without an output stream to read.
    StdoutUnavailable,
    /// The process could not be terminated.
    Kill(String),
    /// Waiting for the process to exit failed.
    Wait(String),
    /// Writing to the input of the process failed.
    Send(String),
}

impl HldsError {
    /// The message shown to the operator.
    pub open spec fn message_spec(&self) -> Seq<char> {
        match self {
            HldsError::PathNotConfigured => "HLDS path não configurado."@,
            HldsError::Spawn(detail) => "Erro ao iniciar HLDS: "@ + detail@,
            HldsError::StdoutUnavailable => "stdout não disponível"@,
            HldsError::Kill(detail) => "Erro ao matar processo: "@ + detail@,
            HldsError::Wait(detail) => "Erro ao aguardar encerramento: "@ + detail@,
            HldsError::Send(detail) => "Erro ao enviar comando: "@ + detail@,
        }
    }

    /// The message shown to the operator.
    pub fn message(&self) -> (r: String)
        ensures
            r@ == self.message_spec(),
    {
        match self {
            HldsError::PathNotConfigured => String::from_str("HLDS path não configurado."),
            HldsError::Spawn(detail) => String::from_str("Erro ao iniciar HLDS: ").concat(
                detail.as_str(),
            ),
            HldsError::StdoutUnavailable => String::from_str("stdout não disponível"),
            HldsError::Kill(detail) => String::from_str("Erro ao matar processo: ").concat(
                detail.as_str(),
            ),
            HldsError::Wait(detail) => String::from_str("Erro ao aguardar encerramento: ").concat(
                detail.as_str(),
            ),
            HldsError::Send(detail) => String::from_str("Erro ao enviar comando: ").concat(
                detail.as_str(),
            ),
        }
    }
}

/// How the server process is created.
#[derive(Clone, Debug, PartialEq, Eq)]
pub struct LaunchPlan {
    /// The port to reclaim before the launch.
    pub port: String,
    /// The executable.
    pub program: String,
    /// The directory to run it in.
    pub working_dir: String,
    /// Its arguments.
    pub args: Vec<String>,
}

/// The executable of an installation at `path`.
pub open spec fn program_of(path: Seq<char>) -> Seq<char> {
    path + "/hlds_run"@
}

/// The arguments for a server on `port` that starts with `map`.
pub open spec fn launch_args(port: Seq<char>, map: Seq<char>) -> Seq<Seq<char>> {
    seq![
        "-console"@,
        "-game"@,
        "cstrike"@,
        "+port"@,
        port,
        "+map"@,
        map,
        "+maxplayers"@,
        "32"@,
    ]
}

/// Works out how to launch the server installed at `path` with `config`.
pub fn launch_plan(path: &str, config: &ServerConfig) -> (plan: LaunchPlan)
    ensures
        plan.port@ == config.port@,
        plan.program@ == program_of(path@),
        plan.working_dir@ == path@,
        plan.args.deep_view() == launch_args(config.port@, config.map@),
{
    let mut args: Vec<String> = Vec::new();
    args.push(String::from_str("-console"));
    args.push(String::from_str("-game"));
    args.push(String::from_str("cstrike"));
    args.push(String::from_str("+port"));
    args.push(config.port.clone());
    args.push(String::from_str("+map"));
    args.push(config.map.clone());
    args.push(String::from_str("+maxplayers"));
    args.push(String::from_str("32"));
    LaunchPlan {
        port: config.port.clone(),
        program: String::from_str(path).concat("/hlds_run"),
        working_dir: String::from_str(path),
        args,
    }
}

/// The process that the supervisor tracks, if it tracks one. `H` is
/// whatever the caller needs to address the process. There is one slot:
/// two processes are never tracked at once.
#[derive(Debug)]
pub struct HldsState<H> {
    pub process: Option<H>,
}

/// What a start is to do, in this order: reclaim the port of the launch,
/// terminate the process tracked until now, create the new process.
#[derive(Debug)]
pub struct StartPlan<H> {
    /// The process tracked until now, if there was one.
    pub previous: Option<H>,
    pub launch: LaunchPlan,
}

impl<H> HldsState<H> {
    /// A supervisor that tracks nothing.
    pub fn new() -> (state: Self)
        ensures
            state.process is None,
    {
        HldsState { process: None }
    }

    /// Whether a process is tracked. A tracked process may have exited by
    /// itself: it stays tracked until the next start or stop.
    pub fn is_tracking(&self) -> (b: bool)
        ensures
            b == self.process is Some,
    {
        self.process.is_some()
    }

    /// The first half of a start. Without an installation path the start
    /// is refused and nothing changes. Otherwise the slot is cleared, the
    /// process tracked until now is handed out to be terminated, and the
    /// launch is planned, with an empty port and map where no
    /// configuration is given.
    pub fn begin_start(&mut self, path: Option<String>, config: Option<ServerConfig>) -> (r: Result<
        StartPlan<H>,
        HldsError,
    >)
        ensures
            path is None ==> r == Err::<StartPlan<H>, HldsError>(HldsError::PathNotConfigured)
                && *final(self) == *old(self),
            path is Some ==> r is Ok && final(self).process is None,
            match r {
                Ok(plan) => {
                    let port = if config is Some {
                        config->0.port@
                    } else {
                        Seq::<char>::empty()
                    };
                    let map = if config is Some {
                        config->0.map@
                    } else {
                        Seq::<char>::empty()
                    };
                    &&& plan.previous == old(self).process
                    &&& plan.launch.port@ == port
                    &&& plan.launch.program@ == program_of(path->0@)
                    &&& plan.launch.working_dir@ == path->0@
                    &&& plan.launch.args.deep_view() == launch_args(port, map)
                },
                Err(_) => true,
            },
    {
        let path = match path {
            Some(path) => path,
            None => {
                return Err(HldsError::PathNotConfigured);
            },
        };
        let config = match config {
            Some(config) => config,
            None => ServerConfig::default(),
        };
        let previous = self.process.take();
        Ok(StartPlan { previous, launch: launch_plan(path.as_str(), &config) })
    }

    /// The second half of a start. A created process takes the slot and
    /// its start is to be announced; a failure leaves the slot as it is
    /// and is handed back.
    pub fn finish_start(&mut self, created: Result<H, HldsError>) -> (r: Result<
        WebhookEvent,
        HldsError,
    >)
        ensures
            match created {
                Ok(handle) => final(self).process == Some(handle) && r is Ok && r->Ok_0@
                    == EventView::ServerStarted,
                Err(e) => *final(self) == *old(self) && r == Err::<WebhookEvent, HldsError>(e),
            },
    {
        match created {
            Ok(handle) => {
                self.process = Some(handle);
                Ok(WebhookEvent::ServerStarted)
            },
            Err(e) => Err(e),
        }
    }

    /// The first half of a stop: clears the slot and hands out the
    /// process that was tracked, to be terminated.
    pub fn begin_stop(&mut self) -> (previous: Option<H>)
        ensures
            previous == old(self).process,
            final(self).process is None,
    {
        self.process.take()
    }
}

/// The second half of a stop, from how terminating the process went:
/// `None` where none was tracked. A terminated process is to be
/// announced; where nothing was tracked the stop succeeds in silence; a
/// failure is handed back.
pub fn finish_stop(terminated: Option<Result<(), HldsError>>) -> (r: Result<
    Option<WebhookEvent>,
    HldsError,
>)
    ensures
        match terminated {
            None => r is Ok && r->Ok_0 is None,
            Some(Ok(_)) => r is Ok && r->Ok_0 is Some && r->Ok_0->0@ == EventView::ServerStopped,
            Some(Err(e)) => r == Err::<Option<WebhookEvent>, HldsError>(e),
        },
{
    match terminated {
        None => Ok(None),
        Some(Ok(_)) => Ok(Some(WebhookEvent::ServerStopped)),
        Some(Err(e)) => Err(e),
    }
}

/// What is written to the input of the process for `command`: the
/// command and a line feed, if a process is tracked, and nothing
/// otherwise.
pub fn command_input<H>(state: &HldsState<H>, command: &str) -> (r: Option<String>)
    ensures
        match r {
            Some(text) => state.process is Some && text@ == command@.push('\n'),
            None => state.process is None,
        },
{
    if state.process.is_some() {
        let mut text = String::from_str(command);
        text.append("\n");
        proof {
            reveal_strlit("\n");
        }
        Some(text)
    } else {
        None
    }
}

/// What a look at a tracked process found.
#[derive(Clone, Copy, Debug, PartialEq, Eq)]
pub enum ProcessProbe {
    /// The process has exited.
    Exited,
    /// The process has not exited.
    Alive,
    /// The look itself failed.
    Failed,
}

/// Whether the server counts as running: a process is tracked, and the
/// look at it did not find that it has exited. `probe` is `None` where
/// nothing is tracked.
pub fn is_hlds_running(probe: Option<ProcessProbe>) -> (b: bool)
    ensures
        b == (probe is Some && !(probe->0 is Exited)),
{
    match probe {
        Some(ProcessProbe::Exited) => false,
        Some(_) => true,
        None => false,
    }
}

} // verus!
