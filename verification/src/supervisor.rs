//! The supervisor of the backend services: what to launch, in which order, and
//! how long to let each settle.

use crate::types::AppState;
use vstd::prelude::*;
use vstd::string::*;

verus! {

/// The seconds to wait after the inference service or the gateway was launched.
pub const SERVICE_STARTUP_DELAY: u64 = 2;

/// The seconds to wait after the model server was launched.
pub const OLLAMA_STARTUP_DELAY: u64 = 5;

/// A backend service that the supervisor launches.
#[derive(Debug, Clone, Copy, PartialEq, Eq)]
pub enum Service {
    /// The model server.
    Ollama,
    /// The inference service.
    PythonLlm,
    /// The API gateway.
    GoApi,
}

/// Where the output of a launched process goes.
#[derive(Debug, Clone, Copy, PartialEq, Eq)]
pub enum Output {
    /// Into pipes that nobody reads.
    Piped,
    /// To the supervisor's own output.
    Inherited,
}

/// How to launch a process.
#[derive(Debug, Clone, PartialEq, Eq)]
pub struct Launch {
    pub program: String,
    pub args: Vec<String>,
    pub directory: Option<String>,
    pub output: Output,
}

/// How to launch a process, as plain text.
pub struct LaunchView {
    pub program: Seq<char>,
    pub args: Seq<Seq<char>>,
    pub directory: Option<Seq<char>>,
    pub output: Output,
}

impl View for Launch {
    type V = LaunchView;

    open spec fn view(&self) -> LaunchView {
        LaunchView {
            program: self.program@,
            args: self.args@.map_values(|arg: String| arg@),
            directory: match self.directory {
                Some(directory) => Some(directory@),
                None => None,
            },
            output: self.output,
        }
    }
}

/// One step of a startup: launch a service, or wait for some seconds.
#[derive(Debug, Clone, Copy, PartialEq, Eq)]
pub enum StartupStep {
    Spawn(Service),
    Settle(u64),
}

/// A startup: the steps to take in order, and the message to return once they
/// were taken.
#[derive(Debug)]
pub struct Startup {
    pub steps: Vec<StartupStep>,
    pub message: String,
}

/// The next thing to do to launch the inference service.
#[derive(Debug)]
pub enum PythonStep {
    /// Run `program` with `argument` alone, which asks for its version; if it
    /// answers, launch the service as `launch` says, else count the probe as
    /// failed and ask again.
    Probe { program: String, argument: String, launch: Launch },
    /// No interpreter answered: the service cannot be launched.
    NoInterpreter,
}

/// The programs that may be the interpreter of the inference service, in the
/// order in which they are tried.
pub open spec fn python_candidates(windows: bool) -> Seq<Seq<char>> {
    if windows {
        seq!["py"@, "python"@, "python3"@]
    } else {
        seq!["python3"@, "python"@]
    }
}

/// How the inference service is launched with a given interpreter.
pub open spec fn python_launch(program: Seq<char>) -> LaunchView {
    LaunchView {
        program,
        args: seq!["python-llm/app.py"@],
        directory: None,
        output: Output::Inherited,
    }
}

/// The steps that start every service: the model server, the inference
/// service and the gateway, each followed by its settle delay.
pub open spec fn all_services_steps() -> Seq<StartupStep> {
    seq![
        StartupStep::Spawn(Service::Ollama),
        StartupStep::Settle(OLLAMA_STARTUP_DELAY),
        StartupStep::Spawn(Service::PythonLlm),
        StartupStep::Settle(SERVICE_STARTUP_DELAY),
        StartupStep::Spawn(Service::GoApi),
        StartupStep::Settle(SERVICE_STARTUP_DELAY),
    ]
}

/// The steps that a start on request takes: none where the services are
/// running, else the inference service and then the gateway, each followed by
/// its settle delay.
pub open spec fn startup_steps(running: bool) -> Seq<StartupStep> {
    if running {
        Seq::empty()
    } else {
        seq![
            StartupStep::Spawn(Service::PythonLlm),
            StartupStep::Settle(SERVICE_STARTUP_DELAY),
            StartupStep::Spawn(Service::GoApi),
            StartupStep::Settle(SERVICE_STARTUP_DELAY),
        ]
    }
}

/// The message that a start on request returns.
pub open spec fn startup_message(running: bool) -> Seq<char> {
    if running {
        "Services déjà démarrés"@
    } else {
        "Services démarrés avec succès"@
    }
}

/// The state after a start on request: the latch is set.
pub open spec fn started(state: AppState) -> AppState {
    AppState { services_running: true }
}

/// Says how to launch the model server.
pub fn start_ollama_service() -> (r: Launch)
    ensures
        r@ == (LaunchView {
            program: "ollama"@,
            args: seq!["serve"@],
            directory: None,
            output: Output::Piped,
        }),
{
    let mut args: Vec<String> = Vec::new();
    args.push("serve".to_string());
    let r = Launch { program: "ollama".to_string(), args, directory: None, output: Output::Piped };
    assert(r@.args == seq!["serve"@]);
    r
}

/// Says how to launch the gateway.
pub fn start_go_service() -> (r: Launch)
    ensures
        r@ == (LaunchView {
            program: "go"@,
            args: seq!["run"@, "main.go"@],
            directory: Some("go-api"@),
            output: Output::Inherited,
        }),
{
    let mut args: Vec<String> = Vec::new();
    args.push("run".to_string());
    args.push("main.go".to_string());
    let r = Launch {
        program: "go".to_string(),
        args,
        directory: Some("go-api".to_string()),
        output: Output::Inherited,
    };
    assert(r@.args == seq!["run"@, "main.go"@]);
    r
}

fn candidate(windows: bool, at: usize) -> (r: Option<&'static str>)
    ensures
        r is Some == (at < python_candidates(windows).len()),
        r matches Some(program) ==> program@ == python_candidates(windows)[at as int],
{
    if windows {
        if at == 0 {
            Some("py")
        } else if at == 1 {
            Some("python")
        } else if at == 2 {
            Some("python3")
        } else {
            None
        }
    } else {
        if at == 0 {
            Some("python3")
        } else if at == 1 {
            Some("python")
        } else {
            None
        }
    }
}

/// Says what to do next to launch the inference service, after
/// `failed_probes` candidates were asked for their version and did not
/// answer: probe the next candidate in order, or give up where none is left.
pub fn start_python_service(windows: bool, failed_probes: usize) -> (r: PythonStep)
    ensures
        failed_probes < python_candidates(windows).len() ==> (r matches PythonStep::Probe {
            program,
            argument,
            launch,
        } && program@ == python_candidates(windows)[failed_probes as int] && argument@ == "--version"@
            && launch@ == python_launch(program@)),
        failed_probes >= python_candidates(windows).len() ==> r is NoInterpreter,
{
    match candidate(windows, failed_probes) {
        Some(program) => {
            let mut args: Vec<String> = Vec::new();
            args.push("python-llm/app.py".to_string());
            let launch = Launch {
                program: program.to_string(),
                args,
                directory: None,
                output: Output::Inherited,
            };
            assert(launch@.args == seq!["python-llm/app.py"@]);
            PythonStep::Probe {
                program: program.to_string(),
                argument: "--version".to_string(),
                launch,
            }
        },
        None => PythonStep::NoInterpreter,
    }
}

/// Lists the steps that start every service.
pub fn start_all_services() -> (r: Vec<StartupStep>)
    ensures
        r@ == all_services_steps(),
{
    let mut steps: Vec<StartupStep> = Vec::new();
    steps.push(StartupStep::Spawn(Service::Ollama));
    steps.push(StartupStep::Settle(OLLAMA_STARTUP_DELAY));
    steps.push(StartupStep::Spawn(Service::PythonLlm));
    steps.push(StartupStep::Settle(SERVICE_STARTUP_DELAY));
    steps.push(StartupStep::Spawn(Service::GoApi));
    steps.push(StartupStep::Settle(SERVICE_STARTUP_DELAY));
    steps
}

/// Starts the services on request: where the latch is set there is nothing to
/// do, else the inference service and the gateway are to be launched in that
/// order, and the latch is set.
pub fn start_services(state: &mut AppState) -> (r: Startup)
    ensures
        r.steps@ == startup_steps(old(state).services_running),
        r.message@ == startup_message(old(state).services_running),
        *final(state) == started(*old(state)),
{
    let mut steps: Vec<StartupStep> = Vec::new();
    if state.services_running {
        return Startup { steps, message: "Services déjà démarrés".to_string() };
    }
    steps.push(StartupStep::Spawn(Service::PythonLlm));
    steps.push(StartupStep::Settle(SERVICE_STARTUP_DELAY));
    steps.push(StartupStep::Spawn(Service::GoApi));
    steps.push(StartupStep::Settle(SERVICE_STARTUP_DELAY));
    state.services_running = true;
    Startup { steps, message: "Services démarrés avec succès".to_string() }
}

/// A start on request with the latch set launches nothing, and after any start
/// the latch is set: of two starts in a row the second launches nothing and
/// leaves the state as it is.
pub proof fn lemma_start_is_idempotent(state: AppState)
    ensures
        state.services_running ==> startup_steps(state.services_running) == Seq::<StartupStep>::empty(),
        startup_steps(started(state).services_running) == Seq::<StartupStep>::empty(),
        started(started(state)) == started(state),
{
}

/// Whether every launch of the gateway in `steps` comes right after a launch
/// of the inference service and the settle delay that follows it.
pub open spec fn gateway_follows_inference(steps: Seq<StartupStep>) -> bool {
    forall|at: int|
        0 <= at < steps.len() && #[trigger] steps[at] == StartupStep::Spawn(Service::GoApi) ==> at >= 2
            && steps[at - 2] == StartupStep::Spawn(Service::PythonLlm) && steps[at - 1]
            == StartupStep::Settle(SERVICE_STARTUP_DELAY)
}

/// In every startup the gateway is launched only after the inference service
/// was launched and left to settle.
pub proof fn lemma_inference_before_gateway(running: bool)
    ensures
        gateway_follows_inference(all_services_steps()),
        gateway_follows_inference(startup_steps(running)),
{
}

} // verus!
