//! Docker container integration.
//!
//! This provider controls a Docker container by name. It can attach to an
//! existing container, or create one from a configured image. Image
//! availability is handled on allocation so startup does not need to download
//! layers.
pub mod size;

use vstd::prelude::*;

use crate::docker::size::DiskUsage;
use crate::docker::size::parse_block_io;
use crate::docker::size::parse_first_docker_size_bytes;
use crate::docker::size::second_part;
use crate::docker::size::size_or_zero;
use crate::engine::state::ExitStatus;
use crate::engine::state::FxExecutionState;
use crate::engine::state::StateModel;
use crate::text::begins_with;
use crate::text::begins_with_text;
use crate::text::cat2;
use crate::text::cat3;
use crate::text::contains;
use crate::text::contains_text;
use crate::text::copy_pairs;
use crate::text::copy_strings;
use crate::text::join_texts;
use crate::text::joined;
use crate::text::lemma_texts_add;
use crate::text::lemma_texts_push;
use crate::text::lower_text;
use crate::text::opt_text;
use crate::text::pairs;
use crate::text::same_text_ignoring_case;
use crate::text::split_first;
use crate::text::texts;
use crate::text::to_lower_text;
use crate::text::trim_text;
use crate::text::trimmed;
use crate::utils::CommandRanError;
use crate::utils::CommandRanResult;

verus! {

broadcast use {lemma_texts_push, lemma_texts_add};

/// The Docker command-line program.
pub const DOCKER_BIN: &'static str = "docker";

/// The milliseconds that a Docker command may take.
pub const DOCKER_COMMAND_TIMEOUT: u64 = 30_000;

/// The milliseconds that pulling an image may take.
pub const DOCKER_PULL_TIMEOUT: u64 = 600_000;

/// The milliseconds between two looks of a monitor.
pub const DOCKER_MONITOR_POLL_INTERVAL: u64 = 2_000;

/// A Docker network name used by a container.
#[derive(Debug, PartialEq, Eq)]
pub struct DockerNetwork(String);

impl View for DockerNetwork {
    type V = Seq<char>;

    closed spec fn view(&self) -> Seq<char> {
        self.0@
    }
}

impl Clone for DockerNetwork {
    fn clone(&self) -> (r: Self)
        ensures
            r@ == self@,
    {
        DockerNetwork(self.0.clone())
    }
}

impl DockerNetwork {
    /// Creates a Docker network reference from a network name.
    pub fn new(name: &str) -> (r: Self)
        ensures
            r@ == name@,
    {
        DockerNetwork(name.to_owned())
    }

    /// Returns the Docker network name.
    pub fn name(&self) -> (r: &str)
        ensures
            r@ == self@,
    {
        self.0.as_str()
    }
}

/// The name of an optional network.
pub open spec fn opt_network(o: Option<DockerNetwork>) -> Option<Seq<char>> {
    match o {
        Some(network) => Some(network@),
        None => None,
    }
}

/// A Docker container managed as an effect.
#[derive(Debug, PartialEq, Eq)]
pub struct FxContainerDocker {
    name: String,
    image: Option<String>,
    command: Vec<String>,
    env: Vec<(String, String)>,
    network: Option<DockerNetwork>,
}

/// The model of a container.
#[verifier::ext_equal]
pub struct ContainerModel {
    pub name: Seq<char>,
    pub image: Option<Seq<char>>,
    pub command: Seq<Seq<char>>,
    pub env: Seq<(Seq<char>, Seq<char>)>,
    pub network: Option<Seq<char>>,
}

impl View for FxContainerDocker {
    type V = ContainerModel;

    closed spec fn view(&self) -> ContainerModel {
        ContainerModel {
            name: self.name@,
            image: opt_text(self.image),
            command: texts(self.command@),
            env: pairs(self.env@),
            network: opt_network(self.network),
        }
    }
}

impl Clone for FxContainerDocker {
    fn clone(&self) -> (r: Self)
        ensures
            r@ == self@,
    {
        FxContainerDocker {
            name: self.name.clone(),
            image: match &self.image {
                Some(image) => Some(image.clone()),
                None => None,
            },
            command: copy_strings(&self.command),
            env: copy_pairs(&self.env),
            network: match &self.network {
                Some(network) => Some(network.clone()),
                None => None,
            },
        }
    }
}

/// A container that is only known by its name.
pub open spec fn named_container(name: Seq<char>) -> ContainerModel {
    ContainerModel { name, image: None, command: seq![], env: seq![], network: None }
}

impl FxContainerDocker {
    /// Creates a Docker provider for an existing named container.
    pub fn new(name: &str) -> (r: Self)
        ensures
            r@ == named_container(name@),
    {
        FxContainerDocker {
            name: name.to_owned(),
            image: None,
            command: Vec::new(),
            env: Vec::new(),
            network: None,
        }
    }

    /// Creates a Docker provider that can create the named container from an
    /// image when it does not already exist.
    pub fn from_image(name: &str, image: &str) -> (r: Self)
        ensures
            r@ == (ContainerModel { image: Some(image@), ..named_container(name@) }),
    {
        let mut r = Self::new(name);
        r.set_image(image);
        r
    }

    /// Creates a Docker provider for an existing named container attached to a
    /// named Docker network.
    pub fn with_network(name: &str, network: DockerNetwork) -> (r: Self)
        ensures
            r@ == (ContainerModel { network: Some(network@), ..named_container(name@) }),
    {
        let mut r = Self::new(name);
        r.set_network(network);
        r
    }

    /// Sets the image used to create the container if it does not exist.
    pub fn set_image(&mut self, image: &str)
        ensures
            final(self)@ == (ContainerModel { image: Some(image@), ..old(self)@ }),
    {
        self.image = Some(image.to_owned());
    }

    /// Returns this provider with an image configured.
    pub fn image(self, image: &str) -> (r: Self)
        ensures
            r@ == (ContainerModel { image: Some(image@), ..self@ }),
    {
        let mut r = self;
        r.set_image(image);
        r
    }

    /// Sets the command appended after the image in `docker create`.
    pub fn set_command(&mut self, command: Vec<String>)
        ensures
            final(self)@ == (ContainerModel { command: texts(command@), ..old(self)@ }),
    {
        self.command = command;
    }

    /// Returns this provider with a container command configured.
    pub fn command(self, command: Vec<String>) -> (r: Self)
        ensures
            r@ == (ContainerModel { command: texts(command@), ..self@ }),
    {
        let mut r = self;
        r.set_command(command);
        r
    }

    /// Adds an environment variable passed to `docker create --env`.
    pub fn add_env(&mut self, name: &str, value: &str)
        ensures
            final(self)@ == (ContainerModel {
                env: old(self)@.env.push((name@, value@)),
                ..old(self)@
            }),
    {
        self.env.push((name.to_owned(), value.to_owned()));
        proof {
            assert(pairs(self.env@) =~= pairs(old(self).env@).push((name@, value@)));
        }
    }

    /// Returns this provider with an environment variable added.
    pub fn env(self, name: &str, value: &str) -> (r: Self)
        ensures
            r@ == (ContainerModel { env: self@.env.push((name@, value@)), ..self@ }),
    {
        let mut r = self;
        r.add_env(name, value);
        r
    }

    /// Sets the network used on allocation and by `docker create`.
    pub fn set_network(&mut self, network: DockerNetwork)
        ensures
            final(self)@ == (ContainerModel { network: Some(network@), ..old(self)@ }),
    {
        self.network = Some(network);
    }

    /// Returns this provider attached to a Docker network.
    pub fn networked(self, network: DockerNetwork) -> (r: Self)
        ensures
            r@ == (ContainerModel { network: Some(network@), ..self@ }),
    {
        let mut r = self;
        r.set_network(network);
        r
    }

    /// Returns the managed container name.
    pub fn name(&self) -> (r: &str)
        ensures
            r@ == self@.name,
    {
        self.name.as_str()
    }

    /// The provider-local identifier: the container name.
    pub fn id(&self) -> (r: String)
        ensures
            r@ == self@.name,
    {
        self.name.clone()
    }

    /// Returns the configured image, if this provider can create containers.
    pub fn image_ref(&self) -> (r: Option<&str>)
        ensures
            r is Some == self@.image is Some,
            r is Some ==> r->0@ == self@.image->0,
    {
        match &self.image {
            Some(image) => Some(image.as_str()),
            None => None,
        }
    }

    /// Returns the configured container command.
    pub fn command_args(&self) -> (r: &[String])
        ensures
            texts(r@) == self@.command,
    {
        self.command.as_slice()
    }

    /// Returns configured environment variables.
    pub fn env_vars(&self) -> (r: &[(String, String)])
        ensures
            pairs(r@) == self@.env,
    {
        self.env.as_slice()
    }

    /// Returns the configured Docker network, if any.
    pub fn network(&self) -> (r: Option<&DockerNetwork>)
        ensures
            r is Some == self@.network is Some,
            r is Some ==> r->0@ == self@.network->0,
    {
        self.network.as_ref()
    }
}

/// The `--env` options for a row of environment variables.
pub open spec fn env_words(env: Seq<(Seq<char>, Seq<char>)>) -> Seq<Seq<char>>
    decreases env.len(),
{
    if env.len() == 0 {
        seq![]
    } else {
        env_words(env.drop_last()) + seq!["--env"@, env.last().0 + "="@ + env.last().1]
    }
}

/// The words of `docker create`: the name, the network, the environment, the
/// image, and then the command.
pub open spec fn create_words(
    name: Seq<char>,
    image: Seq<char>,
    network: Option<Seq<char>>,
    env: Seq<(Seq<char>, Seq<char>)>,
    command: Seq<Seq<char>>,
) -> Seq<Seq<char>> {
    seq!["create"@, "--name"@, name] + (match network {
        Some(n) => seq!["--network"@, n],
        None => seq![],
    }) + env_words(env) + seq![image] + command
}

/// The arguments of `docker create`.
pub fn docker_create_args(
    name: &str,
    image: &str,
    network: Option<&DockerNetwork>,
    env: &[(String, String)],
    command: &[String],
) -> (r: Vec<String>)
    ensures
        texts(r@) == create_words(
            name@,
            image@,
            match network {
                Some(n) => Some(n@),
                None => None,
            },
            pairs(env@),
            texts(command@),
        ),
{
    let mut args: Vec<String> = Vec::new();
    args.push("create".to_owned());
    args.push("--name".to_owned());
    args.push(name.to_owned());
    let ghost mut words = seq!["create"@, "--name"@, name@];
    assert(texts(args@) =~= words);
    if let Some(n) = network {
        args.push("--network".to_owned());
        args.push(n.name().to_owned());
        proof {
            words = words + seq!["--network"@, n@];
        }
        assert(texts(args@) =~= words);
    } else {
        proof {
            words = words + Seq::<Seq<char>>::empty();
        }
        assert(texts(args@) =~= words);
    }
    proof {
        assert(env_words(pairs(env@).take(0)) =~= Seq::<Seq<char>>::empty());
        assert(words + env_words(pairs(env@).take(0)) =~= words);
    }
    for i in 0..env.len()
        invariant
            texts(args@) == words + env_words(pairs(env@).take(i as int)),
    {
        args.push("--env".to_owned());
        args.push(cat3(env[i].0.as_str(), "=", env[i].1.as_str()));
        proof {
            let p = pairs(env@);
            assert(p.take(i + 1).drop_last() =~= p.take(i as int));
            assert(p.take(i + 1).last() == (env@[i as int].0@, env@[i as int].1@));
            assert(texts(args@) =~= words + env_words(p.take(i + 1)));
        }
    }
    proof {
        assert(pairs(env@).take(env@.len() as int) =~= pairs(env@));
    }
    args.push(image.to_owned());
    let ghost front = texts(args@);
    for i in 0..command.len()
        invariant
            texts(args@) == front + texts(command@).take(i as int),
    {
        args.push(command[i].clone());
        proof {
            assert(front + texts(command@).take(i + 1) =~= (front + texts(command@).take(i as int)).push(
                command@[i as int]@,
            ));
        }
    }
    proof {
        assert(texts(command@).take(command@.len() as int) =~= texts(command@));
        assert(texts(args@) =~= words + env_words(pairs(env@)) + seq![image@] + texts(command@));
    }
    args
}

/// A container name without the slash that Docker puts before it.
pub open spec fn plain_name(name: Seq<char>) -> Seq<char> {
    if name.len() > 0 && name[0] == '/' {
        name.skip(1)
    } else {
        name
    }
}

/// A container name without the slash that Docker puts before it.
pub fn trim_docker_name(name: &str) -> (r: String)
    ensures
        r@ == plain_name(name@),
{
    let n: usize = name.unicode_len();
    if n > 0 && name.get_char(0) == '/' {
        proof {
            assert(name@.skip(1) =~= name@.subrange(1, n as int));
        }
        name.substring_char(1, n).to_owned()
    } else {
        name.to_owned()
    }
}

/// Errors returned while controlling Docker.
#[derive(Debug)]
pub enum FxDockerError {
    /// Docker CLI process failed to spawn or timed out.
    Command(CommandRanError),
    /// Docker CLI exited unsuccessfully.
    DockerExit { command: String, status: ExitStatus, stderr: String },
    /// Docker returned JSON that could not be parsed.
    Json { command: String, source: String },
    /// Docker did not return the expected field.
    MissingField { command: String, field: &'static str },
    /// Container creation was requested without an image.
    ContainerMissingNoImage(String),
    /// A create operation needs an image but none is configured.
    MissingImage,
}

/// The kinds of resource that Docker can fail to find.
#[derive(Clone, Copy, Debug, PartialEq, Eq, Structural)]
pub enum DockerResourceKind {
    Container,
    Image,
    Network,
}

/// The text that `String::from_utf8_lossy` reads from bytes.
pub uninterp spec fn lossy_text(bytes: Seq<u8>) -> Seq<char>;

/// `String::from_utf8_lossy` reads bytes as UTF-8; valid bytes are read exactly.
#[verifier::external_body]
fn from_utf8_lossy(bytes: &[u8]) -> (r: String)
    ensures
        r@ == lossy_text(bytes@),
        vstd::utf8::valid_utf8(bytes@) ==> r@ == vstd::utf8::decode_utf8(bytes@),
{
    String::from_utf8_lossy(bytes).into_owned()
}

/// The result of a Docker command that ran.
///
/// Only an exit with success yields the output; any other exit is reported with
/// the words of the command and what it wrote to standard error.
pub fn docker_with_timeout(
    args: &Vec<String>,
    ran: Result<CommandRanResult, CommandRanError>,
) -> (r: Result<Vec<u8>, FxDockerError>)
    ensures
        match ran {
            Err(err) => r == Err::<Vec<u8>, FxDockerError>(FxDockerError::Command(err)),
            Ok(result) => if result.output.status.raw == 0 {
                r == Ok::<Vec<u8>, FxDockerError>(result.output.stdout)
            } else {
                r matches Err(FxDockerError::DockerExit { command, status, stderr }) && command@
                    == joined(texts(args@), " "@) && status == result.output.status && stderr@
                    == trimmed(lossy_text(result.output.stderr@))
            },
        },
{
    match ran {
        Err(err) => Err(FxDockerError::Command(err)),
        Ok(result) => {
            let stderr = from_utf8_lossy(result.output.stderr.as_slice());
            docker_exit(args, result, stderr)
        },
    }
}

/// The result of a Docker command, given the text of its standard error.
pub fn docker_exit(args: &Vec<String>, result: CommandRanResult, stderr: String) -> (r: Result<
    Vec<u8>,
    FxDockerError,
>)
    ensures
        if result.output.status.raw == 0 {
            r == Ok::<Vec<u8>, FxDockerError>(result.output.stdout)
        } else {
            r matches Err(FxDockerError::DockerExit { command, status, stderr: s }) && command@
                == joined(texts(args@), " "@) && status == result.output.status && s@ == trimmed(
                stderr@,
            )
        },
{
    if result.output.status.success() {
        Ok(result.output.stdout)
    } else {
        Err(
            FxDockerError::DockerExit {
                command: join_texts(args, " "),
                status: result.output.status,
                stderr: trim_text(stderr.as_str()),
            },
        )
    }
}

/// Whether a message of Docker says that a resource does not exist.
pub open spec fn says_not_found(stderr: Seq<char>, kind: DockerResourceKind) -> bool {
    let s = lower_text(stderr);
    match kind {
        DockerResourceKind::Container => contains(s, "no such container"@),
        DockerResourceKind::Image => contains(s, "no such image"@) || contains(
            s,
            "no such object"@,
        ),
        DockerResourceKind::Network => contains(s, "no such network"@),
    }
}

/// Whether an error says that a resource does not exist: Docker ran, and said
/// so.
pub open spec fn is_not_found(err: FxDockerError, kind: DockerResourceKind) -> bool {
    err matches FxDockerError::DockerExit { stderr, .. } && says_not_found(stderr@, kind)
}

/// Whether an error says that a resource does not exist.
pub fn docker_not_found(err: &FxDockerError, kind: DockerResourceKind) -> (r: bool)
    ensures
        r == is_not_found(*err, kind),
{
    match err {
        FxDockerError::DockerExit { stderr, .. } => {
            let s = to_lower_text(stderr.as_str());
            match kind {
                DockerResourceKind::Container => contains_text(s.as_str(), "no such container"),
                DockerResourceKind::Image => contains_text(s.as_str(), "no such image")
                    || contains_text(s.as_str(), "no such object"),
                DockerResourceKind::Network => contains_text(s.as_str(), "no such network"),
            }
        },
        _ => false,
    }
}

/// What `docker container inspect` tells of a container.
#[derive(Debug)]
pub struct DockerInspectContainer {
    /// The container id.
    pub id: String,
    /// The container name, as Docker writes it.
    pub name: String,
    /// The state of the container.
    pub state: DockerInspectState,
}

/// The state of a container.
#[derive(Debug)]
pub struct DockerInspectState {
    /// The pid of the main process.
    pub pid: u32,
    /// Whether the container is running.
    pub running: bool,
    /// Whether the container is paused.
    pub paused: bool,
    /// The state in a word.
    pub status: String,
    /// When the container was started.
    pub started_at: String,
}

/// The container that `docker container inspect` tells of: the last of the list.
pub fn inspect_container(inspected: Result<Vec<DockerInspectContainer>, String>) -> (r: Result<
    DockerInspectContainer,
    FxDockerError,
>)
    ensures
        match inspected {
            Err(source) => r matches Err(FxDockerError::Json { command, source: s }) && command@
                == "container inspect"@ && s == source,
            Ok(list) => if list@.len() > 0 {
                r == Ok::<DockerInspectContainer, FxDockerError>(list@.last())
            } else {
                r matches Err(FxDockerError::MissingField { command, field }) && command@
                    == "container inspect"@ && field@ == "container"@
            },
        },
{
    match inspected {
        Err(source) => Err(FxDockerError::Json { command: "container inspect".to_owned(), source }),
        Ok(list) => {
            let mut list = list;
            match list.pop() {
                Some(container) => Ok(container),
                None => Err(
                    FxDockerError::MissingField {
                        command: "container inspect".to_owned(),
                        field: "container",
                    },
                ),
            }
        },
    }
}

/// The execution state that an inspection shows.
pub open spec fn inspected_state(state: DockerInspectState) -> StateModel {
    if state.running {
        StateModel::Running(state.pid)
    } else if state.paused {
        StateModel::Paused(state.pid)
    } else if lower_text(state.status@) == lower_text("exited"@) || lower_text(state.status@)
        == lower_text("created"@) {
        StateModel::Stopped
    } else {
        StateModel::Unknown
    }
}

/// The execution state that an inspection shows.
pub fn inspect_to_state(inspect: &DockerInspectContainer) -> (r: FxExecutionState)
    ensures
        r@ == inspected_state(inspect.state),
{
    if inspect.state.running {
        FxExecutionState::Running(inspect.state.pid)
    } else if inspect.state.paused {
        FxExecutionState::Paused(inspect.state.pid)
    } else if same_text_ignoring_case(inspect.state.status.as_str(), "exited")
        || same_text_ignoring_case(inspect.state.status.as_str(), "created") {
        FxExecutionState::Stopped
    } else {
        FxExecutionState::Unknown
    }
}

/// What a run of Docker commands is for.
#[derive(Clone, Copy, Debug, PartialEq, Eq, Structural)]
pub enum DockerGoal {
    /// Network and image are to be available.
    Allocate,
    /// The container is to be running.
    Start,
}

/// How far a run of Docker commands has come.
#[derive(Clone, Copy, Debug, PartialEq, Eq, Structural)]
pub enum DockerPhase {
    /// It is to be found out whether the network exists.
    InspectNetwork,
    /// The network is to be created.
    CreateNetwork,
    /// It is to be found out whether the container exists.
    FindContainer,
    /// It is to be found out whether the image is present.
    InspectImage,
    /// The image is to be pulled.
    PullImage,
    /// The container is to be created.
    CreateContainer,
    /// The container is to be inspected before the start.
    InspectContainer,
    /// The container is to be started.
    StartContainer,
    /// The container is to be inspected after the start.
    InspectStarted,
    /// Network and image are available.
    Allocated,
    /// The container is running.
    Started,
    /// The container does not exist, and there is no image to create it from.
    NoImage,
    /// A Docker command failed.
    Failed,
}

/// What came back from a Docker command.
#[derive(Debug)]
pub enum DockerAnswer {
    /// Whether the command succeeded.
    Ran(Result<(), FxDockerError>),
    /// What the inspection told.
    Inspected(Result<DockerInspectContainer, FxDockerError>),
}

/// A run of Docker commands towards a goal.
#[derive(Debug)]
pub struct DockerRun {
    /// The container.
    pub container: FxContainerDocker,
    /// What the run is for.
    pub goal: DockerGoal,
    /// How far the run has come.
    pub phase: DockerPhase,
    /// Whether this run created the container.
    pub created: bool,
    /// The last inspection.
    pub inspected: Option<DockerInspectContainer>,
    /// The error that ended the run.
    pub failure: Option<FxDockerError>,
}

impl DockerRun {
    /// The run in another phase.
    pub open spec fn in_phase(self, phase: DockerPhase) -> DockerRun {
        DockerRun { phase, ..self }
    }

    /// The run ended by an error.
    pub open spec fn failed(self, err: FxDockerError) -> DockerRun {
        DockerRun { phase: DockerPhase::Failed, failure: Some(err), ..self }
    }

    /// The phase that follows once the network is there.
    pub open spec fn with_network(self) -> DockerPhase {
        match self.goal {
            DockerGoal::Start => DockerPhase::FindContainer,
            DockerGoal::Allocate => if self.container@.image is Some {
                DockerPhase::InspectImage
            } else {
                DockerPhase::Allocated
            },
        }
    }

    /// The phase that follows once the image is there.
    pub open spec fn with_image(self) -> DockerPhase {
        match self.goal {
            DockerGoal::Start => DockerPhase::CreateContainer,
            DockerGoal::Allocate => DockerPhase::Allocated,
        }
    }

    /// The run after a command that asks whether a resource exists.
    pub open spec fn after_look(
        self,
        ran: Result<(), FxDockerError>,
        kind: DockerResourceKind,
        found: DockerPhase,
        missing: DockerPhase,
    ) -> DockerRun {
        match ran {
            Ok(()) => self.in_phase(found),
            Err(err) => if is_not_found(err, kind) {
                self.in_phase(missing)
            } else {
                self.failed(err)
            },
        }
    }

    /// The run after a command that is to succeed.
    pub open spec fn after_work(self, ran: Result<(), FxDockerError>, next: DockerPhase) -> DockerRun {
        match ran {
            Ok(()) => self.in_phase(next),
            Err(err) => self.failed(err),
        }
    }

    /// The run after an answer; an answer of the wrong kind changes nothing.
    pub open spec fn after(self, answer: DockerAnswer) -> DockerRun {
        match (self.phase, answer) {
            (DockerPhase::InspectNetwork, DockerAnswer::Ran(ran)) => self.after_look(
                ran,
                DockerResourceKind::Network,
                self.with_network(),
                DockerPhase::CreateNetwork,
            ),
            (DockerPhase::CreateNetwork, DockerAnswer::Ran(ran)) => self.after_work(
                ran,
                self.with_network(),
            ),
            (DockerPhase::FindContainer, DockerAnswer::Ran(ran)) => self.after_look(
                ran,
                DockerResourceKind::Container,
                DockerPhase::InspectContainer,
                if self.container@.image is Some {
                    DockerPhase::InspectImage
                } else {
                    DockerPhase::NoImage
                },
            ),
            (DockerPhase::InspectImage, DockerAnswer::Ran(ran)) => self.after_look(
                ran,
                DockerResourceKind::Image,
                self.with_image(),
                DockerPhase::PullImage,
            ),
            (DockerPhase::PullImage, DockerAnswer::Ran(ran)) => self.after_work(
                ran,
                self.with_image(),
            ),
            (DockerPhase::CreateContainer, DockerAnswer::Ran(ran)) => match ran {
                Ok(()) => DockerRun {
                    created: true,
                    phase: DockerPhase::InspectContainer,
                    ..self
                },
                Err(err) => self.failed(err),
            },
            (DockerPhase::InspectContainer, DockerAnswer::Inspected(inspected)) => match inspected {
                Ok(container) => if container.state.running {
                    self.in_phase(DockerPhase::InspectStarted)
                } else {
                    self.in_phase(DockerPhase::StartContainer)
                },
                Err(err) => self.failed(err),
            },
            (DockerPhase::StartContainer, DockerAnswer::Ran(ran)) => self.after_work(
                ran,
                DockerPhase::InspectStarted,
            ),
            (DockerPhase::InspectStarted, DockerAnswer::Inspected(inspected)) => match inspected {
                Ok(container) => DockerRun {
                    inspected: Some(container),
                    phase: DockerPhase::Started,
                    ..self
                },
                Err(err) => self.failed(err),
            },
            _ => self,
        }
    }

    fn phase_with_network(&self) -> (r: DockerPhase)
        ensures
            r == self.with_network(),
    {
        match self.goal {
            DockerGoal::Start => DockerPhase::FindContainer,
            DockerGoal::Allocate => if self.container.image_ref().is_some() {
                DockerPhase::InspectImage
            } else {
                DockerPhase::Allocated
            },
        }
    }

    fn phase_with_image(&self) -> (r: DockerPhase)
        ensures
            r == self.with_image(),
    {
        match self.goal {
            DockerGoal::Start => DockerPhase::CreateContainer,
            DockerGoal::Allocate => DockerPhase::Allocated,
        }
    }

    fn looked(
        &mut self,
        ran: Result<(), FxDockerError>,
        kind: DockerResourceKind,
        found: DockerPhase,
        missing: DockerPhase,
    )
        ensures
            *final(self) == old(self).after_look(ran, kind, found, missing),
    {
        match ran {
            Ok(()) => {
                self.phase = found;
            },
            Err(err) => if docker_not_found(&err, kind) {
                self.phase = missing;
            } else {
                self.phase = DockerPhase::Failed;
                self.failure = Some(err);
            },
        }
    }

    fn worked(&mut self, ran: Result<(), FxDockerError>, next: DockerPhase)
        ensures
            *final(self) == old(self).after_work(ran, next),
    {
        match ran {
            Ok(()) => {
                self.phase = next;
            },
            Err(err) => {
                self.phase = DockerPhase::Failed;
                self.failure = Some(err);
            },
        }
    }

    /// Takes in what came back from the current command.
    pub fn advance(&mut self, answer: DockerAnswer)
        ensures
            *final(self) == old(self).after(answer),
    {
        match (self.phase, answer) {
            (DockerPhase::InspectNetwork, DockerAnswer::Ran(ran)) => {
                let found = self.phase_with_network();
                self.looked(ran, DockerResourceKind::Network, found, DockerPhase::CreateNetwork);
            },
            (DockerPhase::CreateNetwork, DockerAnswer::Ran(ran)) => {
                let next = self.phase_with_network();
                self.worked(ran, next);
            },
            (DockerPhase::FindContainer, DockerAnswer::Ran(ran)) => {
                let missing = if self.container.image_ref().is_some() {
                    DockerPhase::InspectImage
                } else {
                    DockerPhase::NoImage
                };
                self.looked(
                    ran,
                    DockerResourceKind::Container,
                    DockerPhase::InspectContainer,
                    missing,
                );
            },
            (DockerPhase::InspectImage, DockerAnswer::Ran(ran)) => {
                let found = self.phase_with_image();
                self.looked(ran, DockerResourceKind::Image, found, DockerPhase::PullImage);
            },
            (DockerPhase::PullImage, DockerAnswer::Ran(ran)) => {
                let next = self.phase_with_image();
                self.worked(ran, next);
            },
            (DockerPhase::CreateContainer, DockerAnswer::Ran(ran)) => {
                self.created = ran.is_ok() || self.created;
                self.worked(ran, DockerPhase::InspectContainer);
            },
            (DockerPhase::InspectContainer, DockerAnswer::Inspected(inspected)) => match inspected {
                Ok(container) => {
                    self.phase = if container.state.running {
                        DockerPhase::InspectStarted
                    } else {
                        DockerPhase::StartContainer
                    };
                },
                Err(err) => {
                    self.phase = DockerPhase::Failed;
                    self.failure = Some(err);
                },
            },
            (DockerPhase::StartContainer, DockerAnswer::Ran(ran)) => {
                self.worked(ran, DockerPhase::InspectStarted);
            },
            (DockerPhase::InspectStarted, DockerAnswer::Inspected(inspected)) => match inspected {
                Ok(container) => {
                    self.inspected = Some(container);
                    self.phase = DockerPhase::Started;
                },
                Err(err) => {
                    self.phase = DockerPhase::Failed;
                    self.failure = Some(err);
                },
            },
            _ => {},
        }
    }
}

/// The words of the Docker command that a phase calls for.
pub open spec fn phase_words(container: ContainerModel, phase: DockerPhase) -> Option<Seq<Seq<char>>> {
    match phase {
        DockerPhase::InspectNetwork => match container.network {
            Some(network) => Some(seq!["network"@, "inspect"@, network]),
            None => None,
        },
        DockerPhase::CreateNetwork => match container.network {
            Some(network) => Some(seq!["network"@, "create"@, network]),
            None => None,
        },
        DockerPhase::FindContainer | DockerPhase::InspectContainer | DockerPhase::InspectStarted => Some(
            seq!["container"@, "inspect"@, container.name],
        ),
        DockerPhase::InspectImage => match container.image {
            Some(image) => Some(seq!["image"@, "inspect"@, image]),
            None => None,
        },
        DockerPhase::PullImage => match container.image {
            Some(image) => Some(seq!["pull"@, image]),
            None => None,
        },
        DockerPhase::CreateContainer => match container.image {
            Some(image) => Some(
                create_words(
                    container.name,
                    image,
                    container.network,
                    container.env,
                    container.command,
                ),
            ),
            None => None,
        },
        DockerPhase::StartContainer => Some(seq!["start"@, container.name]),
        _ => None,
    }
}

fn words2(a: &str, b: &str) -> (r: Vec<String>)
    ensures
        texts(r@) == seq![a@, b@],
{
    let mut v: Vec<String> = Vec::new();
    v.push(a.to_owned());
    v.push(b.to_owned());
    proof {
        assert(texts(v@) =~= seq![a@, b@]);
    }
    v
}

fn words3(a: &str, b: &str, c: &str) -> (r: Vec<String>)
    ensures
        texts(r@) == seq![a@, b@, c@],
{
    let mut v = words2(a, b);
    v.push(c.to_owned());
    proof {
        assert(texts(v@) =~= seq![a@, b@, c@]);
    }
    v
}

/// The texts of an optional row of strings.
pub open spec fn opt_texts(o: Option<Vec<String>>) -> Option<Seq<Seq<char>>> {
    match o {
        Some(v) => Some(texts(v@)),
        None => None,
    }
}

impl FxContainerDocker {
    /// The words of the command that creates the container; without an image
    /// there is none.
    pub fn create_container(&self) -> (r: Result<Vec<String>, FxDockerError>)
        ensures
            match self@.image {
                Some(image) => r is Ok && texts(r->Ok_0@) == create_words(
                    self@.name,
                    image,
                    self@.network,
                    self@.env,
                    self@.command,
                ),
                None => r is Err && r->Err_0 is MissingImage,
            },
    {
        match &self.image {
            Some(image) => Ok(
                docker_create_args(
                    self.name.as_str(),
                    image.as_str(),
                    self.network.as_ref(),
                    self.env.as_slice(),
                    self.command.as_slice(),
                ),
            ),
            None => Err(FxDockerError::MissingImage),
        }
    }

    /// Begins to make network and image available.
    pub fn fx_allocate(self) -> (r: DockerRun)
        ensures
            r.container == self,
            r.goal is Allocate,
            r.phase == (if self@.network is Some {
                DockerPhase::InspectNetwork
            } else if self@.image is Some {
                DockerPhase::InspectImage
            } else {
                DockerPhase::Allocated
            }),
            !r.created && r.inspected is None && r.failure is None,
    {
        let phase = if self.network.is_some() {
            DockerPhase::InspectNetwork
        } else if self.image.is_some() {
            DockerPhase::InspectImage
        } else {
            DockerPhase::Allocated
        };
        DockerRun {
            container: self,
            goal: DockerGoal::Allocate,
            phase,
            created: false,
            inspected: None,
            failure: None,
        }
    }

    /// Begins to start the container, creating it first where it is missing.
    pub fn fx_start(self) -> (r: DockerRun)
        ensures
            r.container == self,
            r.goal is Start,
            r.phase == (if self@.network is Some {
                DockerPhase::InspectNetwork
            } else {
                DockerPhase::FindContainer
            }),
            !r.created && r.inspected is None && r.failure is None,
    {
        let phase = if self.network.is_some() {
            DockerPhase::InspectNetwork
        } else {
            DockerPhase::FindContainer
        };
        DockerRun {
            container: self,
            goal: DockerGoal::Start,
            phase,
            created: false,
            inspected: None,
            failure: None,
        }
    }

    /// The words of the command that asks for the state of the container.
    pub fn inspect(&self) -> (r: Vec<String>)
        ensures
            texts(r@) == seq!["container"@, "inspect"@, self@.name],
    {
        words3("container", "inspect", self.name.as_str())
    }

    /// The words of the command that stops the container.
    pub fn fx_stop(&self) -> (r: Vec<String>)
        ensures
            texts(r@) == seq!["stop"@, self@.name],
    {
        words2("stop", self.name.as_str())
    }

    /// The words of the command that removes the container, running or not.
    pub fn fx_destroy(&self) -> (r: Vec<String>)
        ensures
            texts(r@) == seq!["rm"@, "--force"@, self@.name],
    {
        words3("rm", "--force", self.name.as_str())
    }

    /// The image that the container is archived to, and the words of the
    /// command that does it.
    pub fn fx_archive(&self) -> (r: (String, Vec<String>))
        ensures
            r.0@ == "becky-archive:"@ + self@.name,
            texts(r.1@) == seq!["commit"@, self@.name, r.0@],
    {
        let image_ref = cat2("becky-archive:", self.name.as_str());
        let words = words3("commit", self.name.as_str(), image_ref.as_str());
        (image_ref, words)
    }

    /// The words of the command that waits for the container to stop.
    pub fn wait(&self) -> (r: Vec<String>)
        ensures
            texts(r@) == seq!["wait"@, self@.name],
    {
        words2("wait", self.name.as_str())
    }

    /// The words of the command that reports the use of resources once.
    pub fn container_stats(&self) -> (r: Vec<String>)
        ensures
            texts(r@) == seq!["stats"@, "--no-stream"@, "--format"@, "{{json .}}"@, self@.name],
    {
        let mut v = words3("stats", "--no-stream", "--format");
        v.push("{{json .}}".to_owned());
        v.push(self.name.clone());
        proof {
            assert(texts(v@) =~= seq![
                "stats"@,
                "--no-stream"@,
                "--format"@,
                "{{json .}}"@,
                self@.name,
            ]);
        }
        v
    }
}

/// The use of time by a container: Docker tells only that it runs, so a
/// running container with a start time counts as one.
pub fn run_time(inspected: &Result<DockerInspectContainer, FxDockerError>) -> (r: u64)
    ensures
        r == (match inspected {
            Ok(container) => if container.state.running && !begins_with(
                container.state.started_at@,
                "0001-"@,
            ) {
                1u64
            } else {
                0u64
            },
            Err(_) => 0u64,
        }),
{
    match inspected {
        Ok(container) => if container.state.running && !begins_with_text(
            container.state.started_at.as_str(),
            "0001-",
        ) {
            1
        } else {
            0
        },
        Err(_) => 0,
    }
}

/// The use of resources that Docker reports.
#[derive(Debug, PartialEq, Eq)]
pub struct DockerStats {
    /// The memory in use, a slash and the limit.
    pub mem_usage: String,
    /// What was read, a slash and what was written.
    pub block_io: String,
}

/// The use of processor time by a container, which Docker does not tell.
pub fn accumulated_cpu_time() -> (r: u64)
    ensures
        r == 0,
{
    0
}

/// The use of memory by a container, in bytes; zero if Docker does not tell.
pub fn memory(stats: &Result<DockerStats, FxDockerError>) -> (r: u64)
    ensures
        r == (match stats {
            Ok(stats) => size_or_zero(split_first(stats.mem_usage@, '/').0),
            Err(_) => 0u64,
        }),
{
    match stats {
        Ok(stats) => parse_first_docker_size_bytes(stats.mem_usage.as_str()),
        Err(_) => 0,
    }
}

/// The use of virtual memory by a container, which is that of memory.
pub fn virtual_memory(stats: &Result<DockerStats, FxDockerError>) -> (r: u64)
    ensures
        r == (match stats {
            Ok(stats) => size_or_zero(split_first(stats.mem_usage@, '/').0),
            Err(_) => 0u64,
        }),
{
    memory(stats)
}

/// The use of disks by a container; nothing if Docker does not tell.
pub fn disk_usage(stats: &Result<DockerStats, FxDockerError>) -> (r: DiskUsage)
    ensures
        ({
            let (read, written) = match stats {
                Ok(stats) => (
                    size_or_zero(split_first(stats.block_io@, '/').0),
                    size_or_zero(second_part(stats.block_io@)),
                ),
                Err(_) => (0u64, 0u64),
            };
            r == (DiskUsage {
                total_written_bytes: written,
                written_bytes: written,
                total_read_bytes: read,
                read_bytes: read,
            })
        }),
{
    match stats {
        Ok(stats) => parse_block_io(stats.block_io.as_str()),
        Err(_) => DiskUsage {
            total_written_bytes: 0,
            written_bytes: 0,
            total_read_bytes: 0,
            read_bytes: 0,
        },
    }
}

/// A Docker container started or attached by this provider.
#[derive(Debug)]
pub struct DockerContainerHandle {
    /// Docker container id.
    pub id: String,
    /// Docker container name.
    pub name: String,
    /// Whether this invocation created the container.
    pub created: bool,
    /// The state observed last.
    pub latest_state: FxExecutionState,
}

/// The handle for an inspected container.
pub fn monitor_handle(inspect: &DockerInspectContainer, created: bool) -> (r: DockerContainerHandle)
    ensures
        r.id@ == inspect.id@,
        r.name@ == plain_name(inspect.name@),
        r.created == created,
        r.latest_state@ == inspected_state(inspect.state),
{
    DockerContainerHandle {
        id: inspect.id.clone(),
        name: trim_docker_name(inspect.name.as_str()),
        created,
        latest_state: inspect_to_state(inspect),
    }
}

/// The result of a look at the state of a container: the state is recorded in
/// the handle, and an error leaves the handle as it was.
pub fn fx_status(
    handle: &mut DockerContainerHandle,
    inspected: Result<DockerInspectContainer, FxDockerError>,
) -> (r: Result<FxExecutionState, FxDockerError>)
    ensures
        match inspected {
            Ok(container) => r is Ok && r->Ok_0@ == inspected_state(container.state)
                && *final(handle) == (DockerContainerHandle {
                latest_state: r->Ok_0,
                ..*old(handle)
            }),
            Err(err) => r == Err::<FxExecutionState, FxDockerError>(err) && *final(handle) == *old(
                handle,
            ),
        },
{
    match inspected {
        Ok(container) => {
            let state = inspect_to_state(&container);
            handle.latest_state = state.clone();
            Ok(state)
        },
        Err(err) => Err(err),
    }
}

impl DockerRun {
    /// The words of the Docker command to run next.
    pub fn command_words(&self) -> (r: Option<Vec<String>>)
        ensures
            opt_texts(r) == phase_words(self.container@, self.phase),
    {
        match self.phase {
            DockerPhase::InspectNetwork => match self.container.network() {
                Some(network) => Some(words3("network", "inspect", network.name())),
                None => None,
            },
            DockerPhase::CreateNetwork => match self.container.network() {
                Some(network) => Some(words3("network", "create", network.name())),
                None => None,
            },
            DockerPhase::FindContainer | DockerPhase::InspectContainer
            | DockerPhase::InspectStarted => Some(self.container.inspect()),
            DockerPhase::InspectImage => match self.container.image_ref() {
                Some(image) => Some(words3("image", "inspect", image)),
                None => None,
            },
            DockerPhase::PullImage => match self.container.image_ref() {
                Some(image) => Some(words2("pull", image)),
                None => None,
            },
            DockerPhase::CreateContainer => match self.container.create_container() {
                Ok(words) => Some(words),
                Err(_) => None,
            },
            DockerPhase::StartContainer => Some(words2("start", self.container.name())),
            _ => None,
        }
    }

    /// The milliseconds that the next command may take.
    pub fn command_timeout(&self) -> (r: u64)
        ensures
            r == (if self.phase is PullImage {
                DOCKER_PULL_TIMEOUT
            } else {
                DOCKER_COMMAND_TIMEOUT
            }),
    {
        match self.phase {
            DockerPhase::PullImage => DOCKER_PULL_TIMEOUT,
            _ => DOCKER_COMMAND_TIMEOUT,
        }
    }

    /// The result of a start that has ended.
    pub fn started(self) -> (r: Option<Result<DockerContainerHandle, FxDockerError>>)
        ensures
            match self.phase {
                DockerPhase::Started => match self.inspected {
                    Some(inspect) => r matches Some(Ok(handle)) && handle.id@ == inspect.id@
                        && handle.name@ == plain_name(inspect.name@) && handle.created == self.created
                        && handle.latest_state@ == inspected_state(inspect.state),
                    None => r is None,
                },
                DockerPhase::NoImage => r matches Some(
                    Err(FxDockerError::ContainerMissingNoImage(name)),
                ) && name@ == self.container@.name,
                DockerPhase::Failed => match self.failure {
                    Some(err) => r == Some(Err::<DockerContainerHandle, FxDockerError>(err)),
                    None => r is None,
                },
                _ => r is None,
            },
    {
        match self.phase {
            DockerPhase::Started => match &self.inspected {
                Some(inspect) => Some(Ok(monitor_handle(inspect, self.created))),
                None => None,
            },
            DockerPhase::NoImage => Some(
                Err(FxDockerError::ContainerMissingNoImage(self.container.id())),
            ),
            DockerPhase::Failed => match self.failure {
                Some(err) => Some(Err(err)),
                None => None,
            },
            _ => None,
        }
    }

    /// The result of an allocation that has ended.
    pub fn allocated(self) -> (r: Option<Result<(), FxDockerError>>)
        ensures
            r == (match self.phase {
                DockerPhase::Allocated => Some(Ok::<(), FxDockerError>(())),
                DockerPhase::Failed => match self.failure {
                    Some(err) => Some(Err(err)),
                    None => None,
                },
                _ => None,
            }),
    {
        match self.phase {
            DockerPhase::Allocated => Some(Ok(())),
            DockerPhase::Failed => match self.failure {
                Some(err) => Some(Err(err)),
                None => None,
            },
            _ => None,
        }
    }
}

/// How many answers a run of Docker commands can still take in.
pub open spec fn docker_rank(phase: DockerPhase) -> nat {
    match phase {
        DockerPhase::InspectNetwork => 9,
        DockerPhase::CreateNetwork => 8,
        DockerPhase::FindContainer => 7,
        DockerPhase::InspectImage => 6,
        DockerPhase::PullImage => 5,
        DockerPhase::CreateContainer => 4,
        DockerPhase::InspectContainer => 3,
        DockerPhase::StartContainer => 2,
        DockerPhase::InspectStarted => 1,
        _ => 0,
    }
}

/// Whether an answer is of the kind that a phase waits for.
pub open spec fn docker_asks(phase: DockerPhase, answer: DockerAnswer) -> bool {
    match phase {
        DockerPhase::InspectContainer | DockerPhase::InspectStarted => answer is Inspected,
        _ => docker_rank(phase) > 0 && answer is Ran,
    }
}

/// What holds of a run of Docker commands from its beginning to its end.
pub open spec fn docker_inv(run: DockerRun) -> bool {
    &&& run.phase is InspectNetwork || run.phase is CreateNetwork ==> run.container@.network is Some
    &&& run.phase is InspectImage || run.phase is PullImage || run.phase is CreateContainer
        ==> run.container@.image is Some
    &&& run.phase is NoImage ==> run.container@.image is None
    &&& run.created ==> run.container@.image is Some
    &&& run.phase is Started <==> run.inspected is Some
    &&& run.phase is Failed <==> run.failure is Some
    &&& run.goal is Allocate ==> {
        ||| run.phase is InspectNetwork
        ||| run.phase is CreateNetwork
        ||| run.phase is InspectImage
        ||| run.phase is PullImage
        ||| run.phase is Allocated
        ||| run.phase is Failed
    }
    &&& run.goal is Start ==> !(run.phase is Allocated)
}

/// Every answer keeps the invariant of a run and leaves its container and goal
/// as they were.
///
/// In particular a container is created only from a configured image, and an
/// allocation neither creates nor starts a container.
pub proof fn law_docker_run_keeps_invariant(run: DockerRun, answer: DockerAnswer)
    requires
        docker_inv(run),
    ensures
        docker_inv(run.after(answer)),
        run.after(answer).container == run.container,
        run.after(answer).goal == run.goal,
{
}

/// A run has a command to run exactly while it has not ended, every answer of
/// the right kind brings it nearer to its end, and no other changes it.
pub proof fn law_docker_run_ends(run: DockerRun, answer: DockerAnswer)
    requires
        docker_inv(run),
    ensures
        phase_words(run.container@, run.phase) is Some <==> docker_rank(run.phase) > 0,
        docker_asks(run.phase, answer) ==> docker_rank(run.after(answer).phase) < docker_rank(
            run.phase,
        ),
        !docker_asks(run.phase, answer) ==> run.after(answer) == run,
{
}

/// A missing container without an image is the one way for a start to end
/// without a container and without a failed command.
pub proof fn law_missing_container_needs_image(run: DockerRun, answer: DockerAnswer)
    requires
        docker_inv(run),
        !(run.phase is NoImage),
    ensures
        run.after(answer).phase is NoImage <==> run.phase is FindContainer && run.container@.image is None
            && (answer matches DockerAnswer::Ran(Err(err)) && is_not_found(
            err,
            DockerResourceKind::Container,
        )),
        run.after(answer).created && !run.created <==> run.phase is CreateContainer && !run.created
            && (answer matches DockerAnswer::Ran(Ok(_))),
{
}

/// What became of the wait for a container to stop.
#[derive(Clone, Copy, Debug, PartialEq, Eq, Structural)]
pub enum MonitorWaitAction {
    /// The container stopped.
    Stopped,
    /// The monitor was cancelled.
    Cancelled,
    /// The wait did not work and is to be tried again.
    Retry,
}

/// How a `docker wait` ended.
#[derive(Debug)]
pub enum WaitEnd {
    /// The program could not be started.
    NotSpawned,
    /// The monitor was cancelled meanwhile.
    Cancelled,
    /// The program exited.
    Exited(ExitStatus),
    /// The program could not be waited for.
    NotWaited,
}

/// What the end of a `docker wait` means for the monitor.
pub fn wait_for_container_stop(end: &WaitEnd) -> (r: MonitorWaitAction)
    ensures
        r is Stopped <==> (end matches WaitEnd::Exited(status) && status.raw == 0),
        r is Cancelled <==> end is Cancelled,
{
    match end {
        WaitEnd::NotSpawned => MonitorWaitAction::Retry,
        WaitEnd::Cancelled => MonitorWaitAction::Cancelled,
        WaitEnd::Exited(status) => if status.success() {
            MonitorWaitAction::Stopped
        } else {
            MonitorWaitAction::Retry
        },
        WaitEnd::NotWaited => MonitorWaitAction::Retry,
    }
}

/// What a monitor does next.
#[derive(Clone, Copy, Debug, PartialEq, Eq, Structural)]
pub enum MonitorPhase {
    /// Inspect the container.
    Inspect,
    /// Wait for the running container to stop.
    Wait,
    /// Inspect the container that stopped.
    InspectStopped,
    /// Pause, without listening to a cancellation.
    Pause,
    /// Pause until the time is up or the monitor is cancelled.
    PauseOrCancel,
    /// Nothing: the monitor has ended.
    Ended,
}

/// What a monitor is told.
#[derive(Debug)]
pub enum MonitorEvent {
    /// What an inspection told.
    Inspected(Result<DockerInspectContainer, FxDockerError>),
    /// How the wait for the container ended.
    Waited(MonitorWaitAction),
    /// The pause is over.
    Paused,
    /// The monitor was cancelled.
    Cancelled,
}

/// The monitor of a container: it keeps the state observed last.
#[derive(Debug)]
pub struct Monitor {
    /// What the monitor does next.
    pub phase: MonitorPhase,
    /// The state observed last.
    pub latest_state: FxExecutionState,
}

/// The model of a monitor.
pub struct MonitorModel {
    pub phase: MonitorPhase,
    pub latest_state: StateModel,
}

impl View for Monitor {
    type V = MonitorModel;

    open spec fn view(&self) -> MonitorModel {
        MonitorModel { phase: self.phase, latest_state: self.latest_state@ }
    }
}

/// The state that an inspection shows, where a failed inspection shows nothing.
pub open spec fn monitored_state(
    inspected: Result<DockerInspectContainer, FxDockerError>,
) -> StateModel {
    match inspected {
        Ok(container) => inspected_state(container.state),
        Err(_) => StateModel::Unknown,
    }
}

impl MonitorModel {
    /// The monitor after an event; an event that it does not wait for changes
    /// nothing.
    pub open spec fn after(self, event: MonitorEvent) -> MonitorModel {
        match (self.phase, event) {
            (MonitorPhase::Inspect, MonitorEvent::Inspected(inspected)) => MonitorModel {
                phase: if monitored_state(inspected) is Running {
                    MonitorPhase::Wait
                } else {
                    MonitorPhase::PauseOrCancel
                },
                latest_state: monitored_state(inspected),
            },
            (MonitorPhase::Wait, MonitorEvent::Waited(action)) => MonitorModel {
                phase: match action {
                    MonitorWaitAction::Stopped => MonitorPhase::InspectStopped,
                    MonitorWaitAction::Cancelled => MonitorPhase::Ended,
                    MonitorWaitAction::Retry => MonitorPhase::Pause,
                },
                ..self
            },
            (MonitorPhase::InspectStopped, MonitorEvent::Inspected(inspected)) => MonitorModel {
                phase: MonitorPhase::Inspect,
                latest_state: monitored_state(inspected),
            },
            (MonitorPhase::Pause, MonitorEvent::Paused) => MonitorModel {
                phase: MonitorPhase::Inspect,
                ..self
            },
            (MonitorPhase::PauseOrCancel, MonitorEvent::Paused) => MonitorModel {
                phase: MonitorPhase::Inspect,
                ..self
            },
            (MonitorPhase::PauseOrCancel, MonitorEvent::Cancelled) => MonitorModel {
                phase: MonitorPhase::Ended,
                ..self
            },
            _ => self,
        }
    }
}

/// Begins to monitor a container that was last seen in the given state.
pub fn monitor_container(latest_state: FxExecutionState) -> (r: Monitor)
    ensures
        r.phase is Inspect,
        r.latest_state == latest_state,
{
    Monitor { phase: MonitorPhase::Inspect, latest_state }
}

impl Monitor {
    fn observe(&mut self, inspected: &Result<DockerInspectContainer, FxDockerError>)
        ensures
            final(self).phase == old(self).phase,
            final(self).latest_state@ == monitored_state(*inspected),
    {
        self.latest_state = match inspected {
            Ok(container) => inspect_to_state(container),
            Err(_) => FxExecutionState::Unknown,
        };
    }

    /// Takes in an event.
    pub fn advance(&mut self, event: MonitorEvent)
        ensures
            final(self)@ == old(self)@.after(event),
    {
        match (self.phase, event) {
            (MonitorPhase::Inspect, MonitorEvent::Inspected(inspected)) => {
                self.observe(&inspected);
                self.phase = match &self.latest_state {
                    FxExecutionState::Running(_) => MonitorPhase::Wait,
                    _ => MonitorPhase::PauseOrCancel,
                };
            },
            (MonitorPhase::Wait, MonitorEvent::Waited(action)) => {
                self.phase = match action {
                    MonitorWaitAction::Stopped => MonitorPhase::InspectStopped,
                    MonitorWaitAction::Cancelled => MonitorPhase::Ended,
                    MonitorWaitAction::Retry => MonitorPhase::Pause,
                };
            },
            (MonitorPhase::InspectStopped, MonitorEvent::Inspected(inspected)) => {
                self.observe(&inspected);
                self.phase = MonitorPhase::Inspect;
            },
            (MonitorPhase::Pause, MonitorEvent::Paused) => {
                self.phase = MonitorPhase::Inspect;
            },
            (MonitorPhase::PauseOrCancel, MonitorEvent::Paused) => {
                self.phase = MonitorPhase::Inspect;
            },
            (MonitorPhase::PauseOrCancel, MonitorEvent::Cancelled) => {
                self.phase = MonitorPhase::Ended;
            },
            _ => {},
        }
    }
}

/// A monitor ends only when it is cancelled, never goes on after that, and
/// waits for a container to stop only while that container runs.
pub proof fn law_monitor(monitor: MonitorModel, event: MonitorEvent)
    requires
        monitor.phase is Wait ==> monitor.latest_state is Running,
    ensures
        monitor.after(event).phase is Wait ==> monitor.after(event).latest_state is Running,
        monitor.phase is Ended ==> monitor.after(event) == monitor,
        monitor.after(event).phase is Ended && !(monitor.phase is Ended) ==> event
            == MonitorEvent::Waited(MonitorWaitAction::Cancelled) || event is Cancelled,
{
}

/// The run after a row of answers.
pub open spec fn docker_after(run: DockerRun, answers: Seq<DockerAnswer>) -> DockerRun
    decreases answers.len(),
{
    if answers.len() == 0 {
        run
    } else {
        docker_after(run, answers.drop_last()).after(answers.last())
    }
}

/// Whether the container was seen running by the answer at a place of a row, or
/// was started with success by the command that this answer belongs to.
pub open spec fn runs_by(run: DockerRun, answers: Seq<DockerAnswer>, i: int) -> bool {
    let before = docker_after(run, answers.take(i));
    &&& 0 <= i < answers.len()
    &&& {
        ||| before.phase is InspectContainer && (answers[i] matches DockerAnswer::Inspected(
            Ok(container),
        ) && container.state.running)
        ||| phase_words(before.container@, before.phase) == Some(
            seq!["start"@, run.container@.name],
        ) && (answers[i] matches DockerAnswer::Ran(Ok(_)))
    }
}

/// Whether the inspection at a place of a row is the one that a run ended with.
pub open spec fn last_inspected_by(run: DockerRun, answers: Seq<DockerAnswer>, j: int) -> bool {
    &&& 0 <= j < answers.len()
    &&& docker_after(run, answers).inspected is Some
    &&& answers[j] == DockerAnswer::Inspected(Ok(docker_after(run, answers).inspected->0))
}

/// A start ends in success only if the container was seen running, or was
/// started with success, before the inspection that the start ends with.
///
/// In particular an existing container that is not running is started.
pub proof fn law_started_container_runs(run: DockerRun, answers: Seq<DockerAnswer>)
    requires
        run.goal is Start,
        run.phase is InspectNetwork || run.phase is FindContainer,
    ensures
        docker_after(run, answers).container == run.container,
        docker_after(run, answers).goal == run.goal,
        docker_after(run, answers).phase is InspectStarted ==> exists|i: int|
            #[trigger] runs_by(run, answers, i),
        docker_after(run, answers).phase is Started ==> exists|i: int, j: int|
            #[trigger] runs_by(run, answers, i) && #[trigger] last_inspected_by(run, answers, j) && i
                < j,
    decreases answers.len(),
{
    if answers.len() > 0 {
        let front = answers.drop_last();
        let n = answers.len() - 1;
        let before = docker_after(run, front);
        law_started_container_runs(run, front);
        assert(answers.take(n) =~= front);
        assert(answers[n] == answers.last());
        assert forall|i: int| #[trigger] runs_by(run, front, i) implies runs_by(run, answers, i) by {
            assert(front.take(i) =~= answers.take(i));
            assert(front[i] == answers[i]);
        }
        if before.phase is InspectContainer {
            if docker_after(run, answers).phase is InspectStarted {
                assert(runs_by(run, answers, n));
            }
        } else if before.phase is StartContainer {
            if docker_after(run, answers).phase is InspectStarted {
                assert(phase_words(before.container@, before.phase) == Some(
                    seq!["start"@, run.container@.name],
                ));
                assert(runs_by(run, answers, n));
            }
        } else if before.phase is InspectStarted {
            let i = choose|i: int| #[trigger] runs_by(run, front, i);
            assert(runs_by(run, answers, i));
            if docker_after(run, answers).phase is Started {
                assert(last_inspected_by(run, answers, n));
            }
        } else if before.phase is Started {
            let (i, j) = choose|i: int, j: int|
                #[trigger] runs_by(run, front, i) && #[trigger] last_inspected_by(run, front, j) && i
                    < j;
            assert(runs_by(run, answers, i));
            assert(front[j] == answers[j]);
            assert(last_inspected_by(run, answers, j));
        }
    }
}

/// An existing container that is not running is inspected, started with
/// `docker start` and inspected again; one that is running is not started. The
/// second inspection is what the start ends with, and no container counts as
/// created.
pub proof fn law_existing_container_is_started(
    run: DockerRun,
    seen: DockerInspectContainer,
    last: DockerInspectContainer,
)
    requires
        run.phase is FindContainer,
        run.goal is Start,
    ensures
        ({
            let name = run.container@.name;
            let found = run.after(DockerAnswer::Ran(Ok(())));
            let looked = found.after(DockerAnswer::Inspected(Ok(seen)));
            let started = if seen.state.running {
                looked
            } else {
                looked.after(DockerAnswer::Ran(Ok(())))
            };
            let done = started.after(DockerAnswer::Inspected(Ok(last)));
            &&& phase_words(run.container@, run.phase) == Some(
                seq!["container"@, "inspect"@, name],
            )
            &&& phase_words(run.container@, found.phase) == Some(
                seq!["container"@, "inspect"@, name],
            )
            &&& !seen.state.running ==> phase_words(run.container@, looked.phase) == Some(
                seq!["start"@, name],
            )
            &&& phase_words(run.container@, started.phase) == Some(
                seq!["container"@, "inspect"@, name],
            )
            &&& done == (DockerRun {
                phase: DockerPhase::Started,
                inspected: Some(last),
                ..run
            })
        }),
{
}

/// A missing container is created from its image and then started as an existing
/// one is: the image is looked for, pulled only where it is missing, and the
/// container that comes out counts as created.
pub proof fn law_missing_container_is_created(
    run: DockerRun,
    missing: FxDockerError,
    unknown: FxDockerError,
    image_present: bool,
)
    requires
        run.phase is FindContainer,
        run.goal is Start,
        run.container@.image is Some,
        missing matches FxDockerError::DockerExit { stderr, .. } && contains(
            lower_text(stderr@),
            "no such container"@,
        ),
        unknown matches FxDockerError::DockerExit { stderr, .. } && (contains(
            lower_text(stderr@),
            "no such image"@,
        ) || contains(lower_text(stderr@), "no such object"@)),
    ensures
        ({
            let c = run.container@;
            let image = c.image->0;
            let absent = run.after(DockerAnswer::Ran(Err(missing)));
            let looked = if image_present {
                absent.after(DockerAnswer::Ran(Ok(())))
            } else {
                absent.after(DockerAnswer::Ran(Err(unknown)))
            };
            let ready = if image_present {
                looked
            } else {
                looked.after(DockerAnswer::Ran(Ok(())))
            };
            let created = ready.after(DockerAnswer::Ran(Ok(())));
            &&& phase_words(c, absent.phase) == Some(seq!["image"@, "inspect"@, image])
            &&& !image_present ==> phase_words(c, looked.phase) == Some(seq!["pull"@, image])
            &&& phase_words(c, ready.phase) == Some(
                create_words(c.name, image, c.network, c.env, c.command),
            )
            &&& created == (DockerRun {
                phase: DockerPhase::InspectContainer,
                created: true,
                ..run
            })
        }),
{
}

/// The network of a container is looked for before anything else and created
/// only where it is missing; a start then looks for the container, and an
/// allocation for the image, if there is one.
pub proof fn law_network_comes_first(run: DockerRun, missing: FxDockerError, present: bool)
    requires
        run.phase is InspectNetwork,
        run.container@.network is Some,
        missing matches FxDockerError::DockerExit { stderr, .. } && contains(
            lower_text(stderr@),
            "no such network"@,
        ),
    ensures
        ({
            let c = run.container@;
            let looked = if present {
                run.after(DockerAnswer::Ran(Ok(())))
            } else {
                run.after(DockerAnswer::Ran(Err(missing)))
            };
            let ready = if present {
                looked
            } else {
                looked.after(DockerAnswer::Ran(Ok(())))
            };
            &&& phase_words(c, run.phase) == Some(seq!["network"@, "inspect"@, c.network->0])
            &&& !present ==> phase_words(c, looked.phase) == Some(
                seq!["network"@, "create"@, c.network->0],
            )
            &&& ready == (DockerRun { phase: ready.phase, ..run })
            &&& run.goal is Start ==> ready.phase is FindContainer
            &&& run.goal is Allocate && c.image is Some ==> ready.phase is InspectImage
            &&& run.goal is Allocate && c.image is None ==> ready.phase is Allocated
        }),
{
}

/// An allocation that looks for an image pulls it only where it is missing, and
/// is then done.
pub proof fn law_allocation_provides_image(run: DockerRun, unknown: FxDockerError)
    requires
        run.phase is InspectImage,
        run.goal is Allocate,
        run.container@.image is Some,
        unknown matches FxDockerError::DockerExit { stderr, .. } && (contains(
            lower_text(stderr@),
            "no such image"@,
        ) || contains(lower_text(stderr@), "no such object"@)),
    ensures
        ({
            let image = run.container@.image->0;
            let looked = run.after(DockerAnswer::Ran(Err(unknown)));
            let done = DockerRun { phase: DockerPhase::Allocated, ..run };
            &&& phase_words(run.container@, run.phase) == Some(seq!["image"@, "inspect"@, image])
            &&& run.after(DockerAnswer::Ran(Ok(()))) == done
            &&& phase_words(run.container@, looked.phase) == Some(seq!["pull"@, image])
            &&& looked.after(DockerAnswer::Ran(Ok(()))) == done
        }),
{
}

/// A run fails only by an answer that reports an error, and with that error;
/// success is never a failure.
pub proof fn law_docker_run_fails_for_cause(run: DockerRun, answer: DockerAnswer)
    requires
        !(run.phase is Failed),
    ensures
        run.after(answer).phase is Failed ==> match answer {
            DockerAnswer::Ran(Err(err)) => run.after(answer).failure == Some(err),
            DockerAnswer::Inspected(Err(err)) => run.after(answer).failure == Some(err),
            _ => false,
        },
        !(run.after(answer).phase is Failed) ==> run.after(answer).failure == run.failure,
{
}

/// A command that is to do something, and an inspection, ends the run when it
/// fails; a look for a network, an image or a container does so unless Docker
/// says that the resource does not exist.
pub proof fn law_failed_command_ends_run(run: DockerRun, err: FxDockerError)
    ensures
        ({
            let ran = run.after(DockerAnswer::Ran(Err(err)));
            let inspected = run.after(DockerAnswer::Inspected(Err(err)));
            let failed = DockerRun { phase: DockerPhase::Failed, failure: Some(err), ..run };
            let stderr = lower_text(err->DockerExit_stderr@);
            &&& run.phase is CreateNetwork || run.phase is PullImage || run.phase is CreateContainer
                || run.phase is StartContainer ==> ran == failed
            &&& run.phase is InspectContainer || run.phase is InspectStarted ==> inspected == failed
            &&& run.phase is InspectNetwork ==> (ran == failed <==> !(err is DockerExit && contains(
                stderr,
                "no such network"@,
            )))
            &&& run.phase is InspectImage ==> (ran == failed <==> !(err is DockerExit && (contains(
                stderr,
                "no such image"@,
            ) || contains(stderr, "no such object"@))))
            &&& run.phase is FindContainer ==> (ran == failed <==> !(err is DockerExit && contains(
                stderr,
                "no such container"@,
            )))
        }),
{
}

/// A run that has ended stays as it is, whatever comes back.
pub proof fn law_ended_docker_run_stays(run: DockerRun, answer: DockerAnswer)
    requires
        run.phase is Allocated || run.phase is Started || run.phase is NoImage
            || run.phase is Failed,
    ensures
        run.after(answer) == run,
        phase_words(run.container@, run.phase) is None,
{
}

/// Whether the variable at a place of an environment is set by the two words
/// for this place, in words that begin with the environment at `at`.
pub open spec fn is_env_option(
    words: Seq<Seq<char>>,
    at: int,
    i: int,
    variable: (Seq<char>, Seq<char>),
) -> bool {
    words[at + 2 * i] == "--env"@ && words[at + 2 * i + 1] == variable.0 + "="@ + variable.1
}

/// `docker create` is given the name, then the network if there is one, then
/// each environment variable in turn, then the image, and last the command.
pub proof fn law_create_words(
    name: Seq<char>,
    image: Seq<char>,
    network: Option<Seq<char>>,
    env: Seq<(Seq<char>, Seq<char>)>,
    command: Seq<Seq<char>>,
)
    ensures
        ({
            let words = create_words(name, image, network, env, command);
            let at: int = if network is Some {
                5
            } else {
                3
            };
            &&& words.len() == at + 2 * env.len() + 1 + command.len()
            &&& words[0] == "create"@ && words[1] == "--name"@ && words[2] == name
            &&& network is Some ==> words[3] == "--network"@ && words[4] == network->0
            &&& forall|i: int|
                0 <= i < env.len() ==> #[trigger] is_env_option(words, at, i, env[i])
            &&& words[at + 2 * env.len()] == image
            &&& words.skip(at + 2 * env.len() + 1) == command
        }),
{
    lemma_env_words(env);
    let words = create_words(name, image, network, env, command);
    let at: int = if network is Some {
        5
    } else {
        3
    };
    let head = seq!["create"@, "--name"@, name] + (match network {
        Some(n) => seq!["--network"@, n],
        None => seq![],
    });
    assert(head.len() == at);
    assert(words =~= head + env_words(env) + seq![image] + command);
    assert forall|i: int| 0 <= i < env.len() implies #[trigger] is_env_option(
        words,
        at,
        i,
        env[i],
    ) by {
        assert(is_env_option(env_words(env), 0, i, env[i]));
        assert(words[at + 2 * i] == env_words(env)[2 * i]);
        assert(words[at + 2 * i + 1] == env_words(env)[2 * i + 1]);
    }
    assert(words.skip(at + 2 * env.len() + 1) =~= command);
}

proof fn lemma_env_words(env: Seq<(Seq<char>, Seq<char>)>)
    ensures
        env_words(env).len() == 2 * env.len(),
        forall|i: int|
            0 <= i < env.len() ==> #[trigger] is_env_option(env_words(env), 0, i, env[i]),
    decreases env.len(),
{
    if env.len() > 0 {
        let front = env.drop_last();
        lemma_env_words(front);
        assert forall|i: int| 0 <= i < env.len() implies #[trigger] is_env_option(
            env_words(env),
            0,
            i,
            env[i],
        ) by {
            if i < front.len() {
                assert(is_env_option(env_words(front), 0, i, front[i]));
                assert(env_words(env)[2 * i] == env_words(front)[2 * i]);
                assert(env_words(env)[2 * i + 1] == env_words(front)[2 * i + 1]);
            }
        }
    }
}

/// The name of a container is told without the slash that Docker puts before
/// it, and any other name as it is.
pub proof fn law_plain_names(name: Seq<char>)
    ensures
        plain_name(seq!['/'] + name) == name,
        !(name.len() > 0 && name[0] == '/') ==> plain_name(name) == name,
{
    assert(plain_name(seq!['/'] + name) =~= name);
}

/// The states that an inspection shows: a running container runs with its pid,
/// also if it is paused as well; one that is only paused is paused with its pid;
/// of the rest, the exited and the created ones are stopped.
pub proof fn law_inspected_states(state: DockerInspectState)
    ensures
        inspected_state(state) == StateModel::Running(state.pid) <==> state.running,
        inspected_state(state) == StateModel::Paused(state.pid) <==> !state.running && state.paused,
        inspected_state(state) is Stopped <==> !state.running && !state.paused && (lower_text(
            state.status@,
        ) == lower_text("exited"@) || lower_text(state.status@) == lower_text("created"@)),
        inspected_state(state) is Running || inspected_state(state) is Paused || inspected_state(
            state,
        ) is Stopped || inspected_state(state) is Unknown,
{
}

/// What a monitor goes on with: a container seen running is waited for, and one
/// that has stopped is inspected at once; any other is looked at again after a
/// pause. A look records the state that it shows, and one that fails records
/// that the state is not known.
pub proof fn law_monitor_follows_container(
    monitor: MonitorModel,
    container: DockerInspectContainer,
    err: FxDockerError,
)
    ensures
        ({
            let seen = monitor.after(MonitorEvent::Inspected(Ok(container)));
            let failed = monitor.after(MonitorEvent::Inspected(Err(err)));
            let stopped = monitor.after(MonitorEvent::Waited(MonitorWaitAction::Stopped));
            let retried = monitor.after(MonitorEvent::Waited(MonitorWaitAction::Retry));
            let cancelled = monitor.after(MonitorEvent::Waited(MonitorWaitAction::Cancelled));
            &&& monitor.phase is Inspect || monitor.phase is InspectStopped ==> {
                &&& seen.latest_state == inspected_state(container.state)
                &&& failed.latest_state is Unknown
            }
            &&& monitor.phase is Inspect ==> {
                &&& container.state.running ==> seen.phase is Wait
                &&& !container.state.running ==> seen.phase is PauseOrCancel
                &&& failed.phase is PauseOrCancel
            }
            &&& monitor.phase is Wait ==> {
                &&& stopped.phase is InspectStopped
                &&& retried.phase is Pause
                &&& cancelled.phase is Ended
                &&& stopped.latest_state == monitor.latest_state
                &&& retried.latest_state == monitor.latest_state
                &&& cancelled.latest_state == monitor.latest_state
            }
            &&& monitor.phase is InspectStopped ==> seen.phase is Inspect && failed.phase is Inspect
        }),
        monitor.phase is Pause || monitor.phase is PauseOrCancel ==> monitor.after(
            MonitorEvent::Paused,
        ) == (MonitorModel { phase: MonitorPhase::Inspect, ..monitor }),
        monitor.phase is PauseOrCancel ==> monitor.after(MonitorEvent::Cancelled) == (MonitorModel {
            phase: MonitorPhase::Ended,
            ..monitor
        }),
        monitor.phase is Pause ==> monitor.after(MonitorEvent::Cancelled) == monitor,
{
}

/// A command may take half a minute, and pulling an image ten minutes; a
/// container that cannot be waited for is looked at every two seconds.
pub proof fn law_docker_time_limits()
    ensures
        DOCKER_COMMAND_TIMEOUT == 30 * 1000,
        DOCKER_PULL_TIMEOUT == 10 * 60 * 1000,
        DOCKER_MONITOR_POLL_INTERVAL == 2 * 1000,
{
}

/// An optional network is seen by its name, and optional words by their texts.
pub proof fn law_optional_views(network: Option<DockerNetwork>, words: Option<Vec<String>>)
    ensures
        opt_network(network) is Some == network is Some,
        network is Some ==> opt_network(network)->0 == network->0@,
        opt_texts(words) is Some == words is Some,
        words is Some ==> opt_texts(words)->0 == texts(words->0@),
{
}

} // verus!
