//! The provider of build flags for POSIX-like systems.

use crate::error::{BuildError, BuildErrorModel};
use crate::flags::{
    defines_of_list, include_paths_of_flags, include_paths_of_list, parse_defines,
    parse_include_flags, parse_include_list,
};
use crate::host::{
    decode_lossy, stream_text, AnswerModel, HostFacts, HostFactsModel, Request, RequestModel, Step,
    StepModel,
};
use crate::snapshot::Snapshot;
use vstd::prelude::*;

verus! {

/// Where the configuration of the runtime comes from.
#[derive(Clone, Debug)]
pub enum RuntimeDescription {
    /// It is obtained by running `php-config`.
    CommandBacked,
    /// It was captured beforehand, for builds that cannot run the executable.
    SnapshotBacked(Snapshot),
}

/// A `RuntimeDescription` with its snapshot as a mapping.
pub enum RuntimeDescriptionModel {
    CommandBacked,
    SnapshotBacked(Map<Seq<char>, Seq<char>>),
}

impl View for RuntimeDescription {
    type V = RuntimeDescriptionModel;

    open spec fn view(&self) -> RuntimeDescriptionModel {
        match self {
            RuntimeDescription::CommandBacked => RuntimeDescriptionModel::CommandBacked,
            RuntimeDescription::SnapshotBacked(snapshot) => RuntimeDescriptionModel::SnapshotBacked(
                snapshot@,
            ),
        }
    }
}

/// Where the search for `php-config` stands. An explicit override is
/// decisive: once the variable is known to be set, the search path is never
/// consulted, and a path at which nothing exists is an error.
pub open spec fn locate(facts: HostFactsModel) -> StepModel<Seq<char>> {
    match facts.override_variable {
        None => StepModel::Need(RequestModel::ReadVariable { name: "PHP_CONFIG"@ }),
        Some(Some(path)) => match facts.override_exists {
            None => StepModel::Need(RequestModel::ProbePath { path }),
            Some(true) => StepModel::Done(Ok(path)),
            Some(false) => StepModel::Done(Err(BuildErrorModel::ConfiguredPathNotFound { path })),
        },
        Some(None) => match facts.search_result {
            None => StepModel::Need(RequestModel::SearchPath { name: "php-config"@ }),
            Some(Some(path)) => StepModel::Done(Ok(path)),
            Some(None) => StepModel::Done(Err(BuildErrorModel::ExecutableNotFound)),
        },
    }
}

/// What a finished run amounts to, given both of its streams as text:
/// standard output on success, and an error that holds both streams
/// otherwise.
pub open spec fn verdict_of_exit(success: bool, stdout: Seq<char>, stderr: Seq<char>) -> Result<
    Seq<char>,
    BuildErrorModel,
> {
    if success {
        Ok(stdout)
    } else {
        Err(BuildErrorModel::NonZeroExit { stdout, stderr })
    }
}

/// Where the invocation of `php-config` with `argument` stands. The
/// executable is located first. A launch that failed is told apart from a
/// run that reported failure.
pub open spec fn invoke(argument: Seq<char>, facts: HostFactsModel) -> StepModel<Seq<char>> {
    match locate(facts) {
        StepModel::Need(request) => StepModel::Need(request),
        StepModel::Done(Err(error)) => StepModel::Done(Err(error)),
        StepModel::Done(Ok(program)) => match facts.run {
            None => StepModel::Need(RequestModel::Run { program, argument }),
            Some(Err(reason)) => StepModel::Done(Err(BuildErrorModel::SpawnFailure { reason })),
            Some(Ok(output)) => StepModel::Done(
                verdict_of_exit(
                    output.success,
                    stream_text(output.stdout),
                    stream_text(output.stderr),
                ),
            ),
        },
    }
}

/// Where the query for the include paths stands.
pub open spec fn includes(info: RuntimeDescriptionModel, facts: HostFactsModel) -> StepModel<
    Seq<Seq<char>>,
> {
    match info {
        RuntimeDescriptionModel::CommandBacked => match invoke("--includes"@, facts) {
            StepModel::Need(request) => StepModel::Need(request),
            StepModel::Done(Err(error)) => StepModel::Done(Err(error)),
            StepModel::Done(Ok(line)) => StepModel::Done(Ok(include_paths_of_flags(line))),
        },
        RuntimeDescriptionModel::SnapshotBacked(mapping) => if mapping.contains_key("includes"@) {
            StepModel::Done(Ok(include_paths_of_list(mapping["includes"@])))
        } else {
            StepModel::Done(Err(BuildErrorModel::MissingKey { key: "includes"@ }))
        },
    }
}

/// The defines that a description gives. Only a snapshot carries any, and
/// they are optional there.
pub open spec fn defines(info: RuntimeDescriptionModel) -> Seq<(Seq<char>, Seq<char>)> {
    match info {
        RuntimeDescriptionModel::CommandBacked => Seq::empty(),
        RuntimeDescriptionModel::SnapshotBacked(mapping) => if mapping.contains_key("defines"@) {
            defines_of_list(mapping["defines"@])
        } else {
            Seq::empty()
        },
    }
}

/// Judges a finished run of `php-config` from its exit status and its two
/// streams, already decoded.
pub fn exit_verdict(success: bool, stdout: String, stderr: String) -> (verdict: Result<
    String,
    BuildError,
>)
    ensures
        success ==> verdict == Ok::<String, BuildError>(stdout),
        !success ==> verdict == Err::<String, BuildError>(
            BuildError::NonZeroExit { stdout, stderr },
        ),
{
    if success {
        Ok(stdout)
    } else {
        Err(BuildError::NonZeroExit { stdout, stderr })
    }
}

/// Turns a runtime description into build flags.
pub struct Provider<'a> {
    info: &'a RuntimeDescription,
}

impl<'a> Provider<'a> {
    /// The description that the provider was made from.
    pub closed spec fn info(&self) -> RuntimeDescription {
        *self.info
    }

    /// Binds a provider to `info`. Nothing is read or run.
    pub fn from_info(info: &'a RuntimeDescription) -> (provider: Provider<'a>)
        ensures
            provider.info() == *info,
    {
        Provider { info }
    }

    /// Resolves the path of `php-config`. The override variable
    /// `PHP_CONFIG` comes first: where it is set, the path it holds is the
    /// answer if anything exists there, and an error if not. The search path
    /// is consulted only where the variable is unset.
    pub fn find_bin(&self, facts: &HostFacts) -> (step: Step<String>)
        ensures
            step@ == locate(facts@),
    {
        match &facts.override_variable {
            None => Step::Need(Request::ReadVariable { name: String::from_str("PHP_CONFIG") }),
            Some(Some(path)) => match facts.override_exists {
                None => Step::Need(Request::ProbePath { path: path.clone() }),
                Some(true) => Step::Done(Ok(path.clone())),
                Some(false) => Step::Done(
                    Err(BuildError::ConfiguredPathNotFound { path: path.clone() }),
                ),
            },
            Some(None) => match &facts.search_result {
                None => Step::Need(Request::SearchPath { name: String::from_str("php-config") }),
                Some(Some(path)) => Step::Done(Ok(path.clone())),
                Some(None) => Step::Done(Err(BuildError::ExecutableNotFound)),
            },
        }
    }

    /// Runs `php-config` with the one argument `argument` and gives its
    /// standard output as text. The executable is resolved anew for every
    /// query. A launch that fails and a run that reports failure are
    /// different errors; the latter holds both streams of the process.
    pub fn php_config(&self, argument: &str, facts: &HostFacts) -> (step: Step<String>)
        ensures
            step@ == invoke(argument@, facts@),
    {
        match self.find_bin(facts) {
            Step::Need(request) => Step::Need(request),
            Step::Done(Err(error)) => Step::Done(Err(error)),
            Step::Done(Ok(program)) => match &facts.run {
                None => Step::Need(Request::Run { program, argument: argument.to_owned() }),
                Some(Err(reason)) => Step::Done(
                    Err(BuildError::SpawnFailure { reason: reason.clone() }),
                ),
                Some(Ok(output)) => {
                    let stdout = decode_lossy(output.stdout.as_slice());
                    let stderr = decode_lossy(output.stderr.as_slice());
                    Step::Done(exit_verdict(output.success, stdout, stderr))
                },
            },
        }
    }

    /// The compiler's include paths, in the order in which the source
    /// reports them. A command-backed description takes them from the flag
    /// line that `php-config --includes` prints; a snapshot must hold them
    /// under the key `includes`.
    pub fn get_includes(&self, facts: &HostFacts) -> (step: Step<Vec<String>>)
        ensures
            step@ == includes(self.info()@, facts@),
    {
        match self.info {
            RuntimeDescription::CommandBacked => match self.php_config("--includes", facts) {
                Step::Need(request) => Step::Need(request),
                Step::Done(Err(error)) => Step::Done(Err(error)),
                Step::Done(Ok(line)) => Step::Done(Ok(parse_include_flags(line.as_str()))),
            },
            RuntimeDescription::SnapshotBacked(snapshot) => match snapshot.get_key("includes") {
                Some(list) => Step::Done(Ok(parse_include_list(list))),
                None => Step::Done(
                    Err(BuildError::MissingKey { key: String::from_str("includes") }),
                ),
            },
        }
    }

    /// The preprocessor defines, each with its value. A snapshot may hold
    /// them under the key `defines`. The query never fails and never needs
    /// the host: a command-backed description has no defines.
    pub fn get_defines(&self) -> (result: Result<Vec<(String, String)>, BuildError>)
        ensures
            result matches Ok(pairs) && pairs.deep_view() == defines(self.info()@),
            self.info()@ is CommandBacked ==> (result matches Ok(pairs) && pairs@.len() == 0),
    {
        match self.info {
            RuntimeDescription::SnapshotBacked(snapshot) => match snapshot.get_key("defines") {
                Some(list) => Ok(parse_defines(list)),
                None => Ok(Vec::new()),
            },
            RuntimeDescription::CommandBacked => Ok(Vec::new()),
        }
    }
}

/// A request is made only for what is not yet known. So each recorded
/// answer leaves fewer open questions, and a caller that answers what it is
/// asked reaches the result after at most four requests.
pub proof fn lemma_answer_makes_progress(
    info: RuntimeDescriptionModel,
    argument: Seq<char>,
    before: HostFactsModel,
    request: RequestModel,
    answer: AnswerModel,
)
    requires
        locate(before) == StepModel::<Seq<char>>::Need(request) || invoke(argument, before)
            == StepModel::<Seq<char>>::Need(request) || includes(info, before) == StepModel::<
            Seq<Seq<char>>,
        >::Need(request),
        answer.answers(request),
    ensures
        before.with(answer).open_questions() < before.open_questions(),
{
}

/// A snapshot without the key `defines` gives no defines, and no error.
pub proof fn lemma_defines_are_optional(mapping: Map<Seq<char>, Seq<char>>)
    requires
        !mapping.contains_key("defines"@),
    ensures
        defines(RuntimeDescriptionModel::SnapshotBacked(mapping)) == Seq::<
            (Seq<char>, Seq<char>),
        >::empty(),
{
}

/// A command-backed description gives no defines, whatever the state of the
/// host.
pub proof fn lemma_command_gives_no_defines()
    ensures
        defines(RuntimeDescriptionModel::CommandBacked) == Seq::<(Seq<char>, Seq<char>)>::empty(),
{
}

/// A snapshot without the key `includes` fails the query for the include
/// paths, whatever the state of the host.
pub proof fn lemma_includes_are_required(mapping: Map<Seq<char>, Seq<char>>, facts: HostFactsModel)
    requires
        !mapping.contains_key("includes"@),
    ensures
        includes(RuntimeDescriptionModel::SnapshotBacked(mapping), facts) == StepModel::<
            Seq<Seq<char>>,
        >::Done(Err(BuildErrorModel::MissingKey { key: "includes"@ })),
{
}

/// An override that names a path at which nothing exists is fatal, to the
/// search for the executable and to every query built on it. The error
/// names the path, and what the search path holds makes no difference.
pub proof fn lemma_wrong_override_is_fatal(
    facts: HostFactsModel,
    path: Seq<char>,
    argument: Seq<char>,
)
    requires
        facts.override_variable == Some(Some(path)),
        facts.override_exists == Some(false),
    ensures
        locate(facts) == StepModel::<Seq<char>>::Done(
            Err(BuildErrorModel::ConfiguredPathNotFound { path }),
        ),
        invoke(argument, facts) == StepModel::<Seq<char>>::Done(
            Err(BuildErrorModel::ConfiguredPathNotFound { path }),
        ),
        includes(RuntimeDescriptionModel::CommandBacked, facts) == StepModel::<
            Seq<Seq<char>>,
        >::Done(Err(BuildErrorModel::ConfiguredPathNotFound { path })),
{
}

/// Without an override and without a match on the search path, the search
/// for the executable fails, and so does every query built on it.
pub proof fn lemma_nothing_found_is_fatal(facts: HostFactsModel, argument: Seq<char>)
    requires
        facts.override_variable == Some(None::<Seq<char>>),
        facts.search_result == Some(None::<Seq<char>>),
    ensures
        locate(facts) == StepModel::<Seq<char>>::Done(Err(BuildErrorModel::ExecutableNotFound)),
        invoke(argument, facts) == StepModel::<Seq<char>>::Done(
            Err(BuildErrorModel::ExecutableNotFound),
        ),
        includes(RuntimeDescriptionModel::CommandBacked, facts) == StepModel::<
            Seq<Seq<char>>,
        >::Done(Err(BuildErrorModel::ExecutableNotFound)),
{
}

/// Once the executable is located, the outcome of its run decides the
/// invocation. A launch that failed and a run that reported failure give
/// different errors: the first carries the reason of the operating system,
/// the second both streams of the process. A run that reported success gives
/// its standard output.
pub proof fn lemma_run_decides_invocation(
    facts: HostFactsModel,
    argument: Seq<char>,
    program: Seq<char>,
)
    requires
        locate(facts) == StepModel::<Seq<char>>::Done(Ok(program)),
    ensures
        facts.run matches Some(Err(reason)) ==> invoke(argument, facts) == StepModel::<
            Seq<char>,
        >::Done(Err(BuildErrorModel::SpawnFailure { reason })),
        facts.run matches Some(Ok(output)) ==> !output.success ==> invoke(argument, facts)
            == StepModel::<Seq<char>>::Done(
            Err(
                BuildErrorModel::NonZeroExit {
                    stdout: stream_text(output.stdout),
                    stderr: stream_text(output.stderr),
                },
            ),
        ),
        facts.run matches Some(Ok(output)) ==> output.success ==> invoke(argument, facts)
            == StepModel::<Seq<char>>::Done(Ok(stream_text(output.stdout))),
{
}

/// The include paths are a function of the description and of what the
/// executable did. Two queries in which the executable was found and ended
/// in the same way give the same result, wherever it was found; a snapshot
/// gives the same result whatever the host says.
pub proof fn lemma_includes_are_repeatable(
    info: RuntimeDescriptionModel,
    first: HostFactsModel,
    second: HostFactsModel,
)
    requires
        info is CommandBacked ==> {
            &&& locate(first) matches StepModel::Done(Ok(_))
            &&& locate(second) matches StepModel::Done(Ok(_))
            &&& first.run is Some
            &&& first.run == second.run
        },
    ensures
        includes(info, first) == includes(info, second),
{
}

} // verus!
