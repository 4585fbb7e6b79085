//! What the library asks of the host system, and what the host answered.
//!
//! The library performs no I/O. A query that depends on the host returns a
//! [`Step`]: either a [`Request`] that the caller carries out, recording the
//! answer in its [`HostFacts`], or the finished result.

use crate::error::{BuildError, BuildErrorModel};
use vstd::prelude::*;
use vstd::utf8::{decode_utf8, valid_utf8};

verus! {

/// How a child process ended, with everything it wrote.
#[derive(Clone, Debug, PartialEq, Eq)]
pub struct ProcessOutput {
    /// Whether the exit status reports success.
    pub success: bool,
    /// The bytes written to standard output.
    pub stdout: Vec<u8>,
    /// The bytes written to standard error.
    pub stderr: Vec<u8>,
}

/// A `ProcessOutput` with its streams as byte sequences.
pub struct ProcessOutputModel {
    pub success: bool,
    pub stdout: Seq<u8>,
    pub stderr: Seq<u8>,
}

impl View for ProcessOutput {
    type V = ProcessOutputModel;

    open spec fn view(&self) -> ProcessOutputModel {
        ProcessOutputModel { success: self.success, stdout: self.stdout@, stderr: self.stderr@ }
    }
}

/// One thing for the caller to find out from the host.
#[derive(Clone, Debug, PartialEq, Eq)]
pub enum Request {
    /// Read the environment variable `name`.
    ReadVariable { name: String },
    /// Find out whether anything exists at `path`.
    ProbePath { path: String },
    /// Search the directories of the executable search path, in order, for a
    /// file called `name`.
    SearchPath { name: String },
    /// Launch `program` with the single argument `argument`, without a shell
    /// and without input, and wait for it to end.
    Run { program: String, argument: String },
}

/// A `Request` with its texts as character sequences.
pub enum RequestModel {
    ReadVariable { name: Seq<char> },
    ProbePath { path: Seq<char> },
    SearchPath { name: Seq<char> },
    Run { program: Seq<char>, argument: Seq<char> },
}

impl View for Request {
    type V = RequestModel;

    open spec fn view(&self) -> RequestModel {
        match self {
            Request::ReadVariable { name } => RequestModel::ReadVariable { name: name@ },
            Request::ProbePath { path } => RequestModel::ProbePath { path: path@ },
            Request::SearchPath { name } => RequestModel::SearchPath { name: name@ },
            Request::Run { program, argument } => RequestModel::Run {
                program: program@,
                argument: argument@,
            },
        }
    }
}

/// What the host found out in answer to a request.
#[derive(Debug, PartialEq, Eq)]
pub enum Answer {
    /// To `ReadVariable`: what the variable holds, or `None` where it is
    /// unset.
    Variable(Option<String>),
    /// To `ProbePath`: whether anything exists at the path.
    Exists(bool),
    /// To `SearchPath`: the path of the first match, or `None` where no
    /// directory holds the name.
    Found(Option<String>),
    /// To `Run`: the output of the finished process, or the reason the
    /// operating system gave for not launching it.
    Ran(Result<ProcessOutput, String>),
}

/// An `Answer` with its texts as character sequences.
pub enum AnswerModel {
    Variable(Option<Seq<char>>),
    Exists(bool),
    Found(Option<Seq<char>>),
    Ran(Result<ProcessOutputModel, Seq<char>>),
}

impl View for Answer {
    type V = AnswerModel;

    open spec fn view(&self) -> AnswerModel {
        match self {
            Answer::Variable(value) => AnswerModel::Variable(value.deep_view()),
            Answer::Exists(exists) => AnswerModel::Exists(*exists),
            Answer::Found(path) => AnswerModel::Found(path.deep_view()),
            Answer::Ran(Ok(output)) => AnswerModel::Ran(Ok(output@)),
            Answer::Ran(Err(reason)) => AnswerModel::Ran(Err(reason@)),
        }
    }
}

impl AnswerModel {
    /// Whether this is an answer to `request`.
    pub open spec fn answers(self, request: RequestModel) -> bool {
        match request {
            RequestModel::ReadVariable { .. } => self is Variable,
            RequestModel::ProbePath { .. } => self is Exists,
            RequestModel::SearchPath { .. } => self is Found,
            RequestModel::Run { .. } => self is Ran,
        }
    }
}

/// The answers collected so far, for one query. A field is `None` until the
/// matching request has been carried out.
#[derive(Clone, Debug, PartialEq, Eq)]
pub struct HostFacts {
    /// The override variable: `Some(None)` when it is unset, `Some(Some(p))`
    /// when it holds `p`.
    pub override_variable: Option<Option<String>>,
    /// Whether something exists at the path that the override variable holds.
    pub override_exists: Option<bool>,
    /// What the search path gave for the executable's name: `Some(None)` when
    /// no directory holds it.
    pub search_result: Option<Option<String>>,
    /// The outcome of launching the executable: its output, or the reason the
    /// operating system gave for not launching it.
    pub run: Option<Result<ProcessOutput, String>>,
}

/// `HostFacts` with its texts as character sequences.
pub struct HostFactsModel {
    pub override_variable: Option<Option<Seq<char>>>,
    pub override_exists: Option<bool>,
    pub search_result: Option<Option<Seq<char>>>,
    pub run: Option<Result<ProcessOutputModel, Seq<char>>>,
}

impl View for HostFacts {
    type V = HostFactsModel;

    open spec fn view(&self) -> HostFactsModel {
        HostFactsModel {
            override_variable: self.override_variable.deep_view(),
            override_exists: self.override_exists,
            search_result: self.search_result.deep_view(),
            run: match self.run {
                None => None,
                Some(Ok(output)) => Some(Ok(output@)),
                Some(Err(reason)) => Some(Err(reason@)),
            },
        }
    }
}

impl HostFactsModel {
    /// The number of answers that are still missing.
    pub open spec fn open_questions(self) -> nat {
        let a: nat = if self.override_variable is None { 1 } else { 0 };
        let b: nat = if self.override_exists is None { 1 } else { 0 };
        let c: nat = if self.search_result is None { 1 } else { 0 };
        let d: nat = if self.run is None { 1 } else { 0 };
        a + b + c + d
    }

    /// These facts with `answer` recorded in its place, and nothing else
    /// changed.
    pub open spec fn with(self, answer: AnswerModel) -> HostFactsModel {
        match answer {
            AnswerModel::Variable(value) => HostFactsModel { override_variable: Some(value), ..self },
            AnswerModel::Exists(exists) => HostFactsModel { override_exists: Some(exists), ..self },
            AnswerModel::Found(path) => HostFactsModel { search_result: Some(path), ..self },
            AnswerModel::Ran(outcome) => HostFactsModel { run: Some(outcome), ..self },
        }
    }
}

impl HostFacts {
    /// The state before anything was asked.
    pub fn new() -> (facts: HostFacts)
        ensures
            facts@ == (HostFactsModel {
                override_variable: None,
                override_exists: None,
                search_result: None,
                run: None,
            }),
    {
        HostFacts { override_variable: None, override_exists: None, search_result: None, run: None }
    }

    /// Records what the host answered.
    pub fn record(&mut self, answer: Answer)
        ensures
            final(self)@ == old(self)@.with(answer@),
    {
        match answer {
            Answer::Variable(value) => {
                self.override_variable = Some(value);
            },
            Answer::Exists(exists) => {
                self.override_exists = Some(exists);
            },
            Answer::Found(path) => {
                self.search_result = Some(path);
            },
            Answer::Ran(outcome) => {
                self.run = Some(outcome);
            },
        }
    }
}

/// Where a query stands: it needs one more answer from the host, or it is
/// done.
#[derive(Debug, PartialEq, Eq)]
pub enum Step<T> {
    /// Carry the request out, record the answer, and ask again.
    Need(Request),
    /// The query's result.
    Done(Result<T, BuildError>),
}

/// A `Step` over the model of its result.
pub enum StepModel<V> {
    Need(RequestModel),
    Done(Result<V, BuildErrorModel>),
}

impl<T: DeepView> View for Step<T> {
    type V = StepModel<T::V>;

    open spec fn view(&self) -> StepModel<T::V> {
        match self {
            Step::Need(request) => StepModel::Need(request@),
            Step::Done(Ok(value)) => StepModel::Done(Ok(value.deep_view())),
            Step::Done(Err(error)) => StepModel::Done(Err(error@)),
        }
    }
}

/// The text that permissive UTF-8 decoding makes of `bytes`.
pub uninterp spec fn lossy_text(bytes: Seq<u8>) -> Seq<char>;

/// The text of a captured stream: valid UTF-8 is decoded as it stands, and
/// anything else is decoded permissively, so that every stream has a text.
pub open spec fn stream_text(bytes: Seq<u8>) -> Seq<char> {
    if valid_utf8(bytes) {
        decode_utf8(bytes)
    } else {
        lossy_text(bytes)
    }
}

/// Decodes with `String::from_utf8_lossy`. The standard library documents
/// that it returns a string for every input, that valid UTF-8 comes back
/// unchanged, and that each invalid sequence is replaced by U+FFFD. The
/// result is a function of the bytes alone; `lossy_text` names it.
#[verifier::external_body]
pub(crate) fn decode_lossy(bytes: &[u8]) -> (text: String)
    ensures
        text@ == lossy_text(bytes@),
        valid_utf8(bytes@) ==> text@ == decode_utf8(bytes@),
{
    String::from_utf8_lossy(bytes).into_owned()
}

} // verus!
