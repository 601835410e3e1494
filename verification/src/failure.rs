//! One error type for a whole operation.
//!
//! An operation checks its request, has the engine build its configuration,
//! opens the alignment source, runs the engine and decodes what the engine
//! wrote. All of that happens in a background task. A failure tells at
//! which of these stages it arose, and a task that did not run to its end
//! is kept apart from every failure that the operation itself reported.

use crate::decode::{DecodeError, DecodeErrorView};
use crate::error::{ValidationError, ValidationErrorView};
use crate::report::ReportError;
use crate::table::{TableError, TableErrorView};
use vstd::prelude::*;
use vstd::string::*;

verus! {

/// The stage at which an operation failed.
#[derive(Clone, Copy, Debug, PartialEq, Eq, Structural)]
pub enum FailureClass {
    /// A request field is malformed or out of range.
    Validation,
    /// The engine could not build its configuration from the request.
    Construction,
    /// The alignment source could not be opened.
    Open,
    /// The engine failed while it ran.
    Engine,
    /// What the engine wrote could not be decoded.
    Format,
    /// The background task did not run to its end.
    ExecutionFault,
}

/// Why an operation failed.
#[derive(Debug)]
pub enum Failure {
    /// A request field is malformed or out of range; nothing was opened.
    Validation(ValidationError),
    /// The engine could not build its configuration; the field holds its
    /// message.
    Construction(String),
    /// The alignment source could not be opened; the field holds the
    /// reason.
    Open(String),
    /// The engine failed while it ran; the field holds its message.
    Engine(String),
    /// The engine's output is not text, or not JSON.
    Decode(DecodeError),
    /// The engine's text report does not follow its grammar.
    Report(ReportError),
    /// The engine's table could not be projected.
    Table(TableError),
    /// The background task did not run to its end; the field holds what
    /// the task runner said.
    TaskFault(String),
}

/// Mathematical content of [`Failure`].
pub enum FailureModel {
    Validation(ValidationErrorView),
    Construction(Seq<char>),
    Open(Seq<char>),
    Engine(Seq<char>),
    Decode(DecodeErrorView),
    Report(ReportError),
    Table(TableErrorView),
    TaskFault(Seq<char>),
}

impl View for Failure {
    type V = FailureModel;

    open spec fn view(&self) -> FailureModel {
        match self {
            Failure::Validation(e) => FailureModel::Validation(e@),
            Failure::Construction(m) => FailureModel::Construction(m@),
            Failure::Open(m) => FailureModel::Open(m@),
            Failure::Engine(m) => FailureModel::Engine(m@),
            Failure::Decode(e) => FailureModel::Decode(e@),
            Failure::Report(e) => FailureModel::Report(*e),
            Failure::Table(e) => FailureModel::Table(e@),
            Failure::TaskFault(m) => FailureModel::TaskFault(m@),
        }
    }
}

impl FailureModel {
    /// The stage at which the failure arose.
    pub open spec fn class(self) -> FailureClass {
        match self {
            FailureModel::Validation(_) => FailureClass::Validation,
            FailureModel::Construction(_) => FailureClass::Construction,
            FailureModel::Open(_) => FailureClass::Open,
            FailureModel::Engine(_) => FailureClass::Engine,
            FailureModel::Decode(_) => FailureClass::Format,
            FailureModel::Report(_) => FailureClass::Format,
            FailureModel::Table(_) => FailureClass::Format,
            FailureModel::TaskFault(_) => FailureClass::ExecutionFault,
        }
    }

    /// The wording of [`Failure::message`].
    pub open spec fn message_spec(self) -> Seq<char> {
        match self {
            FailureModel::Validation(e) => e.message_spec(),
            FailureModel::Construction(m) => m,
            FailureModel::Open(m) => "Failed to open BAM: "@ + m,
            FailureModel::Engine(m) => m,
            FailureModel::Decode(e) => e.message_spec(),
            FailureModel::Report(e) => e.message_spec(),
            FailureModel::Table(e) => e.message_spec(),
            FailureModel::TaskFault(m) => "Task join error: "@ + m,
        }
    }
}

impl Failure {
    /// The stage at which the failure arose.
    pub fn class(&self) -> (r: FailureClass)
        ensures
            r == self@.class(),
    {
        match self {
            Failure::Validation(_) => FailureClass::Validation,
            Failure::Construction(_) => FailureClass::Construction,
            Failure::Open(_) => FailureClass::Open,
            Failure::Engine(_) => FailureClass::Engine,
            Failure::Decode(_) => FailureClass::Format,
            Failure::Report(_) => FailureClass::Format,
            Failure::Table(_) => FailureClass::Format,
            Failure::TaskFault(_) => FailureClass::ExecutionFault,
        }
    }

    /// A message for the caller.
    pub fn message(&self) -> (r: String)
        ensures
            r@ == self@.message_spec(),
    {
        match self {
            Failure::Validation(e) => e.message(),
            Failure::Construction(m) => m.clone(),
            Failure::Open(m) => {
                let mut text = String::from_str("Failed to open BAM: ");
                text.append(m.as_str());
                text
            },
            Failure::Engine(m) => m.clone(),
            Failure::Decode(e) => e.message(),
            Failure::Report(e) => e.message(),
            Failure::Table(e) => e.message(),
            Failure::TaskFault(m) => {
                let mut text = String::from_str("Task join error: ");
                text.append(m.as_str());
                text
            },
        }
    }
}

/// What the caller gets once the background task is over: the outcome of
/// the operation when the task ran to its end, and a fault of its own
/// class, with what the task runner said, when it did not.
pub fn settle<T>(joined: Result<Result<T, Failure>, String>) -> (r: Result<T, Failure>)
    ensures
        match joined {
            Ok(outcome) => r == outcome,
            Err(m) => r matches Err(f) && f@ == FailureModel::TaskFault(m@),
        },
{
    match joined {
        Ok(outcome) => outcome,
        Err(m) => Err(Failure::TaskFault(m)),
    }
}

/// The class of faults holds the failures of the task runner and no
/// other: a failure that the operation reported is never mistaken for one.
pub proof fn lemma_fault_class(f: FailureModel)
    ensures
        f.class() == FailureClass::ExecutionFault <==> f is TaskFault,
        f.class() == FailureClass::Validation <==> f is Validation,
{
}

} // verus!
