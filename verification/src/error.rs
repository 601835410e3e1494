//! Errors raised while a request is checked, before any file is opened.

use vstd::prelude::*;
use vstd::string::*;

verus! {

/// A request field that is malformed or out of range.
#[derive(Debug, Clone, PartialEq, Eq)]
pub enum ValidationError {
    /// `include_zero_len` was set to true.
    ZeroLengthReads,
    /// `threads` was set to zero.
    ThreadsZero,
    /// `sample_fraction` does not denote a number in `[0, 1]`.
    SampleFractionOutOfRange,
    /// `bam_path` was to be read as a URL and is not one; the field holds
    /// the parser's words.
    InvalidUrl(String),
    /// The rejection range has its high end below its low end.
    RejectRangeInverted,
    /// The rejection range does not have exactly two entries.
    RejectRangeMalformed,
    /// The window size is zero or negative.
    WindowSizeNotPositive,
    /// The step size is zero or negative.
    StepSizeNotPositive,
    /// The windowing operation is neither `density` nor `grad_density`.
    UnknownWindowOp,
    /// A region is required and is absent or empty.
    RegionRequired,
}

/// Mathematical content of [`ValidationError`].
pub enum ValidationErrorView {
    ZeroLengthReads,
    ThreadsZero,
    SampleFractionOutOfRange,
    InvalidUrl(Seq<char>),
    RejectRangeInverted,
    RejectRangeMalformed,
    WindowSizeNotPositive,
    StepSizeNotPositive,
    UnknownWindowOp,
    RegionRequired,
}

impl View for ValidationError {
    type V = ValidationErrorView;

    open spec fn view(&self) -> ValidationErrorView {
        match self {
            ValidationError::ZeroLengthReads => ValidationErrorView::ZeroLengthReads,
            ValidationError::ThreadsZero => ValidationErrorView::ThreadsZero,
            ValidationError::SampleFractionOutOfRange => ValidationErrorView::SampleFractionOutOfRange,
            ValidationError::InvalidUrl(m) => ValidationErrorView::InvalidUrl(m@),
            ValidationError::RejectRangeInverted => ValidationErrorView::RejectRangeInverted,
            ValidationError::RejectRangeMalformed => ValidationErrorView::RejectRangeMalformed,
            ValidationError::WindowSizeNotPositive => ValidationErrorView::WindowSizeNotPositive,
            ValidationError::StepSizeNotPositive => ValidationErrorView::StepSizeNotPositive,
            ValidationError::UnknownWindowOp => ValidationErrorView::UnknownWindowOp,
            ValidationError::RegionRequired => ValidationErrorView::RegionRequired,
        }
    }
}

/// The outcome of a check with the error taken by its view.
pub open spec fn refusal_view<T>(r: Result<T, ValidationError>) -> Result<T, ValidationErrorView> {
    match r {
        Ok(v) => Ok(v),
        Err(e) => Err(e@),
    }
}

impl ValidationErrorView {
    /// The wording of [`ValidationError::message`].
    pub open spec fn message_spec(self) -> Seq<char> {
        match self {
            ValidationErrorView::ZeroLengthReads => "include_zero_len=True is not yet supported due to potential crashes in the underlying library"@,
            ValidationErrorView::ThreadsZero => "threads must be a positive integer"@,
            ValidationErrorView::SampleFractionOutOfRange => "sample_fraction must be between 0 and 1"@,
            ValidationErrorView::InvalidUrl(m) => "Invalid URL: "@ + m,
            ValidationErrorView::RejectRangeInverted => "for rejectModQualNonInclusive, please set low < high"@,
            ValidationErrorView::RejectRangeMalformed => "rejectModQualNonInclusive must be an array of exactly 2 numbers [low, high]"@,
            ValidationErrorView::WindowSizeNotPositive => "Window size must be > 0"@,
            ValidationErrorView::StepSizeNotPositive => "Step size must be > 0"@,
            ValidationErrorView::UnknownWindowOp => "win_op must be set to 'density' or 'grad_density'"@,
            ValidationErrorView::RegionRequired => "region parameter is required for seq_table (cannot be empty)"@,
        }
    }
}

impl ValidationError {
    /// A message for the caller that names the offending field.
    pub fn message(&self) -> (r: String)
        ensures
            r@ == self@.message_spec(),
    {
        match self {
            ValidationError::ZeroLengthReads => String::from_str(
                "include_zero_len=True is not yet supported due to potential crashes in the underlying library",
            ),
            ValidationError::ThreadsZero => String::from_str("threads must be a positive integer"),
            ValidationError::SampleFractionOutOfRange => String::from_str(
                "sample_fraction must be between 0 and 1",
            ),
            ValidationError::InvalidUrl(m) => {
                let mut text = String::from_str("Invalid URL: ");
                text.append(m.as_str());
                text
            },
            ValidationError::RejectRangeInverted => String::from_str(
                "for rejectModQualNonInclusive, please set low < high",
            ),
            ValidationError::RejectRangeMalformed => String::from_str(
                "rejectModQualNonInclusive must be an array of exactly 2 numbers [low, high]",
            ),
            ValidationError::WindowSizeNotPositive => String::from_str("Window size must be > 0"),
            ValidationError::StepSizeNotPositive => String::from_str("Step size must be > 0"),
            ValidationError::UnknownWindowOp => String::from_str(
                "win_op must be set to 'density' or 'grad_density'",
            ),
            ValidationError::RegionRequired => String::from_str(
                "region parameter is required for seq_table (cannot be empty)",
            ),
        }
    }
}

} // verus!
