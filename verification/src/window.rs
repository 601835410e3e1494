//! Translation of a windowing request.
//!
//! The filter fields are translated as for any read request. Then the
//! window size and the step size must be positive, and the operation must
//! be `density`, `grad_density` or left unset, in which case it is
//! `density`.

use crate::config::{
    build_input_options, translate, AlignmentConfig, AlignmentConfigView, ModConfig, ModConfigView,
};
use crate::error::{refusal_view, ValidationError, ValidationErrorView};
use crate::options::{ReadOptions, WindowOptions, WindowOptionsView};
use crate::source::url_parse;
use crate::text::same_text;
use vstd::prelude::*;

verus! {

/// The statistic computed over each window.
#[derive(Clone, Copy, Debug, PartialEq, Eq, Structural)]
pub enum WindowOp {
    /// Mean modification density.
    Density,
    /// Gradient of the modification density.
    GradDensity,
}

/// The window parameters of a request once checked.
#[derive(Clone, Copy, Debug, PartialEq, Eq, Structural)]
pub struct WindowShape {
    /// Window size in bases, at least 1.
    pub win: u32,
    /// Step size in bases, at least 1.
    pub step: u32,
    /// The statistic to compute.
    pub op: WindowOp,
}

impl WindowShape {
    /// Both sizes are positive and fit the 32-bit fields they came from.
    pub open spec fn wf(self) -> bool {
        0 < self.win <= i32::MAX && 0 < self.step <= i32::MAX
    }
}

/// The operation that a request names.
pub open spec fn window_op_spec(win_op: Option<Seq<char>>) -> Result<WindowOp, ValidationErrorView> {
    match win_op {
        None => Ok(WindowOp::Density),
        Some(name) => if name == "density"@ {
            Ok(WindowOp::Density)
        } else if name == "grad_density"@ {
            Ok(WindowOp::GradDensity)
        } else {
            Err(ValidationErrorView::UnknownWindowOp)
        },
    }
}

/// The window parameters of a request, or the first violation: the window
/// size, then the step size, then the operation.
pub open spec fn window_shape_spec(win: i32, step: i32, win_op: Option<Seq<char>>) -> Result<
    WindowShape,
    ValidationErrorView,
> {
    if win <= 0 {
        Err(ValidationErrorView::WindowSizeNotPositive)
    } else if step <= 0 {
        Err(ValidationErrorView::StepSizeNotPositive)
    } else {
        match window_op_spec(win_op) {
            Err(e) => Err(e),
            Ok(op) => Ok(WindowShape { win: win as u32, step: step as u32, op }),
        }
    }
}

/// Reads the name of a windowing operation.
pub fn parse_window_op(win_op: &Option<String>) -> (r: Result<WindowOp, ValidationError>)
    ensures
        refusal_view(r) == window_op_spec(win_op.deep_view()),
{
    match win_op {
        None => Ok(WindowOp::Density),
        Some(name) => {
            if same_text(name.as_str(), "density") {
                Ok(WindowOp::Density)
            } else if same_text(name.as_str(), "grad_density") {
                Ok(WindowOp::GradDensity)
            } else {
                Err(ValidationError::UnknownWindowOp)
            }
        },
    }
}

/// Checks the three windowing fields of a request.
pub fn check_window(win: i32, step: i32, win_op: &Option<String>) -> (r: Result<
    WindowShape,
    ValidationError,
>)
    ensures
        refusal_view(r) == window_shape_spec(win, step, win_op.deep_view()),
        r matches Ok(shape) ==> shape.wf(),
{
    if win <= 0 {
        return Err(ValidationError::WindowSizeNotPositive);
    }
    if step <= 0 {
        return Err(ValidationError::StepSizeNotPositive);
    }
    match parse_window_op(win_op) {
        Err(e) => Err(e),
        Ok(op) => Ok(WindowShape { win: win as u32, step: step as u32, op }),
    }
}

/// Everything the engine needs for a windowing run.
#[derive(Debug, Clone)]
pub struct WindowPlan {
    pub alignment: AlignmentConfig,
    pub mods: ModConfig,
    pub shape: WindowShape,
}

/// Mathematical content of [`WindowPlan`].
pub struct WindowPlanView {
    pub alignment: AlignmentConfigView,
    pub mods: ModConfigView,
    pub shape: WindowShape,
}

impl View for WindowPlan {
    type V = WindowPlanView;

    open spec fn view(&self) -> WindowPlanView {
        WindowPlanView { alignment: self.alignment@, mods: self.mods@, shape: self.shape }
    }
}

/// The plan of a windowing request, or the first violation: those of the
/// filter fields come before those of the windowing fields.
pub open spec fn translate_window(
    o: WindowOptionsView,
    parsed: Result<Seq<char>, Seq<char>>,
) -> Result<WindowPlanView, ValidationErrorView> {
    match translate(o.read, parsed) {
        Err(e) => Err(e),
        Ok((alignment, mods)) => match window_shape_spec(o.win, o.step, o.win_op) {
            Err(e) => Err(e),
            Ok(shape) => Ok(WindowPlanView { alignment, mods, shape }),
        },
    }
}

/// The outcome of planning with the plan taken by its view.
pub open spec fn window_result_view(r: Result<WindowPlan, ValidationError>) -> Result<
    WindowPlanView,
    ValidationErrorView,
> {
    match r {
        Ok(p) => Ok(p@),
        Err(e) => Err(e@),
    }
}

/// Translates a windowing request.
pub fn plan_window(options: &WindowOptions) -> (r: Result<WindowPlan, ValidationError>)
    ensures
        window_result_view(r) == translate_window(options@, url_parse(options@.read.bam_path)),
        r matches Ok(p) ==> p.alignment@.wf() && p.mods.threshold.wf() && p.shape.wf(),
{
    let read = ReadOptions::from(options);
    match build_input_options(&read) {
        Err(e) => Err(e),
        Ok((alignment, mods)) => match check_window(options.win, options.step, &options.win_op) {
            Err(e) => Err(e),
            Ok(shape) => Ok(WindowPlan { alignment, mods, shape }),
        },
    }
}

/// The windowing fields are accepted exactly when both sizes are positive
/// and the operation is unset, `density` or `grad_density`.
pub proof fn lemma_window_accepted(win: i32, step: i32, win_op: Option<Seq<char>>)
    ensures
        window_shape_spec(win, step, win_op) is Ok <==> win > 0 && step > 0 && (win_op is None
            || win_op == Some("density"@) || win_op == Some("grad_density"@)),
        window_shape_spec(win, step, win_op) matches Ok(shape) ==> shape.win == win && shape.step
            == step && shape.wf(),
        win <= 0 ==> window_shape_spec(win, step, win_op) == Err::<WindowShape, ValidationErrorView>(
            ValidationErrorView::WindowSizeNotPositive,
        ),
        win > 0 && step <= 0 ==> window_shape_spec(win, step, win_op) == Err::<
            WindowShape,
            ValidationErrorView,
        >(ValidationErrorView::StepSizeNotPositive),
{
}

/// A windowing request is refused whenever its filter fields are, for the
/// same reason; and whenever its windowing fields are.
pub proof fn lemma_window_refused(o: WindowOptionsView, parsed: Result<Seq<char>, Seq<char>>)
    ensures
        translate(o.read, parsed) matches Err(e) ==> translate_window(o, parsed) == Err::<
            WindowPlanView,
            ValidationErrorView,
        >(e),
        window_shape_spec(o.win, o.step, o.win_op) is Err ==> translate_window(o, parsed) is Err,
        o.read.include_zero_len == Some(true) ==> translate_window(o, parsed) == Err::<
            WindowPlanView,
            ValidationErrorView,
        >(ValidationErrorView::ZeroLengthReads),
{
}

/// Two plans for windowing requests with the same content have the same
/// content: what `plan_window` returns is determined by the request alone.
pub proof fn lemma_window_plan_is_determined(
    a: WindowOptions,
    b: WindowOptions,
    ra: Result<WindowPlan, ValidationError>,
    rb: Result<WindowPlan, ValidationError>,
)
    requires
        a@ == b@,
        window_result_view(ra) == translate_window(a@, url_parse(a@.read.bam_path)),
        window_result_view(rb) == translate_window(b@, url_parse(b@.read.bam_path)),
    ensures
        window_result_view(ra) == window_result_view(rb),
{
}

} // verus!
