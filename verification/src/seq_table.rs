//! Translation of a sequence-table request.
//!
//! A sequence table is always drawn for one region. The request must name
//! it; the table then holds only reads that span the whole region, and
//! modification calls are restricted to the same region, whatever the
//! request says in `full_region` and `mod_region`.

use crate::config::{
    build_input_options, translate, AlignmentConfig, AlignmentConfigView, ModConfig, ModConfigView,
};
use crate::error::{ValidationError, ValidationErrorView};
use crate::options::{ReadOptions, ReadOptionsView};
use crate::source::url_parse;
use vstd::prelude::*;

verus! {

/// The options that a sequence-table request stands for: the request with
/// `full_region` set to true and `mod_region` set to the region, or an
/// error when the region is absent or empty.
pub open spec fn seq_table_options_spec(o: ReadOptionsView) -> Result<
    ReadOptionsView,
    ValidationErrorView,
> {
    match o.region {
        Some(region) => if region.len() == 0 {
            Err(ValidationErrorView::RegionRequired)
        } else {
            Ok(ReadOptionsView { full_region: Some(true), mod_region: Some(region), ..o })
        },
        None => Err(ValidationErrorView::RegionRequired),
    }
}

/// The outcome of fixing the options with the record taken by its view.
pub open spec fn options_result_view(r: Result<ReadOptions, ValidationError>) -> Result<
    ReadOptionsView,
    ValidationErrorView,
> {
    match r {
        Ok(o) => Ok(o@),
        Err(e) => Err(e@),
    }
}

/// Checks that a request names a region and fixes the two fields that a
/// sequence table does not leave to the caller.
pub fn seq_table_options(options: &ReadOptions) -> (r: Result<ReadOptions, ValidationError>)
    ensures
        options_result_view(r) == seq_table_options_spec(options@),
{
    match &options.region {
        None => Err(ValidationError::RegionRequired),
        Some(region) => {
            if region.as_str().is_empty() {
                return Err(ValidationError::RegionRequired);
            }
            let mut fixed = options.clone();
            fixed.full_region = Some(true);
            fixed.mod_region = Some(region.clone());
            Ok(fixed)
        },
    }
}

/// Everything the engine needs to draw a sequence table.
#[derive(Debug, Clone)]
pub struct SeqTablePlan {
    pub alignment: AlignmentConfig,
    pub mods: ModConfig,
    /// The region of the table, never empty.
    pub region: String,
}

/// Mathematical content of [`SeqTablePlan`].
pub struct SeqTablePlanView {
    pub alignment: AlignmentConfigView,
    pub mods: ModConfigView,
    pub region: Seq<char>,
}

impl View for SeqTablePlan {
    type V = SeqTablePlanView;

    open spec fn view(&self) -> SeqTablePlanView {
        SeqTablePlanView { alignment: self.alignment@, mods: self.mods@, region: self.region@ }
    }
}

/// The plan of a sequence-table request, or the first violation: the
/// region is looked at before any other field.
pub open spec fn translate_seq_table(
    o: ReadOptionsView,
    parsed: Result<Seq<char>, Seq<char>>,
) -> Result<SeqTablePlanView, ValidationErrorView> {
    match seq_table_options_spec(o) {
        Err(e) => Err(e),
        Ok(fixed) => match translate(fixed, parsed) {
            Err(e) => Err(e),
            Ok((alignment, mods)) => Ok(
                SeqTablePlanView { alignment, mods, region: o.region->0 },
            ),
        },
    }
}

/// The outcome of planning with the plan taken by its view.
pub open spec fn seq_table_result_view(r: Result<SeqTablePlan, ValidationError>) -> Result<
    SeqTablePlanView,
    ValidationErrorView,
> {
    match r {
        Ok(p) => Ok(p@),
        Err(e) => Err(e@),
    }
}

/// Translates a sequence-table request.
pub fn plan_seq_table(options: &ReadOptions) -> (r: Result<SeqTablePlan, ValidationError>)
    ensures
        seq_table_result_view(r) == translate_seq_table(options@, url_parse(options@.bam_path)),
        r matches Ok(p) ==> {
            &&& p.alignment@.wf()
            &&& p.mods.threshold.wf()
            &&& p.region@.len() > 0
            &&& p.alignment@.region == Some(p.region@)
            &&& p.alignment@.full_region == Some(true)
            &&& p.mods@.mod_region == Some(p.region@)
        },
{
    match seq_table_options(options) {
        Err(e) => Err(e),
        Ok(fixed) => match build_input_options(&fixed) {
            Err(e) => Err(e),
            Ok((alignment, mods)) => match &fixed.region {
                Some(region) => Ok(SeqTablePlan { alignment, mods, region: region.clone() }),
                None => Err(ValidationError::RegionRequired),
            },
        },
    }
}

/// A request without a region, or with an empty one, is refused for that
/// reason before any other field is looked at.
pub proof fn lemma_region_required(o: ReadOptionsView, parsed: Result<Seq<char>, Seq<char>>)
    requires
        o.region is None || o.region == Some(Seq::<char>::empty()),
    ensures
        translate_seq_table(o, parsed) == Err::<SeqTablePlanView, ValidationErrorView>(
            ValidationErrorView::RegionRequired,
        ),
{
}

/// With a region given, the plan asks for reads that span the whole region
/// and restricts modification calls to the region.
pub proof fn lemma_region_is_forced(o: ReadOptionsView, parsed: Result<Seq<char>, Seq<char>>)
    requires
        o.region matches Some(region) && region.len() > 0,
    ensures
        translate_seq_table(o, parsed) matches Ok(plan) ==> {
            &&& plan.region == o.region->0
            &&& plan.alignment.region == o.region
            &&& plan.alignment.full_region == Some(true)
            &&& plan.mods.mod_region == o.region
        },
{
}

/// What a request says in `full_region` and `mod_region` has no bearing
/// on its plan.
pub proof fn lemma_caller_values_are_ignored(
    o: ReadOptionsView,
    parsed: Result<Seq<char>, Seq<char>>,
    full_region: Option<bool>,
    mod_region: Option<Seq<char>>,
)
    ensures
        translate_seq_table(ReadOptionsView { full_region, mod_region, ..o }, parsed)
            == translate_seq_table(o, parsed),
{
}

/// A sequence-table request that asks for zero-length reads is refused.
pub proof fn lemma_seq_table_refuses_zero_length_reads(
    o: ReadOptionsView,
    parsed: Result<Seq<char>, Seq<char>>,
)
    requires
        o.include_zero_len == Some(true),
    ensures
        translate_seq_table(o, parsed) is Err,
{
}

/// Two plans for sequence-table requests with the same content have the
/// same content: what `plan_seq_table` returns is determined by the
/// request alone.
pub proof fn lemma_seq_table_plan_is_determined(
    a: ReadOptions,
    b: ReadOptions,
    ra: Result<SeqTablePlan, ValidationError>,
    rb: Result<SeqTablePlan, ValidationError>,
)
    requires
        a@ == b@,
        seq_table_result_view(ra) == translate_seq_table(a@, url_parse(a@.bam_path)),
        seq_table_result_view(rb) == translate_seq_table(b@, url_parse(b@.bam_path)),
    ensures
        seq_table_result_view(ra) == seq_table_result_view(rb),
{
}

} // verus!
