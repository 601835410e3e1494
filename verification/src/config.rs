//! Translation of read options into the two filter configurations.
//!
//! A request is checked field by field in a fixed order and the first
//! violation found is the one reported. A request that passes is copied
//! into an [`AlignmentConfig`] and a [`ModConfig`]; a field that the
//! request leaves unset stays unset, and the engine's default applies.

use crate::error::{refusal_view, ValidationError, ValidationErrorView};
use crate::fraction::{is_unit_fraction, unit_fraction};
use crate::options::{ReadOptions, ReadOptionsView};
use crate::source::{
    resolve_source, source_spec, url_parse, AlignmentSource, AlignmentSourceView,
};
use crate::text::{copy_text, copy_text_list};
use crate::threshold::ThresholdPolicy;
use vstd::prelude::*;

verus! {

/// The first filter field that makes a request unacceptable, if any:
/// zero-length reads asked for, then a thread count of zero, then a sample
/// fraction outside `[0, 1]`.
pub open spec fn filter_violation(o: ReadOptionsView) -> Option<ValidationErrorView> {
    if o.include_zero_len == Some(true) {
        Some(ValidationErrorView::ZeroLengthReads)
    } else if o.threads == Some(0u8) {
        Some(ValidationErrorView::ThreadsZero)
    } else if o.sample_fraction matches Some(bits) && !is_unit_fraction(bits) {
        Some(ValidationErrorView::SampleFractionOutOfRange)
    } else {
        None
    }
}

/// Checks the filter fields of a request that can be judged on their own.
pub fn check_filters(options: &ReadOptions) -> (r: Result<(), ValidationError>)
    ensures
        refusal_view(r) == match filter_violation(options@) {
            Some(e) => Err::<(), ValidationErrorView>(e),
            None => Ok(()),
        },
{
    if let Some(true) = options.include_zero_len {
        return Err(ValidationError::ZeroLengthReads);
    }
    if let Some(threads) = options.threads {
        if threads == 0 {
            return Err(ValidationError::ThreadsZero);
        }
    }
    if let Some(bits) = options.sample_fraction {
        if !unit_fraction(bits) {
            return Err(ValidationError::SampleFractionOutOfRange);
        }
    }
    Ok(())
}

/// Filters on alignment records, as handed to the engine.
#[derive(Debug, Clone)]
pub struct AlignmentConfig {
    /// Where the alignment data is read from.
    pub source: AlignmentSource,
    /// Minimum sequence length.
    pub min_seq_len: Option<u32>,
    /// Minimum alignment length.
    pub min_align_len: Option<i32>,
    /// Read identifiers to keep. Order and repetition carry no meaning.
    pub read_id_set: Option<Vec<String>>,
    /// Number of threads, never zero.
    pub threads: Option<u32>,
    /// Whether zero-length reads are included, never true.
    pub include_zero_len: Option<bool>,
    /// Read-filter expression.
    pub read_filter: Option<String>,
    /// Bit pattern of the sample fraction, a number in `[0, 1]`.
    pub sample_fraction: Option<u64>,
    /// Minimum mapping quality.
    pub mapq_filter: Option<u8>,
    /// Whether reads without a mapping quality are excluded.
    pub exclude_mapq_unavail: Option<bool>,
    /// Region that reads must pass through.
    pub region: Option<String>,
    /// Whether reads must span the whole region.
    pub full_region: Option<bool>,
}

/// Mathematical content of [`AlignmentConfig`]. The read identifiers form a
/// set.
pub struct AlignmentConfigView {
    pub source: AlignmentSourceView,
    pub min_seq_len: Option<u32>,
    pub min_align_len: Option<i32>,
    pub read_id_set: Option<Set<Seq<char>>>,
    pub threads: Option<u32>,
    pub include_zero_len: Option<bool>,
    pub read_filter: Option<Seq<char>>,
    pub sample_fraction: Option<u64>,
    pub mapq_filter: Option<u8>,
    pub exclude_mapq_unavail: Option<bool>,
    pub region: Option<Seq<char>>,
    pub full_region: Option<bool>,
}

/// The set of the entries of an optional list.
pub open spec fn as_set(ids: Option<Seq<Seq<char>>>) -> Option<Set<Seq<char>>> {
    match ids {
        Some(list) => Some(list.to_set()),
        None => None,
    }
}

impl View for AlignmentConfig {
    type V = AlignmentConfigView;

    open spec fn view(&self) -> AlignmentConfigView {
        AlignmentConfigView {
            source: self.source@,
            min_seq_len: self.min_seq_len,
            min_align_len: self.min_align_len,
            read_id_set: as_set(self.read_id_set.deep_view()),
            threads: self.threads,
            include_zero_len: self.include_zero_len,
            read_filter: self.read_filter.deep_view(),
            sample_fraction: self.sample_fraction,
            mapq_filter: self.mapq_filter,
            exclude_mapq_unavail: self.exclude_mapq_unavail,
            region: self.region.deep_view(),
            full_region: self.full_region,
        }
    }
}

impl AlignmentConfigView {
    /// What every configuration built from a checked request satisfies.
    pub open spec fn wf(self) -> bool {
        &&& self.include_zero_len != Some(true)
        &&& self.threads matches Some(t) ==> 0 < t <= 255
        &&& self.sample_fraction matches Some(bits) ==> is_unit_fraction(bits)
    }
}

/// The configuration that copies the filter fields of a request, for a
/// source already resolved.
pub open spec fn alignment_config_spec(
    o: ReadOptionsView,
    source: AlignmentSourceView,
) -> AlignmentConfigView {
    AlignmentConfigView {
        source,
        min_seq_len: o.min_seq_len,
        min_align_len: o.min_align_len,
        read_id_set: as_set(o.read_id_set),
        threads: match o.threads {
            Some(v) => Some(v as u32),
            None => None,
        },
        include_zero_len: o.include_zero_len,
        read_filter: o.read_filter,
        sample_fraction: o.sample_fraction,
        mapq_filter: o.mapq_filter,
        exclude_mapq_unavail: o.exclude_mapq_unavail,
        region: o.region,
        full_region: o.full_region,
    }
}

/// The alignment configuration of a request, or the first violation in
/// checking order: the filter fields, then the URL.
pub open spec fn translate_alignment(
    o: ReadOptionsView,
    parsed: Result<Seq<char>, Seq<char>>,
) -> Result<AlignmentConfigView, ValidationErrorView> {
    match filter_violation(o) {
        Some(e) => Err(e),
        None => match source_spec(o.bam_path, o.treat_as_url, parsed) {
            Err(e) => Err(e),
            Ok(source) => Ok(alignment_config_spec(o, source)),
        },
    }
}

/// The outcome of an alignment translation with the configuration taken by
/// its view.
pub open spec fn alignment_result_view(r: Result<AlignmentConfig, ValidationError>) -> Result<
    AlignmentConfigView,
    ValidationErrorView,
> {
    match r {
        Ok(c) => Ok(c@),
        Err(e) => Err(e@),
    }
}

impl AlignmentConfig {
    /// Copies the filter fields of a request beside an already resolved
    /// source, without checking them.
    fn assemble(options: &ReadOptions, source: AlignmentSource) -> (r: AlignmentConfig)
        ensures
            r@ == alignment_config_spec(options@, source@),
    {
        AlignmentConfig {
            source,
            min_seq_len: options.min_seq_len,
            min_align_len: options.min_align_len,
            read_id_set: copy_text_list(&options.read_id_set),
            threads: match options.threads {
                Some(v) => Some(v as u32),
                None => None,
            },
            include_zero_len: options.include_zero_len,
            read_filter: copy_text(&options.read_filter),
            sample_fraction: options.sample_fraction,
            mapq_filter: options.mapq_filter,
            exclude_mapq_unavail: options.exclude_mapq_unavail,
            region: copy_text(&options.region),
            full_region: options.full_region,
        }
    }

    /// The minimum alignment length as a length: a minimum below zero
    /// excludes no read, as a minimum of zero does.
    pub fn min_align_len_floor(&self) -> (r: Option<u32>)
        ensures
            r == (match self.min_align_len {
                Some(v) => Some(if v < 0 {
                    0u32
                } else {
                    v as u32
                }),
                None => None,
            }),
    {
        match self.min_align_len {
            Some(v) => Some(if v < 0 {
                0
            } else {
                v as u32
            }),
            None => None,
        }
    }

    /// The alignment configuration of a request whose source has been
    /// resolved by the caller: the filter fields are checked and copied.
    pub fn with_source(options: &ReadOptions, source: AlignmentSource) -> (r: Result<
        AlignmentConfig,
        ValidationError,
    >)
        ensures
            alignment_result_view(r) == match filter_violation(options@) {
                Some(e) => Err::<AlignmentConfigView, ValidationErrorView>(e),
                None => Ok(alignment_config_spec(options@, source@)),
            },
            r matches Ok(c) ==> c@.wf(),
    {
        match check_filters(options) {
            Err(e) => Err(e),
            Ok(()) => Ok(Self::assemble(options, source)),
        }
    }

    /// The alignment configuration of a request.
    ///
    /// The request is refused, in this order, when it asks for zero-length
    /// reads, when its thread count is zero, when its sample fraction is
    /// outside `[0, 1]`, and when its path is to be read as a URL and is
    /// not one. Otherwise every field that is set is copied.
    pub fn from_options(options: &ReadOptions) -> (r: Result<AlignmentConfig, ValidationError>)
        ensures
            alignment_result_view(r) == translate_alignment(
                options@,
                url_parse(options@.bam_path),
            ),
            r matches Ok(c) ==> c@.wf(),
    {
        match check_filters(options) {
            Err(e) => Err(e),
            Ok(()) => match resolve_source(options.bam_path.as_str(), options.treat_as_url) {
                Err(e) => Err(e),
                Ok(source) => Ok(Self::assemble(options, source)),
            },
        }
    }
}

/// Filters on modification calls, as handed to the engine.
#[derive(Debug, Clone)]
pub struct ModConfig {
    /// Modification strand selector.
    pub mod_strand: Option<String>,
    /// Which modification qualities are accepted.
    pub threshold: ThresholdPolicy,
    /// Number of bases at each read end whose modification calls are
    /// dropped.
    pub trim_read_ends_mod: Option<u32>,
    /// Minimum base quality.
    pub base_qual_filter_mod: Option<u8>,
    /// Modification tag selector.
    pub tag: Option<String>,
    /// Region to which modification calls are restricted.
    pub mod_region: Option<String>,
}

/// Mathematical content of [`ModConfig`].
pub struct ModConfigView {
    pub mod_strand: Option<Seq<char>>,
    pub threshold: ThresholdPolicy,
    pub trim_read_ends_mod: Option<u32>,
    pub base_qual_filter_mod: Option<u8>,
    pub tag: Option<Seq<char>>,
    pub mod_region: Option<Seq<char>>,
}

impl View for ModConfig {
    type V = ModConfigView;

    open spec fn view(&self) -> ModConfigView {
        ModConfigView {
            mod_strand: self.mod_strand.deep_view(),
            threshold: self.threshold,
            trim_read_ends_mod: self.trim_read_ends_mod,
            base_qual_filter_mod: self.base_qual_filter_mod,
            tag: self.tag.deep_view(),
            mod_region: self.mod_region.deep_view(),
        }
    }
}

/// The modification configuration of a request: the threshold policy of
/// its two quality fields and a copy of the rest, or the reason the
/// rejection range is refused.
pub open spec fn translate_mods(o: ReadOptionsView) -> Result<ModConfigView, ValidationErrorView> {
    match ThresholdPolicy::derive_spec(o.min_mod_qual, o.reject_mod_qual_non_inclusive) {
        Err(e) => Err(e),
        Ok(threshold) => Ok(
            ModConfigView {
                mod_strand: o.mod_strand,
                threshold,
                trim_read_ends_mod: o.trim_read_ends_mod,
                base_qual_filter_mod: o.base_qual_filter_mod,
                tag: o.tag,
                mod_region: o.mod_region,
            },
        ),
    }
}

/// The outcome of a modification translation with the configuration taken
/// by its view.
pub open spec fn mod_result_view(r: Result<ModConfig, ValidationError>) -> Result<
    ModConfigView,
    ValidationErrorView,
> {
    match r {
        Ok(c) => Ok(c@),
        Err(e) => Err(e@),
    }
}

impl ModConfig {
    /// The modification configuration of a request.
    pub fn from_options(options: &ReadOptions) -> (r: Result<ModConfig, ValidationError>)
        ensures
            mod_result_view(r) == translate_mods(options@),
            r matches Ok(c) ==> c.threshold.wf(),
    {
        match ThresholdPolicy::derive(options.min_mod_qual, &options.reject_mod_qual_non_inclusive) {
            Err(e) => Err(e),
            Ok(threshold) => Ok(
                ModConfig {
                    mod_strand: copy_text(&options.mod_strand),
                    threshold,
                    trim_read_ends_mod: options.trim_read_ends_mod,
                    base_qual_filter_mod: options.base_qual_filter_mod,
                    tag: copy_text(&options.tag),
                    mod_region: copy_text(&options.mod_region),
                },
            ),
        }
    }
}

/// Both configurations of a request, or the first violation: those of the
/// alignment filters come before those of the modification filters.
pub open spec fn translate(o: ReadOptionsView, parsed: Result<Seq<char>, Seq<char>>) -> Result<
    (AlignmentConfigView, ModConfigView),
    ValidationErrorView,
> {
    match translate_alignment(o, parsed) {
        Err(e) => Err(e),
        Ok(alignment) => match translate_mods(o) {
            Err(e) => Err(e),
            Ok(mods) => Ok((alignment, mods)),
        },
    }
}

/// The outcome of a full translation with both configurations taken by
/// their views.
pub open spec fn input_result_view(r: Result<(AlignmentConfig, ModConfig), ValidationError>) -> Result<
    (AlignmentConfigView, ModConfigView),
    ValidationErrorView,
> {
    match r {
        Ok((a, m)) => Ok((a@, m@)),
        Err(e) => Err(e@),
    }
}

/// Builds both filter configurations of a request.
pub fn build_input_options(options: &ReadOptions) -> (r: Result<
    (AlignmentConfig, ModConfig),
    ValidationError,
>)
    ensures
        input_result_view(r) == translate(options@, url_parse(options@.bam_path)),
        r matches Ok((a, m)) ==> a@.wf() && m.threshold.wf(),
{
    match AlignmentConfig::from_options(options) {
        Err(e) => Err(e),
        Ok(alignment) => match ModConfig::from_options(options) {
            Err(e) => Err(e),
            Ok(mods) => Ok((alignment, mods)),
        },
    }
}

/// A request that asks for zero-length reads is refused for that reason,
/// whatever its other fields hold and whatever its path parses to.
pub proof fn lemma_zero_length_reads_refused(
    o: ReadOptionsView,
    parsed: Result<Seq<char>, Seq<char>>,
)
    requires
        o.include_zero_len == Some(true),
    ensures
        translate_alignment(o, parsed) == Err::<AlignmentConfigView, ValidationErrorView>(
            ValidationErrorView::ZeroLengthReads,
        ),
        translate(o, parsed) == Err::<(AlignmentConfigView, ModConfigView), ValidationErrorView>(
            ValidationErrorView::ZeroLengthReads,
        ),
{
}

/// A thread count of zero is refused. A positive thread count is never the
/// reason for a refusal: the request fares as it would without the field,
/// and a configuration that is built carries the count.
pub proof fn lemma_thread_count(o: ReadOptionsView, parsed: Result<Seq<char>, Seq<char>>)
    requires
        o.threads is Some,
    ensures
        o.threads == Some(0u8) ==> translate_alignment(o, parsed) is Err,
        o.threads == Some(0u8) && o.include_zero_len != Some(true) ==> translate_alignment(o, parsed)
            == Err::<AlignmentConfigView, ValidationErrorView>(ValidationErrorView::ThreadsZero),
        o.threads != Some(0u8) ==> translate_alignment(o, parsed) == (match translate_alignment(
            ReadOptionsView { threads: None, ..o },
            parsed,
        ) {
            Err(e) => Err(e),
            Ok(c) => Ok(AlignmentConfigView { threads: Some(o.threads->0 as u32), ..c }),
        }),
{
}

/// A sample fraction outside `[0, 1]` is refused. A sample fraction inside
/// is never the reason for a refusal: the request fares as it would
/// without the field, and a configuration that is built carries the
/// fraction.
pub proof fn lemma_sample_fraction(o: ReadOptionsView, parsed: Result<Seq<char>, Seq<char>>)
    requires
        o.sample_fraction is Some,
    ensures
        !is_unit_fraction(o.sample_fraction->0) ==> translate_alignment(o, parsed) is Err,
        !is_unit_fraction(o.sample_fraction->0) && filter_violation(
            ReadOptionsView { sample_fraction: None, ..o },
        ) is None ==> translate_alignment(o, parsed) == Err::<AlignmentConfigView, ValidationErrorView>(
            ValidationErrorView::SampleFractionOutOfRange,
        ),
        is_unit_fraction(o.sample_fraction->0) ==> translate_alignment(o, parsed) == (
        match translate_alignment(ReadOptionsView { sample_fraction: None, ..o }, parsed) {
            Err(e) => Err(e),
            Ok(c) => Ok(AlignmentConfigView { sample_fraction: o.sample_fraction, ..c }),
        }),
{
}

/// A request whose path is not to be read as a URL is never refused for
/// its path.
pub proof fn lemma_path_never_refused(o: ReadOptionsView, parsed: Result<Seq<char>, Seq<char>>)
    requires
        o.treat_as_url != Some(true),
        filter_violation(o) is None,
    ensures
        translate_alignment(o, parsed) == Ok::<AlignmentConfigView, ValidationErrorView>(
            alignment_config_spec(o, AlignmentSourceView::Path(o.bam_path)),
        ),
{
}

/// Every configuration that a translation yields is well formed.
pub proof fn lemma_translation_is_well_formed(
    o: ReadOptionsView,
    parsed: Result<Seq<char>, Seq<char>>,
)
    ensures
        translate(o, parsed) matches Ok((alignment, mods)) ==> alignment.wf() && mods.threshold.wf(),
{
}

/// Two translations of requests with the same content give results with
/// the same content: what `build_input_options` returns is determined by
/// the request alone.
pub proof fn lemma_translation_is_determined(
    a: ReadOptions,
    b: ReadOptions,
    ra: Result<(AlignmentConfig, ModConfig), ValidationError>,
    rb: Result<(AlignmentConfig, ModConfig), ValidationError>,
)
    requires
        a@ == b@,
        input_result_view(ra) == translate(a@, url_parse(a@.bam_path)),
        input_result_view(rb) == translate(b@, url_parse(b@.bam_path)),
    ensures
        input_result_view(ra) == input_result_view(rb),
{
}

} // verus!
