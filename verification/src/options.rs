//! Request option records.
//!
//! Every record is a passive holder of optional request fields. A field that
//! is `None` is unset and leaves the corresponding engine default in place.

use crate::text::{copy_bytes, copy_text, copy_text_list};
use vstd::prelude::*;

verus! {

/// Options for inspecting the metadata of an alignment file.
#[non_exhaustive]
#[derive(Debug, Clone)]
pub struct PeekOptions {
    /// Path to the BAM file (local path or URL).
    pub bam_path: String,
    /// If true, treat `bam_path` as a URL. Otherwise treat it as a file path.
    pub treat_as_url: Option<bool>,
}

/// Mathematical content of [`PeekOptions`].
pub struct PeekOptionsView {
    pub bam_path: Seq<char>,
    pub treat_as_url: Option<bool>,
}

impl View for PeekOptions {
    type V = PeekOptionsView;

    open spec fn view(&self) -> PeekOptionsView {
        PeekOptionsView { bam_path: self.bam_path@, treat_as_url: self.treat_as_url }
    }
}

impl Default for PeekOptions {
    fn default() -> (r: Self)
        ensures
            r@ == (PeekOptionsView { bam_path: Seq::empty(), treat_as_url: None }),
    {
        PeekOptions { bam_path: String::new(), treat_as_url: None }
    }
}

/// Options for read operations: alignment filters and modification filters.
#[non_exhaustive]
#[derive(Debug)]
pub struct ReadOptions {
    /// Path to the BAM file (local path or URL).
    pub bam_path: String,
    /// If true, treat `bam_path` as a URL. Otherwise treat it as a file path.
    pub treat_as_url: Option<bool>,
    /// Minimum sequence length filter.
    pub min_seq_len: Option<u32>,
    /// Minimum alignment length filter.
    pub min_align_len: Option<i32>,
    /// Filter to a set of read IDs.
    pub read_id_set: Option<Vec<String>>,
    /// Number of threads for BAM reading.
    pub threads: Option<u8>,
    /// Include zero-length sequences. Not supported: a request that sets
    /// this to true is rejected.
    pub include_zero_len: Option<bool>,
    /// Comma-separated read filter (e.g. `primary_forward,primary_reverse`).
    pub read_filter: Option<String>,
    /// Subsample fraction, held as the IEEE 754 binary64 bit pattern of the
    /// number (what `f64::to_bits` returns). Must denote a number in `[0, 1]`.
    pub sample_fraction: Option<u64>,
    /// Minimum mapping quality filter.
    pub mapq_filter: Option<u8>,
    /// Exclude reads with unavailable mapping quality.
    pub exclude_mapq_unavail: Option<bool>,
    /// Genomic region filter (e.g. `chr1:1000-2000`).
    pub region: Option<String>,
    /// Only include reads fully spanning the region.
    pub full_region: Option<bool>,
    /// Filter to a specific modification tag.
    pub tag: Option<String>,
    /// Filter by modification strand (`bc` or `bc_comp`).
    pub mod_strand: Option<String>,
    /// Minimum modification quality threshold.
    pub min_mod_qual: Option<u8>,
    /// Reject modification calls whose quality lies strictly between the two
    /// entries `[low, high]`.
    pub reject_mod_qual_non_inclusive: Option<Vec<u8>>,
    /// Trim modification information from read ends (bp).
    pub trim_read_ends_mod: Option<u32>,
    /// Base quality filter for modifications.
    pub base_qual_filter_mod: Option<u8>,
    /// Genomic region for modification filtering.
    pub mod_region: Option<String>,
}

/// Mathematical content of [`ReadOptions`].
pub struct ReadOptionsView {
    pub bam_path: Seq<char>,
    pub treat_as_url: Option<bool>,
    pub min_seq_len: Option<u32>,
    pub min_align_len: Option<i32>,
    pub read_id_set: Option<Seq<Seq<char>>>,
    pub threads: Option<u8>,
    pub include_zero_len: Option<bool>,
    pub read_filter: Option<Seq<char>>,
    pub sample_fraction: Option<u64>,
    pub mapq_filter: Option<u8>,
    pub exclude_mapq_unavail: Option<bool>,
    pub region: Option<Seq<char>>,
    pub full_region: Option<bool>,
    pub tag: Option<Seq<char>>,
    pub mod_strand: Option<Seq<char>>,
    pub min_mod_qual: Option<u8>,
    pub reject_mod_qual_non_inclusive: Option<Seq<u8>>,
    pub trim_read_ends_mod: Option<u32>,
    pub base_qual_filter_mod: Option<u8>,
    pub mod_region: Option<Seq<char>>,
}

impl ReadOptionsView {
    /// The record in which only the path is set.
    pub open spec fn unset(bam_path: Seq<char>) -> ReadOptionsView {
        ReadOptionsView {
            bam_path,
            treat_as_url: None,
            min_seq_len: None,
            min_align_len: None,
            read_id_set: None,
            threads: None,
            include_zero_len: None,
            read_filter: None,
            sample_fraction: None,
            mapq_filter: None,
            exclude_mapq_unavail: None,
            region: None,
            full_region: None,
            tag: None,
            mod_strand: None,
            min_mod_qual: None,
            reject_mod_qual_non_inclusive: None,
            trim_read_ends_mod: None,
            base_qual_filter_mod: None,
            mod_region: None,
        }
    }
}

impl View for ReadOptions {
    type V = ReadOptionsView;

    open spec fn view(&self) -> ReadOptionsView {
        ReadOptionsView {
            bam_path: self.bam_path@,
            treat_as_url: self.treat_as_url,
            min_seq_len: self.min_seq_len,
            min_align_len: self.min_align_len,
            read_id_set: self.read_id_set.deep_view(),
            threads: self.threads,
            include_zero_len: self.include_zero_len,
            read_filter: self.read_filter.deep_view(),
            sample_fraction: self.sample_fraction,
            mapq_filter: self.mapq_filter,
            exclude_mapq_unavail: self.exclude_mapq_unavail,
            region: self.region.deep_view(),
            full_region: self.full_region,
            tag: self.tag.deep_view(),
            mod_strand: self.mod_strand.deep_view(),
            min_mod_qual: self.min_mod_qual,
            reject_mod_qual_non_inclusive: self.reject_mod_qual_non_inclusive.deep_view(),
            trim_read_ends_mod: self.trim_read_ends_mod,
            base_qual_filter_mod: self.base_qual_filter_mod,
            mod_region: self.mod_region.deep_view(),
        }
    }
}

impl Default for ReadOptions {
    fn default() -> (r: Self)
        ensures
            r@ == ReadOptionsView::unset(Seq::empty()),
    {
        ReadOptions {
            bam_path: String::new(),
            treat_as_url: None,
            min_seq_len: None,
            min_align_len: None,
            read_id_set: None,
            threads: None,
            include_zero_len: None,
            read_filter: None,
            sample_fraction: None,
            mapq_filter: None,
            exclude_mapq_unavail: None,
            region: None,
            full_region: None,
            tag: None,
            mod_strand: None,
            min_mod_qual: None,
            reject_mod_qual_non_inclusive: None,
            trim_read_ends_mod: None,
            base_qual_filter_mod: None,
            mod_region: None,
        }
    }
}

impl Clone for ReadOptions {
    fn clone(&self) -> (r: Self)
        ensures
            r@ == self@,
    {
        ReadOptions {
            bam_path: self.bam_path.clone(),
            treat_as_url: self.treat_as_url,
            min_seq_len: self.min_seq_len,
            min_align_len: self.min_align_len,
            read_id_set: copy_text_list(&self.read_id_set),
            threads: self.threads,
            include_zero_len: self.include_zero_len,
            read_filter: copy_text(&self.read_filter),
            sample_fraction: self.sample_fraction,
            mapq_filter: self.mapq_filter,
            exclude_mapq_unavail: self.exclude_mapq_unavail,
            region: copy_text(&self.region),
            full_region: self.full_region,
            tag: copy_text(&self.tag),
            mod_strand: copy_text(&self.mod_strand),
            min_mod_qual: self.min_mod_qual,
            reject_mod_qual_non_inclusive: copy_bytes(&self.reject_mod_qual_non_inclusive),
            trim_read_ends_mod: self.trim_read_ends_mod,
            base_qual_filter_mod: self.base_qual_filter_mod,
            mod_region: copy_text(&self.mod_region),
        }
    }
}

/// Options for simulating an alignment file.
#[non_exhaustive]
#[derive(Debug, Clone)]
pub struct SimulateOptions {
    /// JSON configuration string for the simulation.
    pub json_config: String,
    /// Output path for the generated BAM file.
    pub bam_path: String,
    /// Output path for the generated FASTA reference file.
    pub fasta_path: String,
}

/// Mathematical content of [`SimulateOptions`].
pub struct SimulateOptionsView {
    pub json_config: Seq<char>,
    pub bam_path: Seq<char>,
    pub fasta_path: Seq<char>,
}

impl View for SimulateOptions {
    type V = SimulateOptionsView;

    open spec fn view(&self) -> SimulateOptionsView {
        SimulateOptionsView {
            json_config: self.json_config@,
            bam_path: self.bam_path@,
            fasta_path: self.fasta_path@,
        }
    }
}

impl Default for SimulateOptions {
    fn default() -> (r: Self)
        ensures
            r@ == (SimulateOptionsView {
                json_config: Seq::empty(),
                bam_path: Seq::empty(),
                fasta_path: Seq::empty(),
            }),
    {
        SimulateOptions {
            json_config: String::new(),
            bam_path: String::new(),
            fasta_path: String::new(),
        }
    }
}

/// Options for windowed modification analysis: every filter field of
/// [`ReadOptions`], the two window parameters and the kind of statistic.
#[non_exhaustive]
#[derive(Debug, Clone)]
pub struct WindowOptions {
    /// Path to the BAM file (local path or URL).
    pub bam_path: String,
    /// If true, treat `bam_path` as a URL. Otherwise treat it as a file path.
    pub treat_as_url: Option<bool>,
    /// Window size in number of bases.
    pub win: i32,
    /// Step size for sliding the window.
    pub step: i32,
    /// Type of windowing operation: `density` or `grad_density`.
    pub win_op: Option<String>,
    /// Minimum sequence length filter.
    pub min_seq_len: Option<u32>,
    /// Minimum alignment length filter.
    pub min_align_len: Option<i32>,
    /// Filter to a set of read IDs.
    pub read_id_set: Option<Vec<String>>,
    /// Number of threads for BAM reading.
    pub threads: Option<u8>,
    /// Include zero-length sequences. Not supported: a request that sets
    /// this to true is rejected.
    pub include_zero_len: Option<bool>,
    /// Comma-separated read filter.
    pub read_filter: Option<String>,
    /// Subsample fraction, held as the IEEE 754 binary64 bit pattern of the
    /// number (what `f64::to_bits` returns). Must denote a number in `[0, 1]`.
    pub sample_fraction: Option<u64>,
    /// Minimum mapping quality filter.
    pub mapq_filter: Option<u8>,
    /// Exclude reads with unavailable mapping quality.
    pub exclude_mapq_unavail: Option<bool>,
    /// Genomic region filter.
    pub region: Option<String>,
    /// Only include reads fully spanning the region.
    pub full_region: Option<bool>,
    /// Filter to a specific modification tag.
    pub tag: Option<String>,
    /// Filter by modification strand.
    pub mod_strand: Option<String>,
    /// Minimum modification quality threshold.
    pub min_mod_qual: Option<u8>,
    /// Reject modification calls whose quality lies strictly between the two
    /// entries `[low, high]`.
    pub reject_mod_qual_non_inclusive: Option<Vec<u8>>,
    /// Trim modification information from read ends (bp).
    pub trim_read_ends_mod: Option<u32>,
    /// Base quality filter for modifications.
    pub base_qual_filter_mod: Option<u8>,
    /// Genomic region for modification filtering.
    pub mod_region: Option<String>,
}

/// Mathematical content of [`WindowOptions`]: the filter fields as a read
/// record, and the three windowing fields.
pub struct WindowOptionsView {
    pub read: ReadOptionsView,
    pub win: i32,
    pub step: i32,
    pub win_op: Option<Seq<char>>,
}

impl View for WindowOptions {
    type V = WindowOptionsView;

    open spec fn view(&self) -> WindowOptionsView {
        WindowOptionsView {
            read: ReadOptionsView {
                bam_path: self.bam_path@,
                treat_as_url: self.treat_as_url,
                min_seq_len: self.min_seq_len,
                min_align_len: self.min_align_len,
                read_id_set: self.read_id_set.deep_view(),
                threads: self.threads,
                include_zero_len: self.include_zero_len,
                read_filter: self.read_filter.deep_view(),
                sample_fraction: self.sample_fraction,
                mapq_filter: self.mapq_filter,
                exclude_mapq_unavail: self.exclude_mapq_unavail,
                region: self.region.deep_view(),
                full_region: self.full_region,
                tag: self.tag.deep_view(),
                mod_strand: self.mod_strand.deep_view(),
                min_mod_qual: self.min_mod_qual,
                reject_mod_qual_non_inclusive: self.reject_mod_qual_non_inclusive.deep_view(),
                trim_read_ends_mod: self.trim_read_ends_mod,
                base_qual_filter_mod: self.base_qual_filter_mod,
                mod_region: self.mod_region.deep_view(),
            },
            win: self.win,
            step: self.step,
            win_op: self.win_op.deep_view(),
        }
    }
}

impl Default for WindowOptions {
    fn default() -> (r: Self)
        ensures
            r@ == (WindowOptionsView {
                read: ReadOptionsView::unset(Seq::empty()),
                win: 0,
                step: 0,
                win_op: None,
            }),
    {
        WindowOptions {
            bam_path: String::new(),
            treat_as_url: None,
            win: 0,
            step: 0,
            win_op: None,
            min_seq_len: None,
            min_align_len: None,
            read_id_set: None,
            threads: None,
            include_zero_len: None,
            read_filter: None,
            sample_fraction: None,
            mapq_filter: None,
            exclude_mapq_unavail: None,
            region: None,
            full_region: None,
            tag: None,
            mod_strand: None,
            min_mod_qual: None,
            reject_mod_qual_non_inclusive: None,
            trim_read_ends_mod: None,
            base_qual_filter_mod: None,
            mod_region: None,
        }
    }
}

impl ReadOptions {
    /// The read options carried by a windowing request: every filter field
    /// is taken over unchanged and the windowing fields are dropped.
    pub fn from(opts: &WindowOptions) -> (r: ReadOptions)
        ensures
            r@ == opts@.read,
    {
        ReadOptions {
            bam_path: opts.bam_path.clone(),
            treat_as_url: opts.treat_as_url,
            min_seq_len: opts.min_seq_len,
            min_align_len: opts.min_align_len,
            read_id_set: copy_text_list(&opts.read_id_set),
            threads: opts.threads,
            include_zero_len: opts.include_zero_len,
            read_filter: copy_text(&opts.read_filter),
            sample_fraction: opts.sample_fraction,
            mapq_filter: opts.mapq_filter,
            exclude_mapq_unavail: opts.exclude_mapq_unavail,
            region: copy_text(&opts.region),
            full_region: opts.full_region,
            tag: copy_text(&opts.tag),
            mod_strand: copy_text(&opts.mod_strand),
            min_mod_qual: opts.min_mod_qual,
            reject_mod_qual_non_inclusive: copy_bytes(&opts.reject_mod_qual_non_inclusive),
            trim_read_ends_mod: opts.trim_read_ends_mod,
            base_qual_filter_mod: opts.base_qual_filter_mod,
            mod_region: copy_text(&opts.mod_region),
        }
    }
}

} // verus!
