//! Where the alignment data is read from: a local path or a URL.

use crate::error::{ValidationError, ValidationErrorView};
use crate::options::PeekOptions;
use vstd::prelude::*;

verus! {

/// The place an alignment file is read from.
#[derive(Debug, Clone)]
pub enum AlignmentSource {
    /// A path on the local file system, taken as given.
    Path(String),
    /// An absolute URL in its normalised serialisation.
    Url(String),
}

/// Mathematical content of [`AlignmentSource`].
pub enum AlignmentSourceView {
    Path(Seq<char>),
    Url(Seq<char>),
}

impl View for AlignmentSource {
    type V = AlignmentSourceView;

    open spec fn view(&self) -> AlignmentSourceView {
        match self {
            AlignmentSource::Path(p) => AlignmentSourceView::Path(p@),
            AlignmentSource::Url(u) => AlignmentSourceView::Url(u@),
        }
    }
}

/// What `url::Url::parse` makes of a string: the serialisation of the URL
/// it read, or the words of its error.
pub uninterp spec fn url_parse(input: Seq<char>) -> Result<Seq<char>, Seq<char>>;

/// The outcome of a URL parse with the string taken by its characters.
pub open spec fn parsed_view(parsed: Result<String, String>) -> Result<Seq<char>, Seq<char>> {
    match parsed {
        Ok(u) => Ok(u@),
        Err(m) => Err(m@),
    }
}

/// The outcome of resolving a source with the strings taken by their
/// characters.
pub open spec fn source_result_view(r: Result<AlignmentSource, ValidationError>) -> Result<
    AlignmentSourceView,
    ValidationErrorView,
> {
    match r {
        Ok(s) => Ok(s@),
        Err(e) => Err(e@),
    }
}

/// The source for a field that is to be read as a URL: the URL when the
/// field parses as one, an error when it does not.
pub open spec fn url_source_spec(parsed: Result<Seq<char>, Seq<char>>) -> Result<
    AlignmentSourceView,
    ValidationErrorView,
> {
    match parsed {
        Ok(u) => Ok(AlignmentSourceView::Url(u)),
        Err(m) => Err(ValidationErrorView::InvalidUrl(m)),
    }
}

/// The source named by a path field: read as a URL when the request says
/// so, the path as given otherwise.
pub open spec fn source_spec(
    bam_path: Seq<char>,
    treat_as_url: Option<bool>,
    parsed: Result<Seq<char>, Seq<char>>,
) -> Result<AlignmentSourceView, ValidationErrorView> {
    if treat_as_url == Some(true) {
        url_source_spec(parsed)
    } else {
        Ok(AlignmentSourceView::Path(bam_path))
    }
}

/// Calls `url::Url::parse` on the string. On success the result is the
/// serialisation of the URL read; an error is handed on as the text it
/// displays. Nothing is claimed about which strings parse: the outcome is
/// only given the name [`url_parse`].
#[verifier::external_body]
fn parse_url(input: &str) -> (r: Result<String, String>)
    ensures
        parsed_view(r) == url_parse(input@),
{
    url::Url::parse(input).map(String::from).map_err(|e| e.to_string())
}

/// The source for a path field that is to be read as a URL, given what the
/// URL parser made of it.
pub fn source_from_parsed(parsed: Result<String, String>) -> (r: Result<
    AlignmentSource,
    ValidationError,
>)
    ensures
        source_result_view(r) == url_source_spec(parsed_view(parsed)),
{
    match parsed {
        Ok(u) => Ok(AlignmentSource::Url(u)),
        Err(m) => Err(ValidationError::InvalidUrl(m)),
    }
}

/// Resolves the path field of a request.
///
/// With `treat_as_url` set to true the field is parsed as a URL, and a
/// field that does not parse is an error. Otherwise the field is a local
/// path and is never refused.
pub fn resolve_source(bam_path: &str, treat_as_url: Option<bool>) -> (r: Result<
    AlignmentSource,
    ValidationError,
>)
    ensures
        source_result_view(r) == source_spec(bam_path@, treat_as_url, url_parse(bam_path@)),
        treat_as_url != Some(true) ==> r is Ok,
{
    match treat_as_url {
        Some(true) => source_from_parsed(parse_url(bam_path)),
        _ => Ok(AlignmentSource::Path(bam_path.to_owned())),
    }
}

/// Resolves the source of a metadata request.
pub fn peek_source(options: &PeekOptions) -> (r: Result<AlignmentSource, ValidationError>)
    ensures
        source_result_view(r) == source_spec(
            options@.bam_path,
            options@.treat_as_url,
            url_parse(options@.bam_path),
        ),
        options@.treat_as_url != Some(true) ==> r is Ok,
{
    resolve_source(options.bam_path.as_str(), options.treat_as_url)
}

/// Two resolutions of the same path field give the same source or the same
/// error: what `resolve_source` returns is determined by its arguments.
pub proof fn lemma_source_is_determined(
    bam_path: Seq<char>,
    treat_as_url: Option<bool>,
    ra: Result<AlignmentSource, ValidationError>,
    rb: Result<AlignmentSource, ValidationError>,
)
    requires
        source_result_view(ra) == source_spec(bam_path, treat_as_url, url_parse(bam_path)),
        source_result_view(rb) == source_spec(bam_path, treat_as_url, url_parse(bam_path)),
    ensures
        source_result_view(ra) == source_result_view(rb),
{
}

} // verus!
