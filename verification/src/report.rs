//! Parser for the engine's two-section text report.
//!
//! The report is read line by line, each line trimmed of white space. The
//! line `contigs_and_lengths:` opens the contig section and the line
//! `modifications:` opens the modification section; before either is seen
//! the parser is in the contig section. Blank lines and the line `None`
//! are skipped in both sections.
//!
//! A contig line is `name<TAB>length`, with anything after a second tab
//! ignored. A modification line is read by position: the base character,
//! the strand character, then the modification code, which must not be
//! empty.

use crate::number::{parse_i64, parse_i64_spec, IntParseError};
use crate::text::{
    chars_of, find_char, first_index_of, lemma_first_index_of_is_first, same_chars, string_of, trim,
    trim_bounds,
};
use vstd::prelude::*;
use vstd::string::*;

verus! {

/// A report line that does not follow the grammar of its section.
#[derive(Clone, Copy, Debug, PartialEq, Eq, Structural)]
pub enum ReportError {
    /// A contig line has no tab, so no length.
    MissingContigLength,
    /// The length of a contig line is not a 64-bit integer.
    InvalidContigLength(IntParseError),
    /// A modification line is empty.
    ModificationEmpty,
    /// A modification line has one character only.
    ModificationMissingStrand,
    /// A modification line has a base and a strand and nothing after them.
    ModificationMissingCode,
}

impl ReportError {
    /// The wording of [`ReportError::message`].
    pub open spec fn message_spec(self) -> Seq<char> {
        match self {
            ReportError::MissingContigLength => "Missing contig length in peek output"@,
            ReportError::InvalidContigLength(e) => "Failed to parse contig length: "@
                + e.describe_spec(),
            ReportError::ModificationEmpty => "Empty modification string"@,
            ReportError::ModificationMissingStrand => "Modification string missing strand"@,
            ReportError::ModificationMissingCode => "Modification string missing mod code"@,
        }
    }

    /// A message for the caller.
    pub fn message(&self) -> (r: String)
        ensures
            r@ == self.message_spec(),
    {
        match self {
            ReportError::MissingContigLength => String::from_str(
                "Missing contig length in peek output",
            ),
            ReportError::InvalidContigLength(e) => {
                let mut text = String::from_str("Failed to parse contig length: ");
                text.append(e.describe());
                text
            },
            ReportError::ModificationEmpty => String::from_str("Empty modification string"),
            ReportError::ModificationMissingStrand => String::from_str(
                "Modification string missing strand",
            ),
            ReportError::ModificationMissingCode => String::from_str(
                "Modification string missing mod code",
            ),
        }
    }
}

/// A named reference sequence and its length.
#[derive(Debug, Clone)]
pub struct Contig {
    pub name: String,
    pub length: i64,
}

/// A detected modification: the base it sits on, the strand, and its code.
#[derive(Debug, Clone)]
pub struct Modification {
    pub base: char,
    pub strand: char,
    pub code: String,
}

/// Mathematical content of [`Modification`].
pub struct ModificationView {
    pub base: char,
    pub strand: char,
    pub code: Seq<char>,
}

impl View for Modification {
    type V = ModificationView;

    open spec fn view(&self) -> ModificationView {
        ModificationView { base: self.base, strand: self.strand, code: self.code@ }
    }
}

/// The metadata read from a report: the length of each contig and the
/// modifications in the order of the report.
#[non_exhaustive]
#[derive(Debug, Clone)]
pub struct PeekResult {
    /// One entry per contig name, in the order in which the names first
    /// appeared.
    pub contigs: Vec<Contig>,
    /// The detected modifications, in source order.
    pub modifications: Vec<Modification>,
}

/// Mathematical content of [`PeekResult`]: a map from contig name to length
/// and a sequence of modifications.
pub struct PeekResultView {
    pub contigs: Map<Seq<char>, i64>,
    pub modifications: Seq<ModificationView>,
}

/// The map that a list of contigs stands for; of two entries with one name
/// the later one counts.
pub open spec fn contig_map(entries: Seq<Contig>) -> Map<Seq<char>, i64>
    decreases entries.len(),
{
    if entries.len() == 0 {
        Map::empty()
    } else {
        contig_map(entries.drop_last()).insert(entries.last().name@, entries.last().length)
    }
}

/// The views of a list of modifications.
pub open spec fn modification_views(entries: Seq<Modification>) -> Seq<ModificationView> {
    Seq::new(entries.len(), |i: int| entries[i]@)
}

/// Whether no name occurs twice in a list of contigs.
pub open spec fn distinct_names(entries: Seq<Contig>) -> bool {
    forall|i: int, j: int| 0 <= i < j < entries.len() ==> entries[i].name@ != entries[j].name@
}

impl View for PeekResult {
    type V = PeekResultView;

    open spec fn view(&self) -> PeekResultView {
        PeekResultView {
            contigs: contig_map(self.contigs@),
            modifications: modification_views(self.modifications@),
        }
    }
}

/// A name is in the map of a list exactly when an entry carries it.
pub proof fn lemma_contig_map_dom(entries: Seq<Contig>, name: Seq<char>)
    ensures
        contig_map(entries).dom().contains(name) <==> exists|i: int|
            0 <= i < entries.len() && #[trigger] entries[i].name@ == name,
    decreases entries.len(),
{
    if entries.len() > 0 {
        let front = entries.drop_last();
        lemma_contig_map_dom(front, name);
        if contig_map(entries).dom().contains(name) {
            if entries.last().name@ == name {
                assert(entries[entries.len() - 1].name@ == name);
            } else {
                let i = choose|i: int| 0 <= i < front.len() && #[trigger] front[i].name@ == name;
                assert(entries[i].name@ == name);
            }
        }
        if exists|i: int| 0 <= i < entries.len() && #[trigger] entries[i].name@ == name {
            let i = choose|i: int| 0 <= i < entries.len() && #[trigger] entries[i].name@ == name;
            if i < entries.len() - 1 {
                assert(front[i].name@ == name);
            }
        }
    }
}

/// Where no name occurs twice, the map gives each name the length of its
/// one entry.
pub proof fn lemma_contig_map_at(entries: Seq<Contig>, i: int)
    requires
        distinct_names(entries),
        0 <= i < entries.len(),
    ensures
        contig_map(entries).dom().contains(entries[i].name@),
        contig_map(entries)[entries[i].name@] == entries[i].length,
    decreases entries.len(),
{
    let front = entries.drop_last();
    if i < entries.len() - 1 {
        assert(distinct_names(front)) by {
            assert forall|a: int, b: int| 0 <= a < b < front.len() implies front[a].name@
                != front[b].name@ by {
                assert(entries[a].name@ != entries[b].name@);
            }
        }
        lemma_contig_map_at(front, i);
        assert(front[i] == entries[i]);
        assert(entries[i].name@ != entries[entries.len() - 1].name@);
    }
}

/// Where no name occurs twice, giving one entry a new length is an insert
/// into the map.
pub proof fn lemma_contig_map_update(entries: Seq<Contig>, i: int, entry: Contig)
    requires
        distinct_names(entries),
        0 <= i < entries.len(),
        entry.name@ == entries[i].name@,
    ensures
        contig_map(entries.update(i, entry)) == contig_map(entries).insert(
            entry.name@,
            entry.length,
        ),
        distinct_names(entries.update(i, entry)),
    decreases entries.len(),
{
    let updated = entries.update(i, entry);
    let front = entries.drop_last();
    let last = entries.last();
    assert(distinct_names(updated)) by {
        assert forall|a: int, b: int| 0 <= a < b < updated.len() implies updated[a].name@
            != updated[b].name@ by {
            assert(entries[a].name@ != entries[b].name@);
        }
    }
    if i == entries.len() - 1 {
        assert(updated.drop_last() =~= front);
        assert(contig_map(updated) =~= contig_map(entries).insert(entry.name@, entry.length));
    } else {
        assert(distinct_names(front)) by {
            assert forall|a: int, b: int| 0 <= a < b < front.len() implies front[a].name@
                != front[b].name@ by {
                assert(entries[a].name@ != entries[b].name@);
            }
        }
        lemma_contig_map_update(front, i, entry);
        assert(updated.drop_last() =~= front.update(i, entry));
        assert(updated.last() == last);
        assert(entries[i].name@ != entries[entries.len() - 1].name@);
        assert(contig_map(updated) =~= contig_map(entries).insert(entry.name@, entry.length));
    }
}

impl Default for PeekResult {
    fn default() -> (r: Self)
        ensures
            r@ == PeekResultView::empty(),
            r.wf(),
    {
        let r = PeekResult { contigs: Vec::new(), modifications: Vec::new() };
        assert(r@.contigs =~= Map::empty());
        assert(r@.modifications =~= Seq::empty());
        r
    }
}

impl PeekResultView {
    /// No contig and no modification.
    pub open spec fn empty() -> PeekResultView {
        PeekResultView { contigs: Map::empty(), modifications: Seq::empty() }
    }
}

impl PeekResult {
    /// No contig name occurs twice.
    pub open spec fn wf(&self) -> bool {
        distinct_names(self.contigs@)
    }

    /// The position of the entry that carries a name, if there is one.
    fn position_of(&self, name: &String) -> (r: Option<usize>)
        ensures
            match r {
                Some(i) => i < self.contigs.len() && self.contigs[i as int].name@ == name@,
                None => forall|k: int|
                    0 <= k < self.contigs.len() ==> self.contigs[k].name@ != name@,
            },
    {
        let mut i: usize = 0;
        while i < self.contigs.len()
            invariant
                i <= self.contigs.len(),
                forall|k: int| 0 <= k < i ==> self.contigs[k].name@ != name@,
            decreases self.contigs.len() - i,
        {
            if self.contigs[i].name == *name {
                return Some(i);
            }
            i += 1;
        }
        None
    }

    /// The length recorded for a contig name.
    pub fn contig_length(&self, name: &str) -> (r: Option<i64>)
        requires
            self.wf(),
        ensures
            r == (if self@.contigs.dom().contains(name@) {
                Some(self@.contigs[name@])
            } else {
                None
            }),
    {
        let wanted = name.to_owned();
        proof {
            lemma_contig_map_dom(self.contigs@, name@);
        }
        match self.position_of(&wanted) {
            Some(i) => {
                proof {
                    lemma_contig_map_at(self.contigs@, i as int);
                }
                Some(self.contigs[i].length)
            },
            None => None,
        }
    }

    /// Records the length of a contig. A name that is already present keeps
    /// its place and takes the new length.
    pub fn insert_contig(&mut self, name: String, length: i64)
        requires
            old(self).wf(),
        ensures
            final(self).wf(),
            final(self)@.contigs == old(self)@.contigs.insert(name@, length),
            final(self)@.modifications == old(self)@.modifications,
    {
        let ghost before = self.contigs@;
        let found = self.position_of(&name);
        let entry = Contig { name, length };
        match found {
            Some(i) => {
                proof {
                    lemma_contig_map_update(before, i as int, entry);
                }
                self.contigs.set(i, entry);
            },
            None => {
                self.contigs.push(entry);
                assert(self.contigs@.drop_last() =~= before);
                assert(distinct_names(self.contigs@)) by {
                    assert forall|a: int, b: int|
                        0 <= a < b < self.contigs@.len() implies self.contigs@[a].name@
                        != self.contigs@[b].name@ by {
                        if b < before.len() {
                            assert(before[a].name@ != before[b].name@);
                        } else {
                            assert(before[a].name@ != entry.name@);
                        }
                    }
                }
            },
        }
    }

    /// Adds a modification after those already recorded.
    pub fn push_modification(&mut self, modification: Modification)
        ensures
            final(self).contigs == old(self).contigs,
            final(self)@.contigs == old(self)@.contigs,
            final(self)@.modifications == old(self)@.modifications.push(modification@),
    {
        self.modifications.push(modification);
        assert(self@.modifications =~= old(self)@.modifications.push(modification@));
    }
}

/// The name and the length of a contig line: the name is what stands
/// before the first tab and the length what stands between the first tab
/// and the second, or the end of the line.
pub open spec fn contig_line_spec(line: Seq<char>) -> Result<(Seq<char>, i64), ReportError> {
    let i = first_index_of(line, '\t');
    if i < 0 || i >= line.len() {
        Err(ReportError::MissingContigLength)
    } else {
        let rest = line.skip(i + 1);
        let j = first_index_of(rest, '\t');
        match parse_i64_spec(rest.take(j)) {
            Ok(v) => Ok((line.take(i), v as i64)),
            Err(e) => Err(ReportError::InvalidContigLength(e)),
        }
    }
}

/// The modification of a modification line: the first character is the
/// base, the second the strand, the rest the code.
pub open spec fn modification_line_spec(line: Seq<char>) -> Result<ModificationView, ReportError> {
    if line.len() == 0 {
        Err(ReportError::ModificationEmpty)
    } else if line.len() == 1 {
        Err(ReportError::ModificationMissingStrand)
    } else if line.len() == 2 {
        Err(ReportError::ModificationMissingCode)
    } else {
        Ok(ModificationView { base: line[0], strand: line[1], code: line.skip(2) })
    }
}

/// The section of the report that the parser is in.
#[derive(Clone, Copy, Debug, PartialEq, Eq, Structural)]
pub enum Section {
    Contigs,
    Modifications,
}

/// The state of the parser between two lines.
pub struct ReportState {
    pub section: Section,
    pub result: PeekResultView,
}

impl ReportState {
    /// The state before the first line: the contig section, nothing read.
    pub open spec fn initial() -> ReportState {
        ReportState { section: Section::Contigs, result: PeekResultView::empty() }
    }
}

/// What one trimmed line does to the state.
pub open spec fn step(state: ReportState, line: Seq<char>) -> Result<ReportState, ReportError> {
    if line.len() == 0 || line == "None"@ {
        Ok(state)
    } else if line == "contigs_and_lengths:"@ {
        Ok(ReportState { section: Section::Contigs, result: state.result })
    } else if line == "modifications:"@ {
        Ok(ReportState { section: Section::Modifications, result: state.result })
    } else {
        match state.section {
            Section::Contigs => match contig_line_spec(line) {
                Err(e) => Err(e),
                Ok((name, length)) => Ok(
                    ReportState {
                        section: state.section,
                        result: PeekResultView {
                            contigs: state.result.contigs.insert(name, length),
                            modifications: state.result.modifications,
                        },
                    },
                ),
            },
            Section::Modifications => match modification_line_spec(line) {
                Err(e) => Err(e),
                Ok(m) => Ok(
                    ReportState {
                        section: state.section,
                        result: PeekResultView {
                            contigs: state.result.contigs,
                            modifications: state.result.modifications.push(m),
                        },
                    },
                ),
            },
        }
    }
}

/// The pieces of a text between its line feeds.
pub open spec fn split_lines(text: Seq<char>) -> Seq<Seq<char>>
    decreases text.len(),
{
    let n = first_index_of(text, '\n');
    if n < 0 || n >= text.len() {
        seq![text]
    } else {
        seq![text.take(n)] + split_lines(text.skip(n + 1))
    }
}

/// The lines put together again, with a line feed between each two.
pub open spec fn join_lines(lines: Seq<Seq<char>>) -> Seq<char>
    decreases lines.len(),
{
    if lines.len() == 0 {
        Seq::empty()
    } else if lines.len() == 1 {
        lines[0]
    } else {
        lines[0] + seq!['\n'] + join_lines(lines.drop_first())
    }
}

/// Splitting loses nothing and cuts at every line feed: the lines joined
/// give the text back, and no line holds a line feed.
pub proof fn lemma_split_lines(text: Seq<char>)
    ensures
        split_lines(text).len() >= 1,
        join_lines(split_lines(text)) == text,
        forall|i: int, k: int|
            0 <= i < split_lines(text).len() && 0 <= k < split_lines(text)[i].len()
                ==> split_lines(text)[i][k] != '\n',
    decreases text.len(),
{
    lemma_first_index_of_is_first(text, '\n');
    let n = first_index_of(text, '\n');
    let lines = split_lines(text);
    if n >= text.len() {
        assert(lines =~= seq![text]);
    } else {
        let rest = text.skip(n + 1);
        let tail = split_lines(rest);
        lemma_split_lines(rest);
        assert(lines =~= seq![text.take(n)] + tail);
        assert(lines.drop_first() =~= tail);
        assert(lines[0] == text.take(n));
        assert(text =~= text.take(n) + seq!['\n'] + rest);
        assert forall|i: int, k: int|
            0 <= i < lines.len() && 0 <= k < lines[i].len() implies lines[i][k] != '\n' by {
            if i > 0 {
                assert(lines[i] == tail[i - 1]);
            }
        }
    }
}

/// Feeds the lines, each one trimmed, to the parser in order. The first
/// line that is refused ends the run.
pub open spec fn run(lines: Seq<Seq<char>>, state: ReportState) -> Result<ReportState, ReportError>
    decreases lines.len(),
{
    if lines.len() == 0 {
        Ok(state)
    } else {
        match step(state, trim(lines[0])) {
            Err(e) => Err(e),
            Ok(next) => run(lines.drop_first(), next),
        }
    }
}

/// What a report holds, or the first error met when reading it from the
/// top.
pub open spec fn parse_report_spec(text: Seq<char>) -> Result<PeekResultView, ReportError> {
    match run(split_lines(text), ReportState::initial()) {
        Ok(state) => Ok(state.result),
        Err(e) => Err(e),
    }
}

/// The outcome of parsing a contig line with the name taken by its
/// characters.
pub open spec fn contig_result_view(r: Result<Contig, ReportError>) -> Result<
    (Seq<char>, i64),
    ReportError,
> {
    match r {
        Ok(c) => Ok((c.name@, c.length)),
        Err(e) => Err(e),
    }
}

/// The outcome of parsing a modification line with the modification taken
/// by its view.
pub open spec fn modification_result_view(r: Result<Modification, ReportError>) -> Result<
    ModificationView,
    ReportError,
> {
    match r {
        Ok(m) => Ok(m@),
        Err(e) => Err(e),
    }
}

/// The outcome of parsing a report with the result taken by its view.
pub open spec fn report_result_view(r: Result<PeekResult, ReportError>) -> Result<
    PeekResultView,
    ReportError,
> {
    match r {
        Ok(p) => Ok(p@),
        Err(e) => Err(e),
    }
}

/// Reads `chars[from..to]` as a contig line.
fn contig_at(chars: &Vec<char>, from: usize, to: usize) -> (r: Result<Contig, ReportError>)
    requires
        from <= to <= chars.len(),
    ensures
        contig_result_view(r) == contig_line_spec(chars@.subrange(from as int, to as int)),
{
    let ghost line = chars@.subrange(from as int, to as int);
    let tab = find_char(chars, from, to, '\t');
    if tab == to {
        return Err(ReportError::MissingContigLength);
    }
    let end = find_char(chars, tab + 1, to, '\t');
    proof {
        let i = tab - from;
        let rest = line.skip(i + 1);
        assert(rest =~= chars@.subrange(tab as int + 1, to as int));
        assert(rest.take(end - (tab + 1)) =~= chars@.subrange(tab as int + 1, end as int));
        assert(line.take(i) =~= chars@.subrange(from as int, tab as int));
    }
    match parse_i64(chars, tab + 1, end) {
        Err(e) => Err(ReportError::InvalidContigLength(e)),
        Ok(length) => Ok(Contig { name: string_of(chars, from, tab), length }),
    }
}

/// Reads `chars[from..to]` as a modification line.
fn modification_at(chars: &Vec<char>, from: usize, to: usize) -> (r: Result<
    Modification,
    ReportError,
>)
    requires
        from <= to <= chars.len(),
    ensures
        modification_result_view(r) == modification_line_spec(
            chars@.subrange(from as int, to as int),
        ),
{
    let ghost line = chars@.subrange(from as int, to as int);
    if to - from == 0 {
        Err(ReportError::ModificationEmpty)
    } else if to - from == 1 {
        Err(ReportError::ModificationMissingStrand)
    } else if to - from == 2 {
        Err(ReportError::ModificationMissingCode)
    } else {
        assert(line.skip(2) =~= chars@.subrange(from as int + 2, to as int));
        Ok(
            Modification {
                base: chars[from],
                strand: chars[from + 1],
                code: string_of(chars, from + 2, to),
            },
        )
    }
}

/// Reads one contig line, such as `chr1<TAB>1000`.
pub fn parse_contig_line(line: &str) -> (r: Result<Contig, ReportError>)
    ensures
        contig_result_view(r) == contig_line_spec(line@),
{
    let chars = chars_of(line);
    assert(chars@.subrange(0, chars.len() as int) =~= line@);
    contig_at(&chars, 0, chars.len())
}

/// Reads one modification line, such as `G-7200`.
pub fn parse_modification_line(line: &str) -> (r: Result<Modification, ReportError>)
    ensures
        modification_result_view(r) == modification_line_spec(line@),
{
    let chars = chars_of(line);
    assert(chars@.subrange(0, chars.len() as int) =~= line@);
    modification_at(&chars, 0, chars.len())
}

/// The three lines that are not data.
struct Keywords {
    none: Vec<char>,
    contigs: Vec<char>,
    modifications: Vec<char>,
}

impl Keywords {
    spec fn wf(&self) -> bool {
        &&& self.none@ == "None"@
        &&& self.contigs@ == "contigs_and_lengths:"@
        &&& self.modifications@ == "modifications:"@
    }

    fn new() -> (r: Keywords)
        ensures
            r.wf(),
    {
        Keywords {
            none: chars_of("None"),
            contigs: chars_of("contigs_and_lengths:"),
            modifications: chars_of("modifications:"),
        }
    }
}

/// Applies the trimmed line `chars[from..to]` to the parser state.
fn apply_line(
    chars: &Vec<char>,
    from: usize,
    to: usize,
    section: Section,
    result: &mut PeekResult,
    keywords: &Keywords,
) -> (r: Result<Section, ReportError>)
    requires
        from <= to <= chars.len(),
        old(result).wf(),
        keywords.wf(),
    ensures
        match step(
            ReportState { section, result: old(result)@ },
            chars@.subrange(from as int, to as int),
        ) {
            Err(e) => r == Err::<Section, ReportError>(e),
            Ok(next) => r == Ok::<Section, ReportError>(next.section) && final(result)@
                == next.result && final(result).wf(),
        },
{
    if from == to || same_chars(chars, from, to, &keywords.none) {
        Ok(section)
    } else if same_chars(chars, from, to, &keywords.contigs) {
        Ok(Section::Contigs)
    } else if same_chars(chars, from, to, &keywords.modifications) {
        Ok(Section::Modifications)
    } else {
        match section {
            Section::Contigs => match contig_at(chars, from, to) {
                Err(e) => Err(e),
                Ok(contig) => {
                    result.insert_contig(contig.name, contig.length);
                    Ok(section)
                },
            },
            Section::Modifications => match modification_at(chars, from, to) {
                Err(e) => Err(e),
                Ok(modification) => {
                    result.push_modification(modification);
                    Ok(section)
                },
            },
        }
    }
}

/// Parses a report.
///
/// On success the result maps every contig name of the contig section to
/// the length on the last line that carries the name, and lists the
/// modifications of the modification section in source order. The first
/// line that breaks the grammar of its section is reported and nothing is
/// returned.
pub fn parse_report(text: &str) -> (r: Result<PeekResult, ReportError>)
    ensures
        report_result_view(r) == parse_report_spec(text@),
        r matches Ok(p) ==> p.wf(),
{
    let chars = chars_of(text);
    let keywords = Keywords::new();
    let mut result = PeekResult::default();
    let mut section = Section::Contigs;
    let mut start: usize = 0;
    assert(chars@.skip(0) =~= chars@);
    loop
        invariant
            start <= chars.len(),
            chars@ == text@,
            keywords.wf(),
            result.wf(),
            run(split_lines(text@), ReportState::initial()) == run(
                split_lines(chars@.skip(start as int)),
                ReportState { section, result: result@ },
            ),
        decreases chars.len() - start,
    {
        let ghost rest = chars@.skip(start as int);
        let ghost state = ReportState { section, result: result@ };
        let end = find_char(&chars, start, chars.len(), '\n');
        let (a, b) = trim_bounds(&chars, start, end);
        proof {
            assert(chars@.subrange(start as int, chars.len() as int) =~= rest);
            assert(rest.take(end - start) =~= chars@.subrange(start as int, end as int));
            let lines = split_lines(rest);
            if end == chars.len() {
                assert(rest.take(end - start) =~= rest);
                assert(lines =~= seq![rest]);
                assert(lines.drop_first().len() == 0);
            } else {
                let tail = split_lines(rest.skip(end - start + 1));
                assert(lines =~= seq![rest.take(end - start)] + tail);
                assert(lines.drop_first() =~= tail);
                assert(rest.skip(end - start + 1) =~= chars@.skip(end as int + 1));
            }
            assert(lines[0] == chars@.subrange(start as int, end as int));
        }
        match apply_line(&chars, a, b, section, &mut result, &keywords) {
            Err(e) => {
                return Err(e);
            },
            Ok(next) => {
                section = next;
            },
        }
        if end == chars.len() {
            proof {
                let after = ReportState { section, result: result@ };
                assert(run(split_lines(rest).drop_first(), after) == Ok::<
                    ReportState,
                    ReportError,
                >(after));
            }
            return Ok(result);
        }
        start = end + 1;
    }
}

/// A modification line of fewer than three characters is refused: it
/// lacks the strand or the code.
pub proof fn lemma_short_modification_refused(line: Seq<char>)
    requires
        line.len() < 3,
    ensures
        modification_line_spec(line) is Err,
        line.len() == 1 ==> modification_line_spec(line) == Err::<ModificationView, ReportError>(
            ReportError::ModificationMissingStrand,
        ),
        line.len() == 2 ==> modification_line_spec(line) == Err::<ModificationView, ReportError>(
            ReportError::ModificationMissingCode,
        ),
{
}

/// In the modification section, a line of one or two characters ends the
/// parse with an error.
pub proof fn lemma_short_line_ends_parse(state: ReportState, line: Seq<char>)
    requires
        state.section == Section::Modifications,
        1 <= line.len() <= 2,
    ensures
        step(state, line) is Err,
{
    reveal_strlit("None");
    reveal_strlit("contigs_and_lengths:");
    reveal_strlit("modifications:");
}

/// Two parses of the same text give results with the same content: what
/// `parse_report` returns is determined by the text alone.
pub proof fn lemma_report_is_determined(
    text: Seq<char>,
    ra: Result<PeekResult, ReportError>,
    rb: Result<PeekResult, ReportError>,
)
    requires
        report_result_view(ra) == parse_report_spec(text),
        report_result_view(rb) == parse_report_spec(text),
    ensures
        report_result_view(ra) == report_result_view(rb),
{
}

} // verus!
