use nanalogue_node::number::IntParseError;
use nanalogue_node::report::{
    parse_contig_line, parse_modification_line, parse_report, Modification, ReportError,
};
use nanalogue_node::PeekResult;

fn triples(result: &PeekResult) -> Vec<(char, char, String)> {
    result.modifications.iter().map(|m: &Modification| (m.base, m.strand, m.code.clone())).collect()
}

fn contigs(result: &PeekResult) -> Vec<(String, i64)> {
    result.contigs.iter().map(|c| (c.name.clone(), c.length)).collect()
}

#[test]
fn report_with_two_sections_is_parsed() {
    let text = "contigs_and_lengths:\nchr1\t1000\nchr2\t2000\nmodifications:\nA+a\nG-7200\n";
    let result = parse_report(text).unwrap();
    assert_eq!(
        contigs(&result),
        vec![("chr1".to_string(), 1000), ("chr2".to_string(), 2000)]
    );
    assert_eq!(result.contig_length("chr1"), Some(1000));
    assert_eq!(result.contig_length("chr2"), Some(2000));
    assert_eq!(result.contig_length("chr3"), None);
    assert_eq!(
        triples(&result),
        vec![('A', '+', "a".to_string()), ('G', '-', "7200".to_string())]
    );
}

#[test]
fn engine_report_with_blank_line_is_parsed() {
    let text = "contigs_and_lengths:\ndummyI\t22\ndummyII\t48\ndummyIII\t76\n\nmodifications:\nG-7200\nT+T\n";
    let result = parse_report(text).unwrap();
    assert_eq!(
        contigs(&result),
        vec![
            ("dummyI".to_string(), 22),
            ("dummyII".to_string(), 48),
            ("dummyIII".to_string(), 76)
        ]
    );
    assert_eq!(
        triples(&result),
        vec![('G', '-', "7200".to_string()), ('T', '+', "T".to_string())]
    );
}

#[test]
fn none_is_skipped_in_both_sections() {
    let result = parse_report("contigs_and_lengths:\nNone\n\nmodifications:\nNone\n").unwrap();
    assert!(result.contigs.is_empty());
    assert!(result.modifications.is_empty());
}

#[test]
fn empty_report_is_empty() {
    let result = parse_report("").unwrap();
    assert!(result.contigs.is_empty());
    assert!(result.modifications.is_empty());
    let result = parse_report("\n\n   \n\t\n").unwrap();
    assert!(result.contigs.is_empty());
    assert!(result.modifications.is_empty());
}

#[test]
fn report_without_header_starts_in_contig_section() {
    let result = parse_report("chr1\t10\nchr2\t20").unwrap();
    assert_eq!(contigs(&result), vec![("chr1".to_string(), 10), ("chr2".to_string(), 20)]);
    assert_eq!(
        parse_report("A+a\n").unwrap_err(),
        ReportError::MissingContigLength
    );
}

#[test]
fn last_occurrence_of_a_contig_wins() {
    let result = parse_report("chr1\t10\nchr2\t20\nchr1\t30\n").unwrap();
    assert_eq!(contigs(&result), vec![("chr1".to_string(), 30), ("chr2".to_string(), 20)]);
    assert_eq!(result.contig_length("chr1"), Some(30));
}

#[test]
fn sections_can_alternate() {
    let text = "modifications:\nC+m\ncontigs_and_lengths:\nchrX\t5\nmodifications:\nC+h\n";
    let result = parse_report(text).unwrap();
    assert_eq!(contigs(&result), vec![("chrX".to_string(), 5)]);
    assert_eq!(
        triples(&result),
        vec![('C', '+', "m".to_string()), ('C', '+', "h".to_string())]
    );
}

#[test]
fn lines_are_trimmed_and_crlf_is_accepted() {
    let text = "  contigs_and_lengths:  \r\n  chr1\t7  \r\n\tmodifications:\r\n  T+T \r\n";
    let result = parse_report(text).unwrap();
    assert_eq!(contigs(&result), vec![("chr1".to_string(), 7)]);
    assert_eq!(triples(&result), vec![('T', '+', "T".to_string())]);
}

#[test]
fn unicode_white_space_is_trimmed() {
    let text = "\u{3000}chr1\t7\u{2003}\n\u{a0}modifications:\u{85}\n\u{1680}A+a\u{205f}\n";
    let result = parse_report(text).unwrap();
    assert_eq!(contigs(&result), vec![("chr1".to_string(), 7)]);
    assert_eq!(triples(&result), vec![('A', '+', "a".to_string())]);
}

#[test]
fn fields_after_the_length_are_ignored() {
    let result = parse_report("chr1\t12\textra\tmore\n").unwrap();
    assert_eq!(contigs(&result), vec![("chr1".to_string(), 12)]);
}

#[test]
fn contig_line_without_tab_is_an_error() {
    assert_eq!(parse_report("chr1 1000\n").unwrap_err(), ReportError::MissingContigLength);
    assert_eq!(parse_contig_line("chr1").unwrap_err(), ReportError::MissingContigLength);
}

#[test]
fn contig_length_must_be_an_integer() {
    assert_eq!(
        parse_report("chr1\tabc\n").unwrap_err(),
        ReportError::InvalidContigLength(IntParseError::InvalidDigit)
    );
    assert_eq!(
        parse_report("chr1\t 10\n").unwrap_err(),
        ReportError::InvalidContigLength(IntParseError::InvalidDigit)
    );
    assert_eq!(
        parse_contig_line("chr1\t\t5").unwrap_err(),
        ReportError::InvalidContigLength(IntParseError::Empty)
    );
    assert_eq!(
        parse_contig_line("chr1\t9223372036854775808").unwrap_err(),
        ReportError::InvalidContigLength(IntParseError::PosOverflow)
    );
    assert_eq!(
        parse_contig_line("chr1\t-9223372036854775809").unwrap_err(),
        ReportError::InvalidContigLength(IntParseError::NegOverflow)
    );
}

#[test]
fn contig_length_may_be_negative_or_signed() {
    let c = parse_contig_line("chr1\t-5").unwrap();
    assert_eq!((c.name.as_str(), c.length), ("chr1", -5));
    let c = parse_contig_line("chr1\t+5").unwrap();
    assert_eq!((c.name.as_str(), c.length), ("chr1", 5));
    let c = parse_contig_line("chr1\t9223372036854775807").unwrap();
    assert_eq!(c.length, i64::MAX);
    let c = parse_contig_line("chr1\t-9223372036854775808").unwrap();
    assert_eq!(c.length, i64::MIN);
}

#[test]
fn modification_line_is_read_by_position() {
    let m = parse_modification_line("G-7200").unwrap();
    assert_eq!((m.base, m.strand, m.code.as_str()), ('G', '-', "7200"));
    let m = parse_modification_line("T+T").unwrap();
    assert_eq!((m.base, m.strand, m.code.as_str()), ('T', '+', "T"));
    let m = parse_modification_line("Nx\u{e9}\u{4e2d}").unwrap();
    assert_eq!((m.base, m.strand, m.code.as_str()), ('N', 'x', "\u{e9}\u{4e2d}"));
}

#[test]
fn short_modification_lines_are_errors() {
    assert_eq!(parse_modification_line("").unwrap_err(), ReportError::ModificationEmpty);
    assert_eq!(parse_modification_line("A").unwrap_err(), ReportError::ModificationMissingStrand);
    assert_eq!(parse_modification_line("A+").unwrap_err(), ReportError::ModificationMissingCode);
    assert_eq!(
        parse_report("modifications:\nA\n").unwrap_err(),
        ReportError::ModificationMissingStrand
    );
    assert_eq!(
        parse_report("modifications:\nA+a\nG-\nT+T\n").unwrap_err(),
        ReportError::ModificationMissingCode
    );
}

#[test]
fn first_bad_line_decides_the_error() {
    assert_eq!(
        parse_report("chr1\tx\nmodifications:\nA\n").unwrap_err(),
        ReportError::InvalidContigLength(IntParseError::InvalidDigit)
    );
    assert_eq!(
        parse_report("modifications:\nA\ncontigs_and_lengths:\nchr1\tx\n").unwrap_err(),
        ReportError::ModificationMissingStrand
    );
}

#[test]
fn report_agrees_with_std_line_handling() {
    let text = "contigs_and_lengths:\r\nc1\t1\r\n\r\nc2\t-2\nmodifications:\n None \nA+a";
    let mut expected_contigs = Vec::new();
    let mut expected_mods = Vec::new();
    let mut in_contigs = true;
    for line in text.lines() {
        let trimmed = line.trim();
        match trimmed {
            "" | "None" => {}
            "contigs_and_lengths:" => in_contigs = true,
            "modifications:" => in_contigs = false,
            _ if in_contigs => {
                let parts: Vec<&str> = trimmed.split('\t').collect();
                expected_contigs.push((parts[0].to_string(), parts[1].parse::<i64>().unwrap()));
            }
            _ => {
                let mut chars = trimmed.chars();
                let base = chars.next().unwrap();
                let strand = chars.next().unwrap();
                expected_mods.push((base, strand, chars.collect::<String>()));
            }
        }
    }
    let result = parse_report(text).unwrap();
    assert_eq!(contigs(&result), expected_contigs);
    assert_eq!(triples(&result), expected_mods);
}

#[test]
fn peek_result_insert_and_lookup() {
    let mut result = PeekResult::default();
    assert_eq!(result.contig_length("a"), None);
    result.insert_contig("a".to_string(), 1);
    result.insert_contig("b".to_string(), 2);
    result.insert_contig("a".to_string(), 3);
    assert_eq!(contigs(&result), vec![("a".to_string(), 3), ("b".to_string(), 2)]);
    assert_eq!(result.contig_length("a"), Some(3));
    assert_eq!(result.contig_length("b"), Some(2));
    assert_eq!(result.contig_length(""), None);
    result.push_modification(Modification { base: 'C', strand: '+', code: "m".to_string() });
    assert_eq!(triples(&result), vec![('C', '+', "m".to_string())]);
    assert_eq!(contigs(&result).len(), 2);
}

#[test]
fn report_messages() {
    assert_eq!(
        ReportError::MissingContigLength.message(),
        "Missing contig length in peek output"
    );
    assert_eq!(
        ReportError::InvalidContigLength(IntParseError::InvalidDigit).message(),
        "Failed to parse contig length: invalid digit found in string"
    );
    assert_eq!(ReportError::ModificationEmpty.message(), "Empty modification string");
    assert_eq!(
        ReportError::ModificationMissingStrand.message(),
        "Modification string missing strand"
    );
    assert_eq!(
        ReportError::ModificationMissingCode.message(),
        "Modification string missing mod code"
    );
}

#[test]
fn parsing_a_report_twice_gives_equal_results() {
    let text = "chr1\t10\nmodifications:\nA+a\n";
    let a = parse_report(text).unwrap();
    let b = parse_report(text).unwrap();
    assert_eq!(format!("{a:?}"), format!("{b:?}"));
    assert_eq!(parse_report("x").unwrap_err(), parse_report("x").unwrap_err());
}
