use nanalogue_node::decode::{decode_json, decode_text, DecodeError};
use nanalogue_node::table::{
    filter_seq_table_columns, locate_columns, pick, project_records, text_of_output, Column,
    Columns, SeqTableRow, TableError,
};

fn header(names: &[&str]) -> Vec<String> {
    names.iter().map(|s| s.to_string()).collect()
}

#[test]
fn table_with_extra_column_is_projected() {
    let input = "read_id\tsequence\tqualities\textra_col\nr1\tACGT\t30.31.32.33\tdropped\n";
    let output = filter_seq_table_columns(input).unwrap();
    assert_eq!(output, "read_id\tsequence\tqualities\nr1\tACGT\t30.31.32.33\n");
    assert_eq!(output.lines().count(), 2);
}

#[test]
fn columns_are_found_by_name_in_any_order() {
    let input = "extra\tqualities\tread_id\tother\tsequence\nx\tQ1\tR1\ty\tS1\nx\tQ2\tR2\ty\tS2\n";
    assert_eq!(
        filter_seq_table_columns(input).unwrap(),
        "read_id\tsequence\tqualities\nR1\tS1\tQ1\nR2\tS2\tQ2\n"
    );
}

#[test]
fn rows_keep_their_order() {
    let mut input = String::from("read_id\tsequence\tqualities\n");
    let mut expected = String::from("read_id\tsequence\tqualities\n");
    for i in 0..50 {
        let row = format!("read{i}\tAC{i}\tq{i}\n");
        input.push_str(&row);
        expected.push_str(&row);
    }
    assert_eq!(filter_seq_table_columns(&input).unwrap(), expected);
}

#[test]
fn comment_lines_are_skipped() {
    let input = "# mod-unmod threshold is 0.5\nread_id\tsequence\tqualities\n# note\nr1\tAC\tII\n";
    assert_eq!(
        filter_seq_table_columns(input).unwrap(),
        "read_id\tsequence\tqualities\nr1\tAC\tII\n"
    );
}

#[test]
fn empty_table_projects_to_bare_header() {
    assert_eq!(filter_seq_table_columns("").unwrap(), "read_id\tsequence\tqualities\n");
    assert_eq!(
        filter_seq_table_columns("read_id\tsequence\tqualities\n").unwrap(),
        "read_id\tsequence\tqualities\n"
    );
}

#[test]
fn header_without_rows_is_never_an_error() {
    assert_eq!(
        filter_seq_table_columns("a\tb\tc\n").unwrap(),
        "read_id\tsequence\tqualities\n"
    );
    assert_eq!(
        filter_seq_table_columns("read_id\tread_id\n").unwrap(),
        "read_id\tsequence\tqualities\n"
    );
}

#[test]
fn missing_column_is_an_error_at_the_first_row() {
    let err = filter_seq_table_columns("read_id\tsequence\nr1\tAC\n").unwrap_err();
    assert!(matches!(err, TableError::MissingColumn(Column::Qualities)));
    let err = filter_seq_table_columns("sequence\tqualities\nAC\tII\n").unwrap_err();
    assert!(matches!(err, TableError::MissingColumn(Column::ReadId)));
    let err = filter_seq_table_columns("read_id\tqualities\nr1\tII\n").unwrap_err();
    assert!(matches!(err, TableError::MissingColumn(Column::Sequence)));
    let err = filter_seq_table_columns("a\tb\n1\t2\n").unwrap_err();
    assert!(matches!(err, TableError::MissingColumn(Column::ReadId)));
}

#[test]
fn duplicate_column_is_an_error_at_the_first_row() {
    let err =
        filter_seq_table_columns("read_id\tsequence\tqualities\tsequence\nr\ts\tq\tt\n").unwrap_err();
    assert!(matches!(err, TableError::DuplicateColumn(Column::Sequence)));
    let err = filter_seq_table_columns("read_id\tread_id\nr\ts\n").unwrap_err();
    assert!(matches!(err, TableError::DuplicateColumn(Column::ReadId)));
}

#[test]
fn row_of_other_length_is_a_read_error() {
    let err =
        filter_seq_table_columns("read_id\tsequence\tqualities\nr1\tAC\n").unwrap_err();
    match &err {
        TableError::Read(m) => {
            assert!(m.contains("found record with 2 fields"), "message {m}");
        }
        other => panic!("unexpected error {other:?}"),
    }
    assert!(err.message().starts_with("Failed to parse TSV row: CSV error: record 1"));
}

#[test]
fn first_failure_in_row_order_is_reported() {
    let err = filter_seq_table_columns("read_id\tsequence\nr1\tAC\nr2\n").unwrap_err();
    assert!(matches!(err, TableError::MissingColumn(Column::Qualities)));
    let err = filter_seq_table_columns("read_id\tsequence\nr1\nr2\tAC\n").unwrap_err();
    assert!(matches!(err, TableError::Read(_)));
    let err = filter_seq_table_columns("read_id\tsequence\tqualities\nr\ts\tq\nr2\n").unwrap_err();
    assert!(matches!(err, TableError::Read(_)));
}

#[test]
fn quoted_fields_are_read_and_written_with_quotes() {
    let input = "read_id\tsequence\tqualities\n\"r\t1\"\t\"A\"\"C\"\t\"line\nbreak\"\n";
    assert_eq!(
        filter_seq_table_columns(input).unwrap(),
        "read_id\tsequence\tqualities\n\"r\t1\"\t\"A\"\"C\"\t\"line\nbreak\"\n"
    );
}

#[test]
fn values_pass_through_unmodified() {
    let input = "read_id\tsequence\tqualities\n r 1 \tAC.gt-Zz\t\u{4e2d}\u{6587}, 'x'\n\t\t\n";
    assert_eq!(
        filter_seq_table_columns(input).unwrap(),
        "read_id\tsequence\tqualities\n r 1 \tAC.gt-Zz\t\u{4e2d}\u{6587}, 'x'\n\t\t\n"
    );
}

#[test]
fn projection_agrees_with_reading_by_hand() {
    let input = "qualities\tx\tread_id\tsequence\nq1\t-\ta\tAC\nq2\t-\tb\tGT\n";
    let mut reader = csv::ReaderBuilder::new().delimiter(b'\t').from_reader(input.as_bytes());
    let mut writer = csv::WriterBuilder::new().delimiter(b'\t').from_writer(Vec::new());
    writer.write_record(["read_id", "sequence", "qualities"]).unwrap();
    for record in reader.records() {
        let record = record.unwrap();
        writer.write_record([&record[2], &record[3], &record[0]]).unwrap();
    }
    let expected = String::from_utf8(writer.into_inner().unwrap()).unwrap();
    assert_eq!(filter_seq_table_columns(input).unwrap(), expected);
}

#[test]
fn projecting_twice_gives_equal_results() {
    let input = "read_id\tsequence\tqualities\textra\nr1\tAC\tII\tx\n";
    assert_eq!(filter_seq_table_columns(input).unwrap(), filter_seq_table_columns(input).unwrap());
    let bad = "read_id\nr1\n";
    assert_eq!(
        filter_seq_table_columns(bad).unwrap_err().message(),
        filter_seq_table_columns(bad).unwrap_err().message()
    );
}

#[test]
fn locate_columns_finds_each_name_once() {
    assert_eq!(
        locate_columns(&header(&["read_id", "sequence", "qualities"])).unwrap(),
        Columns { read_id: 0, sequence: 1, qualities: 2 }
    );
    assert_eq!(
        locate_columns(&header(&["x", "qualities", "y", "sequence", "read_id"])).unwrap(),
        Columns { read_id: 4, sequence: 3, qualities: 1 }
    );
    assert!(matches!(
        locate_columns(&header(&[])).unwrap_err(),
        TableError::MissingColumn(Column::ReadId)
    ));
    assert!(matches!(
        locate_columns(&header(&["Read_id", "sequence ", "qualities"])).unwrap_err(),
        TableError::MissingColumn(Column::ReadId)
    ));
    assert!(matches!(
        locate_columns(&header(&["read_id", "qualities"])).unwrap_err(),
        TableError::MissingColumn(Column::Sequence)
    ));
}

#[test]
fn duplicate_is_reported_before_missing() {
    assert!(matches!(
        locate_columns(&header(&["qualities", "x", "qualities"])).unwrap_err(),
        TableError::DuplicateColumn(Column::Qualities)
    ));
    assert!(matches!(
        locate_columns(&header(&["sequence", "read_id", "read_id", "sequence"])).unwrap_err(),
        TableError::DuplicateColumn(Column::ReadId)
    ));
}

#[test]
fn column_names() {
    assert_eq!(Column::ReadId.name(), "read_id");
    assert_eq!(Column::Sequence.name(), "sequence");
    assert_eq!(Column::Qualities.name(), "qualities");
    assert_eq!(Column::of_field("read_id"), Some(Column::ReadId));
    assert_eq!(Column::of_field("sequence"), Some(Column::Sequence));
    assert_eq!(Column::of_field("qualities"), Some(Column::Qualities));
    assert_eq!(Column::of_field("quality"), None);
    assert_eq!(Column::of_field(""), None);
}

#[test]
fn table_messages() {
    assert_eq!(
        TableError::Read("boom".to_string()).message(),
        "Failed to parse TSV row: boom"
    );
    assert_eq!(
        TableError::MissingColumn(Column::Sequence).message(),
        "Failed to parse TSV row: missing field `sequence`"
    );
    assert_eq!(
        TableError::DuplicateColumn(Column::ReadId).message(),
        "Failed to parse TSV row: duplicate field `read_id`"
    );
    assert_eq!(
        TableError::ShortRow.message(),
        "Failed to parse TSV row: expected field, but got end of row"
    );
    assert_eq!(
        TableError::WriteHeader("w".to_string()).message(),
        "Failed to write TSV header: w"
    );
    assert_eq!(TableError::WriteRow("w".to_string()).message(), "Failed to write TSV row: w");
    assert_eq!(TableError::Flush("f".to_string()).message(), "Failed to flush TSV writer: f");
    assert_eq!(TableError::InvalidUtf8.message(), "Invalid UTF-8 in output");
    let copy = TableError::Read("boom".to_string()).clone();
    assert!(matches!(copy, TableError::Read(m) if m == "boom"));
}

#[test]
fn output_bytes_become_text() {
    assert_eq!(text_of_output(b"a\tb\n".to_vec()).unwrap(), "a\tb\n");
    assert!(matches!(text_of_output(vec![0xff, 0xfe]).unwrap_err(), TableError::InvalidUtf8));
}

#[test]
fn bytes_decode_to_text() {
    assert_eq!(decode_text(Vec::new()).unwrap(), "");
    assert_eq!(decode_text(b"abc".to_vec()).unwrap(), "abc");
    assert_eq!(decode_text("h\u{e9}llo \u{1f600}".as_bytes().to_vec()).unwrap(), "h\u{e9}llo \u{1f600}");
}

#[test]
fn invalid_utf8_is_rejected() {
    for bytes in [vec![0xffu8], vec![b'a', 0xc3], vec![0xed, 0xa0, 0x80], vec![0xc0, 0x80]] {
        assert!(matches!(decode_text(bytes.clone()).unwrap_err(), DecodeError::InvalidUtf8));
        assert!(matches!(decode_json(bytes).unwrap_err(), DecodeError::InvalidUtf8));
    }
}

#[test]
fn json_bytes_decode_to_a_value() {
    let value = decode_json(b"[{\"read_id\":\"r1\",\"mod_count\":3},null,1.5]".to_vec()).unwrap();
    let first = serde_json::Map::from_iter([
        ("read_id".to_string(), serde_json::Value::String("r1".to_string())),
        ("mod_count".to_string(), serde_json::Value::from(3)),
    ]);
    assert_eq!(
        value,
        serde_json::Value::Array(vec![
            serde_json::Value::Object(first),
            serde_json::Value::Null,
            serde_json::Value::from(1.5f64),
        ])
    );
    assert_eq!(decode_json(b"[]".to_vec()).unwrap(), serde_json::Value::Array(Vec::new()));
}

#[test]
fn invalid_json_is_rejected_with_the_parser_words() {
    let err = decode_json(b"[1, 2".to_vec()).unwrap_err();
    match &err {
        DecodeError::InvalidJson(m) => {
            assert_eq!(m, "EOF while parsing a list at line 1 column 5");
        }
        other => panic!("unexpected error {other:?}"),
    }
    assert_eq!(
        err.message(),
        "Failed to parse JSON: EOF while parsing a list at line 1 column 5"
    );
    assert!(matches!(decode_json(Vec::new()).unwrap_err(), DecodeError::InvalidJson(_)));
    assert_eq!(DecodeError::InvalidUtf8.message(), "Invalid UTF-8");
}

fn triple(row: &SeqTableRow) -> (&str, &str, &str) {
    (row.read_id.as_str(), row.sequence.as_str(), row.qualities.as_str())
}

fn good(fields: &[&str]) -> Result<Vec<String>, String> {
    Ok(header(fields))
}

#[test]
fn pick_takes_the_fields_at_the_columns() {
    let columns = Columns { read_id: 2, sequence: 0, qualities: 3 };
    let fields = header(&["ACGT", "x", "read-1", "IIII"]);
    assert_eq!(triple(&pick(&columns, &fields).unwrap()), ("read-1", "ACGT", "IIII"));
    let same = Columns { read_id: 1, sequence: 1, qualities: 1 };
    assert_eq!(triple(&pick(&same, &fields).unwrap()), ("x", "x", "x"));
}

#[test]
fn pick_refuses_a_short_record() {
    let columns = Columns { read_id: 0, sequence: 1, qualities: 2 };
    assert!(matches!(pick(&columns, &header(&["a", "b"])).unwrap_err(), TableError::ShortRow));
    assert!(matches!(pick(&columns, &header(&[])).unwrap_err(), TableError::ShortRow));
    let far = Columns { read_id: usize::MAX, sequence: 0, qualities: 0 };
    assert!(matches!(pick(&far, &header(&["a"])).unwrap_err(), TableError::ShortRow));
}

#[test]
fn records_are_projected_in_order() {
    let records = vec![
        good(&["x", "qualities", "read_id", "sequence"]),
        good(&["-", "q1", "r1", "s1"]),
        good(&["-", "q2", "r2", "s2"]),
        good(&["-", "q3", "r3", "s3"]),
    ];
    let rows = project_records(&records).unwrap();
    let got: Vec<(&str, &str, &str)> = rows.iter().map(triple).collect();
    assert_eq!(got, vec![("r1", "s1", "q1"), ("r2", "s2", "q2"), ("r3", "s3", "q3")]);
}

#[test]
fn no_record_or_header_only_projects_to_no_row() {
    assert!(project_records(&Vec::new()).unwrap().is_empty());
    assert!(project_records(&vec![good(&["read_id", "sequence", "qualities"])]).unwrap().is_empty());
    assert!(project_records(&vec![good(&["a", "b"])]).unwrap().is_empty());
    assert!(project_records(&vec![good(&["read_id", "read_id"])]).unwrap().is_empty());
}

#[test]
fn first_failing_record_decides() {
    let refused: Result<Vec<String>, String> = Err("bad record".to_string());
    let err = project_records(&vec![refused.clone()]).unwrap_err();
    assert!(matches!(err, TableError::Read(m) if m == "bad record"));
    let err = project_records(&vec![good(&["read_id"]), good(&["r1"]), refused.clone()])
        .unwrap_err();
    assert!(matches!(err, TableError::MissingColumn(Column::Sequence)));
    let err = project_records(&vec![good(&["read_id"]), refused.clone(), good(&["r1"])])
        .unwrap_err();
    assert!(matches!(err, TableError::Read(m) if m == "bad record"));
    let full = good(&["read_id", "sequence", "qualities"]);
    let err = project_records(&vec![full.clone(), good(&["r", "s", "q"]), good(&["r", "s"])])
        .unwrap_err();
    assert!(matches!(err, TableError::ShortRow));
    let err = project_records(&vec![full, good(&["r", "s"]), refused]).unwrap_err();
    assert!(matches!(err, TableError::ShortRow));
}

fn expected_field(field: &str) -> String {
    if field.chars().any(|c| matches!(c, '\t' | '"' | '\r' | '\n')) {
        format!("\"{}\"", field.replace('"', "\"\""))
    } else {
        field.to_string()
    }
}

#[test]
fn output_fields_are_quoted_only_when_they_must_be() {
    let values = [
        "",
        "plain",
        " spaced out ",
        "a\tb",
        "say \"hi\"",
        "\"",
        "\"\"",
        "line\nfeed",
        "carriage\rreturn",
        "both\r\nends",
        "#not-a-comment",
        "back\\slash",
        "comma,separated",
        "'single'",
        "\u{4e2d}\u{6587}\t\u{1f600}",
        "\u{e9}\"\u{e9}",
        "ends with quote\"",
        "\ttab first",
    ];
    let mut input = csv::WriterBuilder::new()
        .delimiter(b'\t')
        .comment(Some(b'#'))
        .from_writer(Vec::new());
    input.write_record(["sequence", "other", "read_id", "qualities"]).unwrap();
    let mut expected = String::from("read_id\tsequence\tqualities\n");
    for (i, read_id) in values.iter().enumerate() {
        let sequence = values[(i + 5) % values.len()];
        let qualities = values[(i + 11) % values.len()];
        input.write_record([sequence, "x", *read_id, qualities]).unwrap();
        expected.push_str(&expected_field(read_id));
        expected.push('\t');
        expected.push_str(&expected_field(sequence));
        expected.push('\t');
        expected.push_str(&expected_field(qualities));
        expected.push('\n');
    }
    let input = String::from_utf8(input.into_inner().unwrap()).unwrap();
    assert_eq!(filter_seq_table_columns(&input).unwrap(), expected);
}

#[test]
fn long_fields_are_written_whole() {
    let long_plain = "ACGT".repeat(50_000);
    let long_quoted = format!("{}\"{}\t{}", "z".repeat(70_000), "y".repeat(70_000), "x".repeat(9));
    let mut input = csv::WriterBuilder::new().delimiter(b'\t').from_writer(Vec::new());
    input.write_record(["read_id", "sequence", "qualities"]).unwrap();
    input.write_record(["r1", long_plain.as_str(), long_quoted.as_str()]).unwrap();
    let input = String::from_utf8(input.into_inner().unwrap()).unwrap();
    let expected = format!(
        "read_id\tsequence\tqualities\nr1\t{}\t{}\n",
        long_plain,
        expected_field(&long_quoted)
    );
    assert_eq!(filter_seq_table_columns(&input).unwrap(), expected);
}

#[test]
fn four_column_example_projects_to_three_columns() {
    let input = "read_id\tsequence\tqualities\textra_col\nr1\tACGT\t!!!!\tx\n";
    assert_eq!(
        filter_seq_table_columns(input),
        Ok("read_id\tsequence\tqualities\nr1\tACGT\t!!!!\n".to_string())
    );
}

#[test]
fn reordered_example_is_projected_by_name() {
    let input = "extra_col\tqualities\tread_id\tsequence\nx\t!!\tr1\tAC\n";
    assert_eq!(
        filter_seq_table_columns(input),
        Ok("read_id\tsequence\tqualities\nr1\tAC\t!!\n".to_string())
    );
}

#[test]
fn every_data_row_gives_one_output_row() {
    for n in [0usize, 1, 2, 17, 300] {
        let mut input = String::from("read_id\tsequence\tqualities\textra\n");
        for i in 0..n {
            input.push_str(&format!("r{i}\tS{i}\tQ{i}\tX{i}\n"));
        }
        let output = filter_seq_table_columns(&input).unwrap();
        let lines: Vec<&str> = output.lines().collect();
        assert_eq!(lines.len(), n + 1);
        assert_eq!(lines[0], "read_id\tsequence\tqualities");
        for i in 0..n {
            assert_eq!(lines[i + 1], format!("r{i}\tS{i}\tQ{i}"));
        }
    }
}

#[test]
fn projecting_a_projected_table_changes_nothing() {
    let inputs = [
        "",
        "read_id\tsequence\tqualities\n",
        "x\tqualities\tread_id\tsequence\n-\tq1\tr1\ts1\n-\tq2\tr2\ts2\n",
        "read_id\tsequence\tqualities\n\"r\t1\"\t\"A\"\"C\"\t\"line\nbreak\"\n \t\t\n",
    ];
    for input in inputs {
        let once = filter_seq_table_columns(input).unwrap();
        let twice = filter_seq_table_columns(&once).unwrap();
        assert_eq!(twice, once, "input {input:?}");
    }
}

#[test]
fn row_that_reads_back_as_a_comment_is_lost_on_a_second_projection() {
    let input = "read_id\tsequence\tqualities\n\"#r1\"\tAC\tII\nr2\tGT\tJJ\n";
    let once = filter_seq_table_columns(input).unwrap();
    assert_eq!(once, "read_id\tsequence\tqualities\n#r1\tAC\tII\nr2\tGT\tJJ\n");
    let twice = filter_seq_table_columns(&once).unwrap();
    assert_eq!(twice, "read_id\tsequence\tqualities\nr2\tGT\tJJ\n");
}

#[test]
fn decoding_json_twice_gives_equal_values() {
    let bytes = b"[{\"a\":[1,2,{\"b\":null}]},\"x\",true,-0.5e3]".to_vec();
    let first = decode_json(bytes.clone()).unwrap();
    let second = decode_json(bytes).unwrap();
    assert_eq!(first, second);
    assert_eq!(first[0]["a"][2]["b"], serde_json::Value::Null);
    assert_eq!(first[1], serde_json::Value::String("x".to_string()));
    assert_eq!(decode_json(b"null".to_vec()).unwrap(), serde_json::Value::Null);
    assert_eq!(decode_json(b"7".to_vec()).unwrap(), serde_json::Value::from(7));
}
