use wptext2html::{convert_row, convert_table, file_is_csv, FormatError, Opt};

#[test]
fn untouched_columns_round_trip() {
    let row = vec![
        String::from("id"),
        String::from("<p>x"),
        String::from("z"),
        String::from("w"),
    ];
    let out = convert_row(row);
    assert_eq!(out.len(), 4);
    assert_eq!(out[0], "id");
    assert_eq!(out[1], "\n\n<p>\n\nx\n");
    assert_eq!(out[2], "z");
    assert_eq!(out[3], "w");
}

#[test]
fn end_to_end_row_with_rule() {
    let row = vec![String::from("1"), String::from("<hr/>End")];
    let out = convert_row(row);
    assert_eq!(out[0], "1");
    assert_eq!(out[1], "\n\n<hr>\n\n\n\n>End\n");
}

#[test]
fn table_keeps_row_order_and_other_columns() {
    let rows = vec![
        vec![String::from("1"), String::from("<hr/>End")],
        vec![String::from("2"), String::from(""), String::from("k")],
    ];
    let out = convert_table(rows);
    assert_eq!(out.len(), 2);
    assert_eq!(out[0], vec![String::from("1"), String::from("\n\n<hr>\n\n\n\n>End\n")]);
    assert_eq!(
        out[1],
        vec![String::from("2"), String::from("\n"), String::from("k")]
    );
}

#[test]
fn csv_extension_is_accepted() {
    assert_eq!(file_is_csv("data.csv"), Ok(()));
}

#[test]
fn other_extensions_are_format_errors() {
    assert_eq!(file_is_csv("data.txt"), Err(FormatError));
    assert_eq!(file_is_csv("data"), Err(FormatError));
    assert_eq!(file_is_csv("datacsv"), Err(FormatError));
    assert_eq!(file_is_csv(""), Err(FormatError));
}

#[test]
fn options_carry_both_paths() {
    let opt = Opt { infile: String::from("in.csv"), outfile: String::from("out.csv") };
    assert_eq!(file_is_csv(&opt.infile), Ok(()));
    assert_eq!(file_is_csv(&opt.outfile), Ok(()));
}
