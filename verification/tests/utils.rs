use qobject_compiler::utils::to_snake_case;

#[test]
fn test_to_snake_case_camel_case() {
    assert_eq!(to_snake_case("rowCount"), "row_count");
}

#[test]
fn test_to_snake_case_upper_camel_case() {
    assert_eq!(to_snake_case("RowCount"), "row_count");
}

#[test]
fn test_to_snake_case_upper_case() {
    assert_eq!(to_snake_case("ROW_COUNT"), "row_count");
}

#[test]
fn test_to_snake_case_number_upper_camel_case() {
    assert_eq!(to_snake_case("RowV4Count"), "row_v4_count");
}

#[test]
fn test_to_snake_case_one_upper_case() {
    assert_eq!(to_snake_case("Q_OBJECT"), "q_object");
}

#[test]
fn test_to_snake_case_snake_case() {
    assert_eq!(to_snake_case("row_count"), "row_count");
}

#[test]
fn test_to_snake_number_1() {
    assert_eq!(to_snake_case("arg0"), "arg0");
}

#[test]
fn test_underscore() {
    assert_eq!(to_snake_case("_"), "_");
}

#[test]
fn test_prefix_underscore() {
    assert_eq!(to_snake_case("__arg0"), "__arg0");
}

#[test]
fn test_suffix_underscore() {
    assert_eq!(to_snake_case("arg0__"), "arg0__");
}

#[test]
fn test_to_snake_case_mixed_case_1() {
    assert_eq!(to_snake_case("QOBJECT_Ref"), "qobject_ref");
}

#[test]
fn test_to_snake_case_acronym_then_word() {
    assert_eq!(to_snake_case("ABCDef"), "abc_def");
}

#[test]
fn test_to_snake_case_empty() {
    assert_eq!(to_snake_case(""), "");
}

#[test]
fn test_to_snake_case_idempotent_examples() {
    for input in [
        "rowCount",
        "RowCount",
        "ROW_COUNT",
        "RowV4Count",
        "_",
        "__arg0",
        "arg0__",
        "ABCDef",
        "QOBJECT_Ref",
        "",
        "a__b",
        "_Mixed_CASE_tail__",
    ] {
        let once = to_snake_case(input);
        let twice = to_snake_case(&once);
        assert_eq!(once, twice);
    }
}

#[test]
fn test_case_parser_streaming() {
    let mut parser = qobject_compiler::utils::CaseParser::new();
    for c in "dataChanged".chars() {
        parser.feed(c);
    }
    assert_eq!(parser.finish(), "data_changed");
}
