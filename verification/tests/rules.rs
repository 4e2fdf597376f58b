use rururucore::{
    check_cell_id, deserialize_cell_id,
    check_cell_name, check_cell_tags, check_code_cell_type, check_markdown_cell_type,
    check_nbformat, check_nbformat_minor, check_orig_nbformat, check_raw_cell_type,
    deserialize_cell_name, deserialize_cell_tags, deserialize_code_cell_type,
    deserialize_markdown_cell_type, deserialize_orig_nbformat, deserialize_raw_cell_type,
    parse_json, DecodeError, SchemaError,
};

fn s(x: &str) -> String {
    x.to_string()
}

#[test]
fn orig_nbformat_bounds() {
    assert_eq!(check_orig_nbformat(None), Ok(None));
    assert_eq!(check_orig_nbformat(Some(1)), Ok(Some(1)));
    assert_eq!(check_orig_nbformat(Some(7)), Ok(Some(7)));
    assert_eq!(check_orig_nbformat(Some(0)), Err(SchemaError::OriginalFormatBelowOne));
}

#[test]
fn orig_nbformat_from_json() {
    assert_eq!(deserialize_orig_nbformat(&parse_json("null").unwrap()), Ok(None));
    assert_eq!(deserialize_orig_nbformat(&parse_json("3").unwrap()), Ok(Some(3)));
    assert_eq!(deserialize_orig_nbformat(&parse_json("-1").unwrap()), Err(DecodeError::WrongType));
    assert_eq!(deserialize_orig_nbformat(&parse_json("1.5").unwrap()), Err(DecodeError::WrongType));
    assert_eq!(deserialize_orig_nbformat(&parse_json("\"4\"").unwrap()), Err(DecodeError::WrongType));
    assert_eq!(
        deserialize_orig_nbformat(&parse_json("0").unwrap()),
        Err(DecodeError::Schema(SchemaError::OriginalFormatBelowOne))
    );
}

#[test]
fn nbformat_only_four() {
    assert_eq!(check_nbformat(4), Ok(4));
    assert_eq!(check_nbformat(3), Err(SchemaError::NbformatNotFour));
    assert_eq!(check_nbformat(5), Err(SchemaError::NbformatNotFour));
    assert_eq!(check_nbformat(0), Err(SchemaError::NbformatNotFour));
}

#[test]
fn nbformat_minor_at_least_five() {
    assert_eq!(check_nbformat_minor(5), Ok(5));
    assert_eq!(check_nbformat_minor(9), Ok(9));
    assert_eq!(check_nbformat_minor(4), Err(SchemaError::NbformatMinorBelowFive));
    assert_eq!(check_nbformat_minor(0), Err(SchemaError::NbformatMinorBelowFive));
}

#[test]
fn cell_id_rules() {
    assert_eq!(check_cell_id(s("cell-123_A")), Ok(s("cell-123_A")));
    assert_eq!(check_cell_id(s("")), Err(SchemaError::EmptyCellId));
    let sixty_four = "a".repeat(64);
    assert_eq!(check_cell_id(sixty_four.clone()), Ok(sixty_four));
    assert_eq!(check_cell_id("a".repeat(65)), Err(SchemaError::CellIdTooLong));
    assert_eq!(check_cell_id(s("cell@123!")), Err(SchemaError::CellIdPattern));
    assert_eq!(check_cell_id(s("with space")), Err(SchemaError::CellIdPattern));
    assert_eq!(check_cell_id(s("line\nbreak")), Err(SchemaError::CellIdPattern));
    // 22 characters of 3 bytes each: 66 bytes
    assert_eq!(check_cell_id("\u{4e2d}".repeat(22)), Err(SchemaError::CellIdTooLong));
    // 21 characters of 3 bytes each: within the byte limit, refused by the pattern
    assert_eq!(check_cell_id("\u{4e2d}".repeat(21)), Err(SchemaError::CellIdPattern));
}

#[test]
fn cell_id_pattern_characters() {
    assert_eq!(check_cell_id(s("AZaz09-_")), Ok(s("AZaz09-_")));
    assert_eq!(check_cell_id(s("-")), Ok(s("-")));
    assert_eq!(check_cell_id(s("a.b")), Err(SchemaError::CellIdPattern));
    assert_eq!(check_cell_id(s("abc\n")), Err(SchemaError::CellIdPattern));
    assert_eq!(check_cell_id(s("\u{e9}t\u{e9}")), Err(SchemaError::CellIdPattern));
    // too long and not matching: the length decides
    assert_eq!(check_cell_id("!".repeat(65)), Err(SchemaError::CellIdTooLong));
}

#[test]
fn cell_name_rules() {
    assert_eq!(check_cell_name(None), Ok(None));
    assert_eq!(check_cell_name(Some(s(""))), Ok(Some(s(""))));
    assert_eq!(check_cell_name(Some(s("cell_name_1"))), Ok(Some(s("cell_name_1"))));
    assert_eq!(check_cell_name(Some(s("two\nlines"))), Err(SchemaError::CellNamePattern));
    assert_eq!(check_cell_name(Some(s("trailing\n"))), Err(SchemaError::CellNamePattern));
    assert_eq!(check_cell_name(Some(s("\n"))), Err(SchemaError::CellNamePattern));
    assert_eq!(check_cell_name(Some(s("carriage\rreturn, comma"))), Ok(Some(s("carriage\rreturn, comma"))));
    assert_eq!(deserialize_cell_name(&parse_json("null").unwrap()), Ok(None));
    assert_eq!(deserialize_cell_name(&parse_json("7").unwrap()), Err(DecodeError::WrongType));
}

#[test]
fn cell_tag_rules() {
    assert_eq!(check_cell_tags(None), Ok(None));
    assert_eq!(check_cell_tags(Some(vec![])), Ok(Some(vec![])));
    assert_eq!(check_cell_tags(Some(vec![s("tag1"), s("tag 2")])), Ok(Some(vec![s("tag1"), s("tag 2")])));
    assert_eq!(check_cell_tags(Some(vec![s("valid_tag"), s("invalid,tag")])), Err(SchemaError::CellTagPattern));
    assert_eq!(check_cell_tags(Some(vec![s("")])), Err(SchemaError::CellTagPattern));
    assert_eq!(check_cell_tags(Some(vec![s("line\nbreak")])), Ok(Some(vec![s("line\nbreak")])));
    assert_eq!(check_cell_tags(Some(vec![s("a"), s(","), s("b")])), Err(SchemaError::CellTagPattern));
    let tags = deserialize_cell_tags(&parse_json(r#"["a", "b"]"#).unwrap()).unwrap().unwrap();
    assert_eq!(tags, vec![s("a"), s("b")]);
    assert_eq!(
        deserialize_cell_tags(&parse_json(r#"["valid_tag", "invalid,tag"]"#).unwrap()),
        Err(DecodeError::Schema(SchemaError::CellTagPattern))
    );
    assert_eq!(deserialize_cell_tags(&parse_json(r#"["a", 1]"#).unwrap()), Err(DecodeError::WrongType));
    assert_eq!(deserialize_cell_tags(&parse_json("\"a\"").unwrap()), Err(DecodeError::WrongType));
}

#[test]
fn cell_type_words() {
    assert_eq!(check_raw_cell_type(s("raw")), Ok(s("raw")));
    assert_eq!(check_raw_cell_type(s("code")), Err(SchemaError::NotRawCellType));
    assert_eq!(check_markdown_cell_type(s("markdown")), Ok(s("markdown")));
    assert_eq!(check_markdown_cell_type(s("Markdown")), Err(SchemaError::NotMarkdownCellType));
    assert_eq!(check_code_cell_type(s("code")), Ok(s("code")));
    assert_eq!(check_code_cell_type(s("code ")), Err(SchemaError::NotCodeCellType));
    assert_eq!(deserialize_raw_cell_type(&parse_json("\"raw\"").unwrap()), Ok(s("raw")));
    assert_eq!(deserialize_markdown_cell_type(&parse_json("1").unwrap()), Err(DecodeError::WrongType));
    assert_eq!(
        deserialize_code_cell_type(&parse_json("\"raw\"").unwrap()),
        Err(DecodeError::Schema(SchemaError::NotCodeCellType))
    );
}

#[test]
fn cell_fields_from_json() {
    let id = |t: &str| deserialize_cell_id(&rururucore::Json::Str(t.to_string()));
    assert_eq!(id("a-1_B"), Ok(s("a-1_B")));
    assert_eq!(id(""), Err(DecodeError::Schema(SchemaError::EmptyCellId)));
    assert_eq!(id(&"x".repeat(65)), Err(DecodeError::Schema(SchemaError::CellIdTooLong)));
    assert_eq!(id("a b"), Err(DecodeError::Schema(SchemaError::CellIdPattern)));
    assert_eq!(deserialize_cell_name(&parse_json("\"\"").unwrap()), Ok(Some(s(""))));
    assert_eq!(deserialize_cell_name(&parse_json("\"a b\"").unwrap()), Ok(Some(s("a b"))));
    assert_eq!(
        deserialize_cell_name(&parse_json("\"a\\nb\"").unwrap()),
        Err(DecodeError::Schema(SchemaError::CellNamePattern))
    );
    assert_eq!(deserialize_cell_tags(&parse_json("null").unwrap()), Ok(None));
    assert_eq!(
        deserialize_cell_tags(&parse_json(r#"["b", "a", "b"]"#).unwrap()),
        Ok(Some(vec![s("b"), s("a"), s("b")]))
    );
    assert_eq!(
        deserialize_cell_tags(&parse_json(r#"["a", ""]"#).unwrap()),
        Err(DecodeError::Schema(SchemaError::CellTagPattern))
    );
}
