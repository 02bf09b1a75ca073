use clean_layers::adaptor::{OutPort, PresenterA, PresenterB};
use clean_layers::application::DataDto;

fn answer(id: &str, name: &str) -> Result<DataDto, u64> {
    Ok(DataDto { id: String::from(id), name: String::from(name) })
}

#[test]
fn presenter_a_shows_the_fields() {
    let shown = PresenterA.emit(answer("abc123", "test man")).unwrap();
    assert_eq!(shown.id(), "abc123");
    assert_eq!(shown.name(), "test man");
}

#[test]
fn presenter_a_debug_text() {
    let shown = PresenterA.emit(answer("abc123", "test man"));
    assert_eq!(
        format!("{:?}", shown),
        "Ok(PresentationalDataA { id: \"abc123\", name: \"test man\" })"
    );
}

#[test]
fn presenter_a_forwards_the_code() {
    for code in [0u64, 3, u64::MAX] {
        let shown = PresenterA.emit(Err(code));
        assert_eq!(shown.err(), Some(code));
    }
}

#[test]
fn presenter_b_shows_the_debug_text() {
    let shown = PresenterB.emit(answer("abc123", "test man"));
    assert_eq!(shown, Ok(String::from("DataDto { id: \"abc123\", name: \"test man\" }")));
}

#[test]
fn presenter_b_forwards_the_code() {
    for code in [0u64, 3, u64::MAX] {
        assert_eq!(PresenterB.emit(Err(code)), Err(code));
    }
}

#[test]
fn presenter_b_text_is_the_derived_debug_text() {
    for (id, name) in [
        ("abc123", "test man"),
        ("", ""),
        ("a\"b", "c\\d"),
        ("tab\there", "line\nbreak"),
        ("\u{1F600}", "\u{7f}\u{0}"),
        ("it's", "{ id: }"),
    ] {
        let dto = DataDto { id: String::from(id), name: String::from(name) };
        let expected = format!("{:?}", dto);
        assert_eq!(PresenterB.emit(Ok(dto)), Ok(expected));
    }
}

#[test]
fn debug_string_quotes_and_escapes_each_field() {
    let dto = DataDto { id: String::from("a\"b"), name: String::from("x\ny") };
    assert_eq!(dto.to_debug_string(), "DataDto { id: \"a\\\"b\", name: \"x\\ny\" }");
}

#[test]
fn framed_puts_the_field_texts_between_braces() {
    assert_eq!(DataDto::framed("\"a\"", "\"b\""), "DataDto { id: \"a\", name: \"b\" }");
    assert_eq!(DataDto::framed("", ""), "DataDto { id: , name:  }");
    assert_eq!(DataDto::framed("1", "2"), "DataDto { id: 1, name: 2 }");
}

#[test]
fn debug_string_of_empty_fields() {
    let dto = DataDto { id: String::new(), name: String::new() };
    assert_eq!(dto.to_debug_string(), "DataDto { id: \"\", name: \"\" }");
}

#[test]
fn presenters_differ_in_shape_only() {
    for (id, name) in [("abc123", "test man"), ("", ""), ("q\"q", "\\")] {
        let record = PresenterA.emit(answer(id, name)).unwrap();
        let text = PresenterB.emit(answer(id, name)).unwrap();
        let of_record = DataDto {
            id: String::from(record.id()),
            name: String::from(record.name()),
        };
        assert_eq!(text, of_record.to_debug_string());
    }
    for code in [0u64, 9, u64::MAX] {
        assert_eq!(PresenterA.emit(Err(code)).err(), PresenterB.emit(Err(code)).err());
    }
}
