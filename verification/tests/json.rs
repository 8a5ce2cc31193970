use openless_remote::json::{Document, Object, Scalar};

#[test]
fn objects_are_written_and_read_back() {
    let text = Object::new()
        .with("number", Scalar::Number(2))
        .with("flag", Scalar::Flag(true))
        .with("nothing", Scalar::Null)
        .with_text("text", "引号\" 反斜杠\\ 换行\n")
        .finish();
    assert_eq!(
        text,
        "{\"flag\":true,\"nothing\":null,\"number\":2,\"text\":\"引号\\\" 反斜杠\\\\ 换行\\n\"}"
    );
    let document = Document::parse(&text).unwrap();
    assert_eq!(document.text("text"), Some("引号\" 反斜杠\\ 换行\n".to_string()));
    assert_eq!(document.text("number"), None);
    assert_eq!(document.text("flag"), None);
    assert_eq!(document.text("nothing"), None);
    assert_eq!(document.text("absent"), None);
}

#[test]
fn the_last_value_of_a_key_counts() {
    let text = Object::new().with_text("key", "old").with_text("key", "new").finish();
    assert_eq!(text, "{\"key\":\"new\"}");
}

#[test]
fn other_documents_have_no_members() {
    for text in ["[1,2]", "\"type\"", "3.5", "null", "true"] {
        let document = Document::parse(text).unwrap();
        assert_eq!(document.text("type"), None);
    }
    assert_eq!(Document::parse("{\"type\":{\"a\":\"b\"}}").unwrap().text("type"), None);
}

#[test]
fn bad_texts_are_refused_with_the_readers_words() {
    match Document::parse("{\"type\":") {
        Ok(_) => panic!("read a broken text"),
        Err(complaint) => {
            assert_eq!(complaint, "EOF while parsing a value at line 1 column 8")
        }
    }
    assert!(Document::parse("").is_err());
    assert!(Document::parse("{} x").is_err());
}

#[test]
fn documents_are_handed_out() {
    let value = Object::new().with("flag", Scalar::Flag(false)).into_document().into_value();
    assert_eq!(value["flag"].as_bool(), Some(false));
}
