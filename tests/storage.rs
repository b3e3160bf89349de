use pomodoro::storage::{decode_record, encode_record, Storage, StoreError, User};

fn user(name: &str, activity: &str) -> User {
    User { username: name.to_string(), activity: activity.to_string() }
}

#[test]
fn encodes_as_quoted_object() {
    let text = encode_record(&user("aalt", "2.5")).unwrap();
    assert_eq!(text, r#""{\"username\":\"aalt\",\"activity\":\"2.5\"}""#);
}

#[test]
fn encodes_escapes() {
    let text = encode_record(&user("a\"b", "x\ny\u{1}")).unwrap();
    assert_eq!(
        text,
        r#""{\"username\":\"a\\\"b\",\"activity\":\"x\\ny\\u0001\"}""#
    );
}

#[test]
fn fresh_store_fails_to_decode() {
    let s = Storage::new("storage.json");
    assert_eq!(s.contents(), "");
    assert_eq!(s.database_url(), "storage.json");
    assert!(matches!(s.get(), Err(StoreError::Decode)));
}

#[test]
fn put_then_get_returns_record() {
    let cases = [
        ("aalt", "2.5"),
        ("", ""),
        ("quote\"back\\slash", "tab\tnew\nline\r\u{8}\u{c}\u{1f}"),
        ("ünïcödé ☃", "\u{7f}/"),
        ("{\"username\":", ",\"activity\":"),
    ];
    for (name, activity) in cases {
        let mut s = Storage::new("db.json");
        assert!(s.insert(&user(name, activity)).is_ok());
        let back = s.get().unwrap();
        assert_eq!(back.username, name);
        assert_eq!(back.activity, activity);
    }
}

#[test]
fn update_overwrites() {
    let mut s = Storage::new("db.json");
    s.insert(&user("first", "1")).unwrap();
    s.update(&user("second", "2")).unwrap();
    let back = s.get().unwrap();
    assert_eq!(back.username, "second");
    assert_eq!(back.activity, "2");
    assert_eq!(s.database_url(), "db.json");
}

#[test]
fn reads_existing_contents() {
    let s = Storage::with_contents("db.json", encode_record(&user("u", "a")).unwrap());
    let back = s.get().unwrap();
    assert_eq!(back.username, "u");
    assert_eq!(back.activity, "a");
}

#[test]
fn reads_other_encodings_of_a_record() {
    let texts = [
        "\"{\\\"username\\\":\\\"u\\\",\\\"activity\\\":\\\"a\\\"}\"\n",
        r#""{\"activity\":\"a\",\"username\":\"u\"}""#,
        r#""{\"username\": \"u\", \"activity\" : \"a\"}""#,
        r#""{\"username\":\"\\u0075\",\"activity\":\"a\"}""#,
        r#" "{\n  \"username\": \"u\",\n  \"activity\": \"a\",\n  \"extra\": 3\n}" "#,
        r#""{\u0022username\u0022:\u0022u\u0022,\"activity\":\"a\"}""#,
    ];
    for t in texts {
        let back = decode_record(&t.to_string()).unwrap_or_else(|_| panic!("rejected {t}"));
        assert_eq!(back.username, "u");
        assert_eq!(back.activity, "a");
        let s = Storage::with_contents("db.json", t.to_string());
        let back = s.get().unwrap();
        assert_eq!(back.username, "u");
        assert_eq!(back.activity, "a");
    }
}

#[test]
fn rejects_texts_without_a_record() {
    let texts = [
        "",
        "   ",
        "\"\"",
        "{\"username\":\"u\",\"activity\":\"a\"}",
        r#""{\"username\":\"u\"}""#,
        r#""{\"username\":\"u\",\"activity\":2.5}""#,
        r#""[\"u\",\"a\"]""#,
        r#""{\"username\":\"u\",\"activity\":\"a\"}x""#,
        r#""{\"username\":\"u\",\"activity\":\"a\"}"#,
        "not json",
    ];
    for t in texts {
        assert!(
            matches!(decode_record(&t.to_string()), Err(StoreError::Decode)),
            "accepted {t}"
        );
        let s = Storage::with_contents("db.json", t.to_string());
        assert!(matches!(s.get(), Err(StoreError::Decode)));
    }
}
