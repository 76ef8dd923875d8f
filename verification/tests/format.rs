use confargs::{Config, Error, Format, Shape, Toml};

const TOML_CONFIG: &str = r#"#Test config
string = "foo"
integer = 42
float = 42.2
true = true
false = false
datetime = 01:02:03.000000004
array = [1, 2, 3]"#;

#[test]
fn from_slice_translates_a_document() {
    assert_eq!(
        Toml::from_slice(TOML_CONFIG.as_bytes()).unwrap(),
        vec![
            "--array=1",
            "--array=2",
            "--array=3",
            "--datetime=01:02:03.000000004",
            "--float=42.2",
            "--integer=42",
            "--string=foo",
            "--true",
        ]
    );
}

#[test]
fn from_slice_gives_the_same_arguments_each_time() {
    let first = Config::from_slice(TOML_CONFIG.as_bytes());
    let second = Config::from_slice(TOML_CONFIG.as_bytes());
    assert_eq!(first, second);
}

#[test]
fn from_slice_of_an_empty_document_is_empty() {
    assert_eq!(Config::from_slice(b""), Ok(vec![]));
}

#[test]
fn from_slice_writes_floats_in_shortest_form() {
    assert_eq!(
        Config::from_slice(b"a = 42.0\nb = 0.1\nc = -1.5e3").unwrap(),
        vec!["--a=42", "--b=0.1", "--c=-1500"]
    );
}

#[test]
fn from_slice_writes_timestamps_as_the_backend_prints_them() {
    assert_eq!(
        Config::from_slice(b"at = 1979-05-27T07:32:00Z\nday = 1979-05-27").unwrap(),
        vec!["--at=1979-05-27T07:32:00Z", "--day=1979-05-27"]
    );
}

#[test]
fn from_slice_rejects_a_nested_array() {
    assert_eq!(
        Config::from_slice(b"first = 1\nmatrix = [[1,2],[3,4]]"),
        Err(Error::UnsupportedShape {
            key: "matrix".into(),
            shape: Shape::Array
        })
    );
}

#[test]
fn from_slice_rejects_a_nested_table() {
    assert_eq!(
        Config::from_slice(b"a = 1\n[server]\nport = 80"),
        Err(Error::UnsupportedShape {
            key: "server".into(),
            shape: Shape::Table
        })
    );
    assert_eq!(
        Config::from_slice(b"points = [{ x = 1 }, { x = 2 }]"),
        Err(Error::UnsupportedShape {
            key: "points".into(),
            shape: Shape::Table
        })
    );
}

#[test]
fn from_slice_reports_a_malformed_document() {
    match Config::from_slice(b"key = ") {
        Err(Error::Parse(complaint)) => assert!(!complaint.is_empty()),
        other => panic!("{:?}", other),
    }
    assert!(matches!(
        Config::from_slice(&[0xff, 0xfe]),
        Err(Error::Parse(_))
    ));
}

#[test]
fn from_slice_takes_a_bare_array_for_malformed() {
    assert!(matches!(Config::from_slice(b"[1,2,3]"), Err(Error::Parse(_))));
}

#[test]
fn error_messages_name_the_cause() {
    assert_eq!(
        Error::Parse("oops".into()).message(),
        "failed to parse TOML: oops"
    );
    assert_eq!(
        Error::UnsupportedShape {
            key: "matrix".into(),
            shape: Shape::Array
        }
        .message(),
        "failed to parse TOML table: array not supported for field `matrix`"
    );
    assert_eq!(
        Error::UnsupportedShape {
            key: "t".into(),
            shape: Shape::Table
        }
        .message(),
        "failed to parse TOML table: table not supported for field `t`"
    );
    assert_eq!(Error::InvalidTopLevel.message(), "invalid config file format");
    assert_eq!(Error::Io("no such file".into()).message(), "no such file");
}
