use confargs::{
    prefix_char_filter, ConfigError, Error, Filter, Merger, PrefixChar, Shape, Step, Toml,
};

const TOML_CONFIG: &str = r#"#Test config
string = "foo"
integer = 42
float = 42.2
true = true
false = false
datetime = 01:02:03.000000004
array = [1, 2, 3]"#;

fn strings(items: &[&str]) -> Vec<String> {
    items.iter().map(|s| s.to_string()).collect()
}

fn merge(
    args: &[&str],
    files: &[(&str, Result<&str, &str>)],
) -> Result<Vec<String>, ConfigError> {
    let mut merger = Merger::new(strings(args));
    loop {
        match merger.step(&PrefixChar('@')) {
            Step::Load(pending) => {
                let found = files.iter().find(|(path, _)| *path == pending.path());
                let loaded = match found {
                    Some((_, Ok(text))) => Ok(text.as_bytes().to_vec()),
                    Some((_, Err(complaint))) => Err(complaint.to_string()),
                    None => Err("not found".to_string()),
                };
                merger = pending.supply::<Toml>(loaded)?;
            }
            Step::Done(merged) => return Ok(merged),
        }
    }
}

#[test]
fn merge_of_the_sample_configuration() {
    let merged = merge(
        &["print-args", "--test", "@/tmp/conf.toml", "foo", "--bar=baz"],
        &[("/tmp/conf.toml", Ok(TOML_CONFIG))],
    )
    .unwrap();
    assert_eq!(
        merged,
        vec![
            "print-args",
            "--test",
            "--array=1",
            "--array=2",
            "--array=3",
            "--datetime=01:02:03.000000004",
            "--float=42.2",
            "--integer=42",
            "--string=foo",
            "--true",
            "foo",
            "--bar=baz",
        ]
    );
}

#[test]
fn merge_puts_the_configuration_where_the_reference_stood() {
    let config = "string = \"foo\"\ninteger = 42\nfloat = 42.2\ntrue = true\nfalse = false\narray = [1,2,3]";
    let merged = merge(
        &["prog", "--test", "@conf", "foo", "--bar=baz"],
        &[("conf", Ok(config))],
    )
    .unwrap();
    assert_eq!(
        merged,
        vec![
            "prog",
            "--test",
            "--array=1",
            "--array=2",
            "--array=3",
            "--float=42.2",
            "--integer=42",
            "--string=foo",
            "--true",
            "foo",
            "--bar=baz"
        ]
    );
}

#[test]
fn merge_without_references_changes_nothing() {
    let args = ["prog", "-v", "--name=x", "file"];
    assert_eq!(merge(&args, &[]), Ok(strings(&args)));
    assert_eq!(merge(&[], &[]), Ok(vec![]));
}

#[test]
fn merge_takes_several_configurations_in_order() {
    let merged = merge(
        &["prog", "@b", "mid", "@a", "@b"],
        &[("a", Ok("x = 1")), ("b", Ok("y = [true, false]\nz = \"s\""))],
    )
    .unwrap();
    assert_eq!(
        merged,
        strings(&["prog", "--y", "--z=s", "mid", "--x=1", "--y", "--z=s"])
    );
}

#[test]
fn merge_never_takes_the_program_name_for_a_reference() {
    let merged = merge(&["@prog", "@conf"], &[("conf", Ok("a = 1"))]).unwrap();
    assert_eq!(merged, strings(&["@prog", "--a=1"]));
}

#[test]
fn merge_fails_on_an_unreadable_configuration() {
    let failed = merge(
        &["prog", "--keep", "@missing", "@never"],
        &[("missing", Err("permission denied"))],
    )
    .unwrap_err();
    assert_eq!(
        failed,
        ConfigError {
            path: "missing".into(),
            cause: Error::Io("permission denied".into())
        }
    );
    assert_eq!(
        failed.message(),
        "Failed to parse config at `missing`: permission denied"
    );
}

#[test]
fn merge_fails_on_an_unsupported_shape() {
    let failed = merge(
        &["prog", "@good", "@bad", "tail"],
        &[("good", Ok("a = 1")), ("bad", Ok("matrix = [[1,2],[3,4]]"))],
    )
    .unwrap_err();
    assert_eq!(
        failed,
        ConfigError {
            path: "bad".into(),
            cause: Error::UnsupportedShape {
                key: "matrix".into(),
                shape: Shape::Array
            }
        }
    );
    assert_eq!(
        failed.message(),
        "Failed to parse config at `bad`: failed to parse TOML table: array not supported for field `matrix`"
    );
}

#[test]
fn merge_fails_on_a_malformed_configuration() {
    let failed = merge(&["prog", "@bad"], &[("bad", Ok("= 1"))]).unwrap_err();
    assert_eq!(failed.path, "bad");
    assert!(matches!(failed.cause, Error::Parse(_)));
    assert!(failed
        .message()
        .starts_with("Failed to parse config at `bad`: failed to parse TOML: "));
}

#[test]
fn step_stops_at_each_reference() {
    let merger = Merger::new(strings(&["prog", "a", "@one", "b", "@two"]));
    let pending = match merger.step(&PrefixChar('@')) {
        Step::Load(pending) => pending,
        Step::Done(_) => panic!("stopped at the end"),
    };
    assert_eq!(pending.path(), "one");
    let merger = pending.supply::<Toml>(Ok(b"k = 1".to_vec())).unwrap();
    let pending = match merger.step(&PrefixChar('@')) {
        Step::Load(pending) => pending,
        Step::Done(_) => panic!("stopped at the end"),
    };
    assert_eq!(pending.path(), "two");
    let merger = pending.supply::<Toml>(Ok(Vec::new())).unwrap();
    match merger.step(&PrefixChar('@')) {
        Step::Load(_) => panic!("stopped at a reference"),
        Step::Done(merged) => assert_eq!(merged, strings(&["prog", "a", "--k=1", "b"])),
    }
}

#[test]
fn prefix_char_filter_strips_the_prefix() {
    assert_eq!(prefix_char_filter('@', "@path/to/file"), Some("path/to/file"));
    assert_eq!(prefix_char_filter('@', "@"), Some(""));
    assert_eq!(prefix_char_filter('@', "@@x"), Some("@x"));
    assert_eq!(prefix_char_filter('@', "path"), None);
    assert_eq!(prefix_char_filter('@', "a@b"), None);
    assert_eq!(prefix_char_filter('@', ""), None);
    assert_eq!(prefix_char_filter('+', "@x"), None);
}

#[test]
fn prefix_char_filter_counts_characters() {
    assert_eq!(prefix_char_filter('é', "été"), Some("té"));
    assert_eq!(prefix_char_filter('@', "@ö/ü"), Some("ö/ü"));
    assert_eq!(prefix_char_filter('e', "été"), None);
}

#[test]
fn prefix_char_is_the_same_filter() {
    let filter = PrefixChar('@');
    assert_eq!(filter.apply("@conf"), Some("conf"));
    assert_eq!(filter.apply("conf"), None);
}

#[test]
fn merge_steps_through_a_short_list() {
    let args = vec!["prog".to_string(), "@conf.toml".to_string(), "-v".to_string()];
    let mut merger = Merger::new(args);
    let merged = loop {
        match merger.step(&PrefixChar('@')) {
            Step::Load(pending) => {
                assert_eq!(pending.path(), "conf.toml");
                let bytes = b"name = \"x\"\nlevels = [1, 2]".to_vec();
                merger = pending.supply::<Toml>(Ok(bytes)).unwrap();
            }
            Step::Done(merged) => break merged,
        }
    };
    assert_eq!(merged, ["prog", "--levels=1", "--levels=2", "--name=x", "-v"]);
}
