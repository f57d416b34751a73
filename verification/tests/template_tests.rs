use std::time::Duration;
use std::time::SystemTime;
use wych::{as_unix_ts_millis, AppVersion, TemplateEngine, Templates};

fn record(
    version: &str,
    build_number: u32,
    hash: &str,
    timestamp: i64,
    source: &str,
) -> AppVersion {
    AppVersion {
        version: version.to_string(),
        build_number,
        hash: hash.to_string(),
        timestamp,
        source: source.to_string(),
    }
}

fn store_with(text: &str) -> Templates {
    Templates { elm_app_version_template_contents: text.to_string() }
}

#[test]
fn load_default_elm_version_file() {
    let templates = Templates::load();

    assert!(templates.elm_app_version_template_contents.starts_with("module "));
}

#[test]
fn run_template() {
    let templates = Templates::load();
    let engine = TemplateEngine::new(&templates).unwrap();

    let model = AppVersion {
        version: "World".to_string(),
        build_number: 1,
        hash: "123456".to_string(),
        timestamp: 0,
        source: "rust unit test".to_string(),
    };

    let rendered = engine.render(model).unwrap();
    println!("Rendered: {}", rendered);
}

#[test]
fn load_is_idempotent() {
    let first = Templates::load();
    let second = Templates::load();
    assert_eq!(
        first.elm_app_version_template_contents,
        second.elm_app_version_template_contents
    );
}

#[test]
fn compile_is_deterministic_on_success() {
    let templates = Templates::load();
    let first = TemplateEngine::new(&templates);
    let second = TemplateEngine::new(&templates);
    assert!(first.is_ok());
    assert!(second.is_ok());
}

#[test]
fn compile_is_deterministic_on_failure() {
    let templates = store_with("broken {placeholder");
    let first = TemplateEngine::new(&templates).unwrap_err();
    let second = TemplateEngine::new(&templates).unwrap_err();
    assert_eq!(first, second);
}

#[test]
fn invalid_template_yields_no_engine() {
    let unclosed = store_with("hello {name");
    assert_eq!(
        TemplateEngine::new(&unclosed).unwrap_err(),
        "template compile error: '{' without matching '}'"
    );

    let nested = store_with("hello {na{me}");
    assert_eq!(
        TemplateEngine::new(&nested).unwrap_err(),
        "template compile error: '{' without matching '}'"
    );

    let stray_close = store_with("hello } there");
    assert_eq!(
        TemplateEngine::new(&stray_close).unwrap_err(),
        "template compile error: '}' without matching '{'"
    );
}

#[test]
fn render_is_pure() {
    let templates = Templates::load();
    let engine = TemplateEngine::new(&templates).unwrap();
    let first = engine.render(record("1.0.0", 7, "abc", 5, "here")).unwrap();
    let second = engine.render(record("1.0.0", 7, "abc", 5, "here")).unwrap();
    assert_eq!(first, second);
}

#[test]
fn fields_are_substituted_without_leftover_placeholders() {
    let templates = Templates::load();
    let engine = TemplateEngine::new(&templates).unwrap();
    let rendered = engine.render(record("1.2.3", 42, "abcd", 0, "test")).unwrap();

    assert!(rendered.contains("1.2.3"));
    assert!(rendered.contains("42"));
    assert!(rendered.contains("abcd"));
    assert!(rendered.contains("0"));
    assert!(rendered.contains("test"));
    assert!(!rendered.contains('{'));
    assert!(!rendered.contains('}'));
}

#[test]
fn renders_are_independent() {
    let templates = Templates::load();
    let engine = TemplateEngine::new(&templates).unwrap();

    let first = engine
        .render(record("9.9.9", 777, "feedface", 123456, "machine-a"))
        .unwrap();
    let second = engine
        .render(record("2.0.0", 8, "0123cafe", 654321, "machine-b"))
        .unwrap();
    let fresh = TemplateEngine::new(&templates)
        .unwrap()
        .render(record("2.0.0", 8, "0123cafe", 654321, "machine-b"))
        .unwrap();

    assert_eq!(second, fresh);
    assert!(!second.contains("9.9.9"));
    assert!(!second.contains("777"));
    assert!(!second.contains("feedface"));
    assert!(!second.contains("machine-a"));
    assert!(first.contains("9.9.9"));
}

#[test]
fn end_to_end_scenario() {
    let templates = Templates::load();
    let engine = TemplateEngine::new(&templates).unwrap();
    let rendered = engine
        .render(record("0.0.1", 1, "deadbeef", 1700000000000, "ci-runner"))
        .unwrap();

    assert!(rendered.contains("0.0.1"));
    assert!(rendered.contains("1"));
    assert!(rendered.contains("deadbeef"));
    assert!(rendered.contains("1700000000000"));
    assert!(rendered.contains("ci-runner"));
    assert!(!rendered.contains('{'));
    assert!(!rendered.contains('}'));
}

#[test]
fn unknown_placeholder_is_a_render_error() {
    let templates = store_with("hi {nope}");
    let engine = TemplateEngine::new(&templates).unwrap();
    let err = engine.render(record("1", 1, "1", 1, "1")).unwrap_err();
    assert_eq!(err, "template render error: unknown placeholder 'nope'");
}

#[test]
fn unknown_placeholder_returns_no_partial_output() {
    let templates = store_with("{version} and then {mystery} tail");
    let engine = TemplateEngine::new(&templates).unwrap();
    let result = engine.render(record("3.1.4", 2, "aa", 3, "src"));
    assert!(result.is_err());
    let message = result.unwrap_err();
    assert!(!message.contains("3.1.4"));
    assert!(!message.contains("tail"));
}

#[test]
fn numeric_fields_render_in_canonical_decimal() {
    let build = store_with("{build_number}");
    let engine = TemplateEngine::new(&build).unwrap();
    assert_eq!(engine.render(record("", 0, "", 0, "")).unwrap(), "0");
    assert_eq!(
        engine.render(record("", u32::MAX, "", 0, "")).unwrap(),
        "4294967295"
    );

    let stamp = store_with("{timestamp}");
    let engine = TemplateEngine::new(&stamp).unwrap();
    assert_eq!(engine.render(record("", 0, "", -42, "")).unwrap(), "-42");
    assert_eq!(
        engine.render(record("", 0, "", i64::MIN, "")).unwrap(),
        "-9223372036854775808"
    );
    assert_eq!(
        engine.render(record("", 0, "", i64::MAX, "")).unwrap(),
        "9223372036854775807"
    );
}

#[test]
fn text_fields_render_verbatim() {
    let templates = store_with("v={version} h=\"{hash}\" s={source}");
    let engine = TemplateEngine::new(&templates).unwrap();
    let rendered = engine
        .render(record("1.0-rc.1+meta", 1, "", 0, "host, Linux 6.1"))
        .unwrap();
    assert_eq!(rendered, "v=1.0-rc.1+meta h=\"\" s=host, Linux 6.1");
}

#[test]
fn template_without_placeholders_renders_verbatim() {
    let templates = store_with("plain text, nothing to fill in");
    let engine = TemplateEngine::new(&templates).unwrap();
    let rendered = engine.render(record("x", 1, "y", 2, "z")).unwrap();
    assert_eq!(rendered, "plain text, nothing to fill in");
}

#[test]
fn empty_template_renders_empty() {
    let templates = store_with("");
    let engine = TemplateEngine::new(&templates).unwrap();
    assert_eq!(engine.render(record("x", 1, "y", 2, "z")).unwrap(), "");
}

#[test]
fn adjacent_placeholders_render_back_to_back() {
    let templates = store_with("{version}{hash}");
    let engine = TemplateEngine::new(&templates).unwrap();
    let rendered = engine.render(record("a", 1, "b", 2, "c")).unwrap();
    assert_eq!(rendered, "ab");
}

#[test]
fn unix_timestamp_counts_milliseconds_since_the_epoch() {
    assert_eq!(as_unix_ts_millis(SystemTime::UNIX_EPOCH).unwrap(), 0);
    let later = SystemTime::UNIX_EPOCH + Duration::from_millis(1500);
    assert_eq!(as_unix_ts_millis(later).unwrap(), 1500);
    let earlier = SystemTime::UNIX_EPOCH - Duration::from_secs(1);
    assert!(as_unix_ts_millis(earlier).is_err());
    assert!(as_unix_ts_millis(SystemTime::now()).unwrap() > 1700000000000);
}
