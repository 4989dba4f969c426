use fgen::{detect_from_extension, render_template, resolve_content, TemplateChoice};

#[test]
fn detect_json_extension() {
    let result = detect_from_extension("config.json");
    assert!(matches!(result, Some(TemplateChoice::Json)));
}

#[test]
fn detect_toml_extension() {
    let result = detect_from_extension("config.toml");
    assert!(matches!(result, Some(TemplateChoice::Toml)));
}

#[test]
fn render_toml_template() {
    let content = render_template(TemplateChoice::Toml);
    assert!(content.contains("[section]"));
    assert!(content.contains("key = \"value\""));
}

#[test]
fn detect_env_extension() {
    let result = detect_from_extension(".env");
    assert!(matches!(result, Some(TemplateChoice::Env)));
}

#[test]
fn unknown_extension_returns_none() {
    let result = detect_from_extension("archive.zip");
    assert!(result.is_none());
}

#[test]
fn no_extension_returns_none() {
    let result = detect_from_extension("Makefile");
    assert!(result.is_none());
}

#[test]
fn explicit_content_wins_over_template() {
    let content = resolve_content(
        "data.json",
        Some("custom content".to_string()),
        Some(TemplateChoice::Json),
    );
    assert_eq!(content, "custom content");
}

#[test]
fn explicit_template_wins_over_extension() {
    let content = resolve_content(".env", None, Some(TemplateChoice::Csv));
    assert!(content.contains("id,name,value"));
}

#[test]
fn extension_detection_fallback() {
    let content = resolve_content("report.csv", None, None);
    assert!(content.contains("id,name,value"));
}

#[test]
fn empty_for_unknown_extension() {
    let content = resolve_content("archive.zip", None, None);
    assert_eq!(content, "");
}
