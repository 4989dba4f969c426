use fgen::{
    detect_from_extension, list_all_templates, render_template, resolve_content,
    template_extension, template_name, TemplateChoice,
};

const ALL: [TemplateChoice; 5] = [
    TemplateChoice::Plain,
    TemplateChoice::Json,
    TemplateChoice::Csv,
    TemplateChoice::Env,
    TemplateChoice::Toml,
];

#[test]
fn rendered_texts_are_exact() {
    assert_eq!(render_template(TemplateChoice::Plain), "# New file\n");
    assert_eq!(render_template(TemplateChoice::Json), "{\n  \"\": \"\"\n}\n");
    assert_eq!(render_template(TemplateChoice::Csv), "id,name,value\n1,example,0\n");
    assert_eq!(
        render_template(TemplateChoice::Env),
        "# Application environment variables\n# Copy this file to .env and fill in your values\n\nAPP_NAME=myapp\nAPP_ENV=development\n# SECRET_KEY=changeme\n"
    );
    assert_eq!(render_template(TemplateChoice::Toml), "[section]\nkey = \"value\"\n");
}

#[test]
fn every_rendered_text_ends_with_newline() {
    for choice in ALL {
        let text = render_template(choice);
        assert!(!text.is_empty());
        assert!(text.ends_with('\n'));
    }
}

#[test]
fn content_wins_even_when_empty() {
    assert_eq!(resolve_content("x.json", Some(String::new()), Some(TemplateChoice::Env)), "");
    assert_eq!(resolve_content("x.json", Some("abc".to_string()), None), "abc");
}

#[test]
fn explicit_template_does_not_depend_on_name() {
    let a = resolve_content("a.json", None, Some(TemplateChoice::Toml));
    let b = resolve_content("Makefile", None, Some(TemplateChoice::Toml));
    assert_eq!(a, b);
    assert_eq!(a, render_template(TemplateChoice::Toml));
}

#[test]
fn detection_ignores_ascii_case() {
    assert_eq!(detect_from_extension("CONFIG.JSON"), Some(TemplateChoice::Json));
    assert_eq!(detect_from_extension("Notes.Md"), Some(TemplateChoice::Plain));
    assert_eq!(detect_from_extension("data.CsV"), detect_from_extension("data.csv"));
    assert_eq!(resolve_content("SETTINGS.TOML", None, None), render_template(TemplateChoice::Toml));
}

#[test]
fn plain_extensions() {
    assert_eq!(detect_from_extension("a.txt"), Some(TemplateChoice::Plain));
    assert_eq!(detect_from_extension("a.text"), Some(TemplateChoice::Plain));
    assert_eq!(detect_from_extension("README.md"), Some(TemplateChoice::Plain));
    assert_eq!(detect_from_extension("résumé.md"), Some(TemplateChoice::Plain));
}

#[test]
fn only_the_last_extension_counts() {
    assert_eq!(detect_from_extension("archive.tar.gz"), None);
    assert_eq!(detect_from_extension("data.json.bak"), None);
    assert_eq!(detect_from_extension("backup.zip.json"), Some(TemplateChoice::Json));
    assert_eq!(detect_from_extension("notes."), None);
    assert_eq!(detect_from_extension(""), None);
    assert_eq!(detect_from_extension("."), None);
    assert_eq!(detect_from_extension("jsonjson"), None);
}

#[test]
fn each_template_detected_from_own_extension() {
    for choice in ALL {
        let name = format!("stem.{}", template_extension(choice));
        assert_eq!(detect_from_extension(&name), Some(choice));
        let bare = format!(".{}", template_extension(choice));
        assert_eq!(detect_from_extension(&bare), Some(choice));
    }
}

#[test]
fn empty_only_when_nothing_applies() {
    assert_eq!(resolve_content("archive.zip", None, None), "");
    assert_eq!(resolve_content("Makefile", None, None), "");
    assert_ne!(resolve_content("Makefile", None, Some(TemplateChoice::Plain)), "");
    assert_ne!(resolve_content("x.md", None, None), "");
}

#[test]
fn listing_covers_every_template_once() {
    let listing = list_all_templates();
    assert_eq!(listing.len(), 5);
    for (i, choice) in ALL.iter().enumerate() {
        assert_eq!(listing[i].0, *choice);
    }
    for (choice, example) in &listing {
        if *choice != TemplateChoice::Env {
            assert_eq!(*example, render_template(*choice));
        }
    }
    assert_eq!(listing[3].1, "# APP_NAME=myapp\nAPP_ENV=development\n");
}

#[test]
fn template_names_and_extensions() {
    let names: Vec<&str> = ALL.iter().map(|c| template_name(*c)).collect();
    assert_eq!(names, vec!["plain", "json", "csv", "env", "toml"]);
    let exts: Vec<&str> = ALL.iter().map(|c| template_extension(*c)).collect();
    assert_eq!(exts, vec!["txt", "json", "csv", "env", "toml"]);
}
