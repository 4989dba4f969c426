use vstd::prelude::*;

use crate::cli::TemplateChoice;

verus! {

// ─── Mathematical model ─────────────────────────────────────────────────────

/// Lower-cases one ASCII letter and leaves every other character as it is.
pub open spec fn ascii_lower(c: char) -> char {
    if 'A' <= c && c <= 'Z' {
        ((c as u32) + 32) as char
    } else {
        c
    }
}

/// Lower-cases every ASCII letter of `s`.
pub open spec fn ascii_lowercase(s: Seq<char>) -> Seq<char> {
    s.map_values(|c: char| ascii_lower(c))
}

/// `i` is the position of the last `'.'` in `name`.
pub open spec fn is_last_dot(name: Seq<char>, i: int) -> bool {
    &&& 0 <= i < name.len()
    &&& name[i] == '.'
    &&& forall|j: int| i < j < name.len() ==> name[j] != '.'
}

/// The extension of a file name: the text after its last `'.'`, or `None`
/// when the name has no `'.'` at all.  (`".env"` has the extension `"env"`,
/// `"archive.tar.gz"` has `"gz"`, `"notes."` has the empty extension.)
pub open spec fn extension_of(name: Seq<char>) -> Option<Seq<char>> {
    if exists|i: int| is_last_dot(name, i) {
        let i = choose|i: int| is_last_dot(name, i);
        Some(name.subrange(i + 1, name.len() as int))
    } else {
        None
    }
}

/// The template that a lower-case extension stands for, if any.
pub open spec fn template_for_extension(ext: Seq<char>) -> Option<TemplateChoice> {
    if ext == "json"@ {
        Some(TemplateChoice::Json)
    } else if ext == "csv"@ {
        Some(TemplateChoice::Csv)
    } else if ext == "env"@ {
        Some(TemplateChoice::Env)
    } else if ext == "toml"@ {
        Some(TemplateChoice::Toml)
    } else if ext == "txt"@ || ext == "text"@ || ext == "md"@ {
        Some(TemplateChoice::Plain)
    } else {
        None
    }
}

/// The template detected from a file name: the one its extension, compared
/// without regard to ASCII case, stands for.
pub open spec fn detected_template(name: Seq<char>) -> Option<TemplateChoice> {
    match extension_of(name) {
        Some(ext) => template_for_extension(ascii_lowercase(ext)),
        None => None,
    }
}


/// The text of each built-in template.
pub open spec fn template_text(choice: TemplateChoice) -> Seq<char> {
    match choice {
        TemplateChoice::Plain => "# New file\n"@,
        TemplateChoice::Json => "{\n  \"\": \"\"\n}\n"@,
        TemplateChoice::Csv => "id,name,value\n1,example,0\n"@,
        TemplateChoice::Env => "# Application environment variables\n# Copy this file to .env and fill in your values\n\nAPP_NAME=myapp\nAPP_ENV=development\n# SECRET_KEY=changeme\n"@,
        TemplateChoice::Toml => "[section]\nkey = \"value\"\n"@,
    }
}

/// The text a new file receives.  Priority: literal `content`, then an
/// explicit `template`, then the template detected from `name`'s
/// extension, and otherwise nothing.
pub open spec fn resolved_text(
    name: Seq<char>,
    content: Option<Seq<char>>,
    template: Option<TemplateChoice>,
) -> Seq<char> {
    match content {
        Some(text) => text,
        None => match template {
            Some(choice) => template_text(choice),
            None => match detected_template(name) {
                Some(choice) => template_text(choice),
                None => Seq::empty(),
            },
        },
    }
}

/// The extension under which each template is listed and detected.
pub open spec fn template_extension_text(choice: TemplateChoice) -> Seq<char> {
    match choice {
        TemplateChoice::Plain => "txt"@,
        TemplateChoice::Json => "json"@,
        TemplateChoice::Csv => "csv"@,
        TemplateChoice::Env => "env"@,
        TemplateChoice::Toml => "toml"@,
    }
}

/// The lower-case name by which each template is shown in the listing.
pub open spec fn template_name_text(choice: TemplateChoice) -> Seq<char> {
    match choice {
        TemplateChoice::Plain => "plain"@,
        TemplateChoice::Json => "json"@,
        TemplateChoice::Csv => "csv"@,
        TemplateChoice::Env => "env"@,
        TemplateChoice::Toml => "toml"@,
    }
}

/// The template listing: every template with a short example of its text.
pub open spec fn template_listing() -> Seq<(TemplateChoice, Seq<char>)> {
    seq![
        (TemplateChoice::Plain, "# New file\n"@),
        (TemplateChoice::Json, "{\n  \"\": \"\"\n}\n"@),
        (TemplateChoice::Csv, "id,name,value\n1,example,0\n"@),
        (TemplateChoice::Env, "# APP_NAME=myapp\nAPP_ENV=development\n"@),
        (TemplateChoice::Toml, "[section]\nkey = \"value\"\n"@),
    ]
}

/// Two positions that are both the last `'.'` of a name are the same.
proof fn lemma_last_dot_unique(name: Seq<char>, i: int, j: int)
    requires
        is_last_dot(name, i),
        is_last_dot(name, j),
    ensures
        i == j,
{
    if i < j {
        assert(name[j] != '.');
    } else if j < i {
        assert(name[i] != '.');
    }
}

// ─── Executable code ────────────────────────────────────────────────────────

fn lower_char(c: char) -> (r: char)
    ensures
        r == ascii_lower(c),
{
    if 'A' <= c && c <= 'Z' {
        ((c as u8) + 32) as char
    } else {
        c
    }
}

/// The position of the last `'.'` in `name`, counted in characters.
fn find_last_dot(name: &str) -> (r: Option<usize>)
    ensures
        match r {
            Some(i) => is_last_dot(name@, i as int),
            None => !exists|i: int| is_last_dot(name@, i),
        },
{
    let n = name.unicode_len();
    let mut i = n;
    while i > 0
        invariant
            n == name@.len(),
            i <= n,
            forall|j: int| i <= j < n ==> name@[j] != '.',
        decreases i,
    {
        if name.get_char(i - 1) == '.' {
            return Some(i - 1);
        }
        i = i - 1;
    }
    assert forall|k: int| !is_last_dot(name@, k) by {
        if 0 <= k < n {
            assert(name@[k] != '.');
        }
    }
    None
}

/// Whether `text`, with its ASCII letters lower-cased, equals `target`.
fn equals_ascii_lowercased(text: &str, target: &str) -> (b: bool)
    ensures
        b == (ascii_lowercase(text@) == target@),
{
    let n = text.unicode_len();
    let m = target.unicode_len();
    if n != m {
        assert(ascii_lowercase(text@).len() != target@.len());
        return false;
    }
    let mut k: usize = 0;
    while k < n
        invariant
            n == text@.len(),
            m == target@.len(),
            n == m,
            k <= n,
            forall|j: int| 0 <= j < k ==> ascii_lower(text@[j]) == target@[j],
        decreases n - k,
    {
        if lower_char(text.get_char(k)) != target.get_char(k) {
            assert(ascii_lowercase(text@)[k as int] != target@[k as int]);
            return false;
        }
        k = k + 1;
    }
    assert(ascii_lowercase(text@) =~= target@);
    true
}

/// Detects a template from the extension of the file name `name`.
///
/// The extension is the text after the last `'.'`; a name without `'.'`
/// has none, and `".env"` has the extension `"env"`.  It is compared
/// without regard to case: `json`, `csv`, `env` and `toml` select their
/// own templates, `txt`, `text` and `md` select `Plain`, and every other
/// extension selects nothing.  ASCII case folding suffices here: no other
/// character lower-cases to a single letter of those extensions.
pub fn detect_from_extension(name: &str) -> (r: Option<TemplateChoice>)
    ensures
        r == detected_template(name@),
{
    match find_last_dot(name) {
        None => None,
        Some(i) => {
            proof {
                let k = choose|k: int| is_last_dot(name@, k);
                lemma_last_dot_unique(name@, i as int, k);
            }
            let n = name.unicode_len();
            let ext = name.substring_char(i + 1, n);
            if equals_ascii_lowercased(ext, "json") {
                Some(TemplateChoice::Json)
            } else if equals_ascii_lowercased(ext, "csv") {
                Some(TemplateChoice::Csv)
            } else if equals_ascii_lowercased(ext, "env") {
                Some(TemplateChoice::Env)
            } else if equals_ascii_lowercased(ext, "toml") {
                Some(TemplateChoice::Toml)
            } else if equals_ascii_lowercased(ext, "txt") || equals_ascii_lowercased(ext, "text")
                || equals_ascii_lowercased(ext, "md") {
                Some(TemplateChoice::Plain)
            } else {
                None
            }
        },
    }
}

/// Resolves what content to write into the file `name`.
///
/// Priority order: literal `content` is returned verbatim; otherwise an
/// explicit `template` is rendered; otherwise the template detected from
/// the file's extension is rendered; otherwise the result is empty.
pub fn resolve_content(name: &str, content: Option<String>, template: Option<TemplateChoice>) -> (r:
    String)
    ensures
        r@ == resolved_text(name@, content.deep_view(), template),
{
    if let Some(text) = content {
        return text;
    }
    if let Some(choice) = template {
        return render_template(choice);
    }
    if let Some(detected) = detect_from_extension(name) {
        return render_template(detected);
    }
    String::new()
}

/// Turns a template choice into its file content.
pub fn render_template(choice: TemplateChoice) -> (r: String)
    ensures
        r@ == template_text(choice),
{
    match choice {
        TemplateChoice::Plain => String::from_str("# New file\n"),
        TemplateChoice::Json => String::from_str("{\n  \"\": \"\"\n}\n"),
        TemplateChoice::Csv => String::from_str("id,name,value\n1,example,0\n"),
        TemplateChoice::Env => String::from_str(
            "# Application environment variables\n# Copy this file to .env and fill in your values\n\nAPP_NAME=myapp\nAPP_ENV=development\n# SECRET_KEY=changeme\n",
        ),
        TemplateChoice::Toml => String::from_str("[section]\nkey = \"value\"\n"),
    }
}

/// Lists every template with a short example of its text, in the order
/// `Plain`, `Json`, `Csv`, `Env`, `Toml`.
pub fn list_all_templates() -> (r: Vec<(TemplateChoice, &'static str)>)
    ensures
        r@.len() == template_listing().len(),
        forall|i: int|
            0 <= i < r@.len() ==> (#[trigger] r@[i]).0 == template_listing()[i].0 && r@[i].1@
                == template_listing()[i].1,
{
    vec![
        (TemplateChoice::Plain, "# New file\n"),
        (TemplateChoice::Json, "{\n  \"\": \"\"\n}\n"),
        (TemplateChoice::Csv, "id,name,value\n1,example,0\n"),
        (TemplateChoice::Env, "# APP_NAME=myapp\nAPP_ENV=development\n"),
        (TemplateChoice::Toml, "[section]\nkey = \"value\"\n"),
    ]
}

/// The file extension that goes with a template (`Plain` goes with `txt`).
pub fn template_extension(choice: TemplateChoice) -> (r: &'static str)
    ensures
        r@ == template_extension_text(choice),
{
    match choice {
        TemplateChoice::Plain => "txt",
        TemplateChoice::Json => "json",
        TemplateChoice::Csv => "csv",
        TemplateChoice::Env => "env",
        TemplateChoice::Toml => "toml",
    }
}

/// The lower-case name under which a template is shown.
pub fn template_name(choice: TemplateChoice) -> (r: &'static str)
    ensures
        r@ == template_name_text(choice),
{
    match choice {
        TemplateChoice::Plain => "plain",
        TemplateChoice::Json => "json",
        TemplateChoice::Csv => "csv",
        TemplateChoice::Env => "env",
        TemplateChoice::Toml => "toml",
    }
}

} // verus!
