//! Properties that hold across the functions of `template`.
use vstd::prelude::*;

use crate::cli::TemplateChoice;
use crate::template::{
    ascii_lower, ascii_lowercase, detected_template, extension_of, is_last_dot, resolved_text,
    template_extension_text, template_listing, template_text,
};

verus! {

/// Literal content always wins: whatever the name and the template, the
/// resolved text is the given content, unchanged.
pub proof fn explicit_content_wins(
    name: Seq<char>,
    content: Seq<char>,
    template: Option<TemplateChoice>,
)
    ensures
        resolved_text(name, Some(content), template) == content,
{
}

/// An explicit template overrides extension detection: without literal
/// content, the resolved text is the template's own text, whatever the
/// file is called.
pub proof fn explicit_template_ignores_name(name1: Seq<char>, name2: Seq<char>, choice: TemplateChoice)
    ensures
        resolved_text(name1, None, Some(choice)) == template_text(choice),
        resolved_text(name1, None, Some(choice)) == resolved_text(name2, None, Some(choice)),
{
}

proof fn lemma_ascii_lower_idempotent(c: char)
    ensures
        ascii_lower(ascii_lower(c)) == ascii_lower(c),
        (ascii_lower(c) == '.') == (c == '.'),
{
}

proof fn lemma_lowercase_idempotent(s: Seq<char>)
    ensures
        ascii_lowercase(ascii_lowercase(s)) == ascii_lowercase(s),
{
    assert forall|i: int| 0 <= i < s.len() implies ascii_lowercase(ascii_lowercase(s))[i]
        == ascii_lowercase(s)[i] by {
        lemma_ascii_lower_idempotent(s[i]);
    }
    assert(ascii_lowercase(ascii_lowercase(s)) =~= ascii_lowercase(s));
}

/// Extension detection does not depend on the case of ASCII letters: a
/// name and its lower-cased form select the same template.
pub proof fn detection_ignores_ascii_case(name: Seq<char>)
    ensures
        detected_template(ascii_lowercase(name)) == detected_template(name),
{
    let low = ascii_lowercase(name);
    assert forall|i: int| #[trigger] is_last_dot(low, i) == is_last_dot(name, i) by {
        if 0 <= i < name.len() {
            lemma_ascii_lower_idempotent(name[i]);
            assert forall|j: int| i < j < name.len() implies (low[j] != '.') == (name[j] != '.') by {
                lemma_ascii_lower_idempotent(name[j]);
            }
        }
    }
    if exists|i: int| is_last_dot(name, i) {
        let i = choose|i: int| is_last_dot(name, i);
        let k = choose|k: int| is_last_dot(low, k);
        assert(is_last_dot(low, i));
        assert(is_last_dot(low, k));
        if k < i {
            assert(low[i] != '.');
        } else if i < k {
            assert(low[k] != '.');
        }
        let ext = name.subrange(i + 1, name.len() as int);
        assert(low.subrange(i + 1, low.len() as int) =~= ascii_lowercase(ext));
        lemma_lowercase_idempotent(ext);
    }
}

/// Every template is detected from its own extension: a file called
/// `stem.<ext>`, where `<ext>` is the extension that goes with the
/// template, gets that template, whatever the stem.
pub proof fn own_extension_is_detected(stem: Seq<char>, choice: TemplateChoice)
    ensures
        detected_template(stem + "."@ + template_extension_text(choice)) == Some(choice),
{
    reveal_strlit(".");
    reveal_strlit("txt");
    reveal_strlit("json");
    reveal_strlit("csv");
    reveal_strlit("env");
    reveal_strlit("toml");
    reveal_strlit("text");
    reveal_strlit("md");
    let ext = template_extension_text(choice);
    let name = stem + "."@ + ext;
    let d = stem.len() as int;
    assert(name[d] == '.');
    assert(is_last_dot(name, d));
    let k = choose|k: int| is_last_dot(name, k);
    if k < d {
        assert(name[d] != '.');
    } else if d < k {
        assert(name[k] != '.');
    }
    assert(name.subrange(d + 1, name.len() as int) =~= ext);
    assert(extension_of(name) == Some(ext));
    assert(ascii_lowercase(ext) =~= ext);
    // The recognised extensions differ from one another in their length or
    // in their first character.
    assert("txt"@[0] != "json"@[0] && "txt"@[0] != "csv"@[0] && "txt"@[0] != "env"@[0]);
    assert("txt"@.len() != "toml"@.len());
    assert("json"@.len() != "csv"@.len());
    assert("toml"@[0] != "json"@[0] && "toml"@[0] != "csv"@[0] && "toml"@[0] != "env"@[0]);
    assert("env"@[0] != "json"@[0] && "env"@[0] != "csv"@[0]);
    assert("csv"@[0] != "json"@[0]);
}

/// Every template renders to non-empty text that ends with a newline.
pub proof fn rendered_text_ends_with_newline(choice: TemplateChoice)
    ensures
        template_text(choice).len() > 0,
        template_text(choice).last() == '\n',
{
    reveal_strlit("# New file\n");
    reveal_strlit("{\n  \"\": \"\"\n}\n");
    reveal_strlit("id,name,value\n1,example,0\n");
    reveal_strlit(
        "# Application environment variables\n# Copy this file to .env and fill in your values\n\nAPP_NAME=myapp\nAPP_ENV=development\n# SECRET_KEY=changeme\n",
    );
    reveal_strlit("[section]\nkey = \"value\"\n");
}

/// The resolved text is empty exactly when the given content is empty, or
/// when there is no content, no explicit template and no template for the
/// name's extension.
pub proof fn resolved_text_empty_iff(
    name: Seq<char>,
    content: Option<Seq<char>>,
    template: Option<TemplateChoice>,
)
    ensures
        (resolved_text(name, content, template).len() == 0) <==> (content == Some(Seq::<char>::empty())
            || (content is None && template is None && detected_template(name) is None)),
{
    if let Some(c) = template {
        rendered_text_ends_with_newline(c);
    }
    if let Some(c) = detected_template(name) {
        rendered_text_ends_with_newline(c);
    }
    if let Some(t) = content {
        if t.len() == 0 {
            assert(t =~= Seq::<char>::empty());
        }
    }
}

/// The template listing names every template exactly once, and the example
/// shown for each template other than `Env` is that template's full text.
/// (The `Env` example is an abbreviated form of its text.)
pub proof fn listing_covers_every_template(choice: TemplateChoice)
    ensures
        exists|i: int|
            0 <= i < template_listing().len() && (#[trigger] template_listing()[i]).0 == choice,
        forall|i: int, j: int|
            0 <= i < j < template_listing().len() ==> (#[trigger] template_listing()[i]).0
                != (#[trigger] template_listing()[j]).0,
        forall|i: int|
            0 <= i < template_listing().len() && (#[trigger] template_listing()[i]).0
                != TemplateChoice::Env ==> template_listing()[i].1 == template_text(
                template_listing()[i].0,
            ),
{
    let l = template_listing();
    match choice {
        TemplateChoice::Plain => assert(l[0].0 == choice),
        TemplateChoice::Json => assert(l[1].0 == choice),
        TemplateChoice::Csv => assert(l[2].0 == choice),
        TemplateChoice::Env => assert(l[3].0 == choice),
        TemplateChoice::Toml => assert(l[4].0 == choice),
    }
}

/// `ext` spells the word `lower` letter by letter, each letter written
/// either in its lower-case form (taken from `lower`) or in its upper-case
/// form (taken from `upper`).
pub open spec fn spelled_in_either_case(ext: Seq<char>, lower: Seq<char>, upper: Seq<char>) -> bool {
    &&& ext.len() == lower.len()
    &&& forall|i: int| 0 <= i < ext.len() ==> ext[i] == lower[i] || ext[i] == upper[i]
}

/// `upper` is `lower` with every letter capitalised.
spec fn capitalised(lower: Seq<char>, upper: Seq<char>) -> bool {
    &&& lower.len() == upper.len()
    &&& forall|i: int|
        0 <= i < lower.len() ==> 'a' <= lower[i] <= 'z' && (upper[i] as u32) + 32 == lower[i] as u32
}

proof fn lemma_lower_char_is(c: char, lo: char, up: char)
    requires
        'a' <= lo <= 'z',
        (up as u32) + 32 == lo as u32,
    ensures
        (ascii_lower(c) == lo) == (c == lo || c == up),
{
}

proof fn lemma_lowercase_is(ext: Seq<char>, lo: Seq<char>, up: Seq<char>)
    requires
        capitalised(lo, up),
    ensures
        (ascii_lowercase(ext) == lo) == spelled_in_either_case(ext, lo, up),
{
    if ext.len() == lo.len() {
        assert forall|i: int| 0 <= i < ext.len() implies (ascii_lowercase(ext)[i] == lo[i]) == (
        ext[i] == lo[i] || ext[i] == up[i]) by {
            lemma_lower_char_is(ext[i], lo[i], up[i]);
        }
        if spelled_in_either_case(ext, lo, up) {
            assert(ascii_lowercase(ext) =~= lo);
        }
        if ascii_lowercase(ext) == lo {
            assert forall|i: int| 0 <= i < ext.len() implies ext[i] == lo[i] || ext[i] == up[i] by {
                assert(ascii_lowercase(ext)[i] == lo[i]);
            }
        }
    } else {
        assert(ascii_lowercase(ext).len() != lo.len());
    }
}

proof fn lemma_extension_after_last_dot(stem: Seq<char>, ext: Seq<char>)
    requires
        forall|i: int| 0 <= i < ext.len() ==> ext[i] != '.',
    ensures
        extension_of(stem + "."@ + ext) == Some(ext),
{
    reveal_strlit(".");
    let name = stem + "."@ + ext;
    let d = stem.len() as int;
    assert(name[d] == '.');
    assert forall|j: int| d < j < name.len() implies name[j] != '.' by {
        assert(name[j] == ext[j - d - 1]);
    }
    assert(is_last_dot(name, d));
    let k = choose|k: int| is_last_dot(name, k);
    if k < d {
        assert(name[d] != '.');
    } else if d < k {
        assert(name[k] != '.');
    }
    assert(name.subrange(d + 1, name.len() as int) =~= ext);
}

/// A name without any `'.'` gets no template.
pub proof fn no_dot_no_template(name: Seq<char>)
    requires
        forall|i: int| 0 <= i < name.len() ==> name[i] != '.',
    ensures
        detected_template(name) is None,
{
    assert forall|k: int| !is_last_dot(name, k) by {
        if 0 <= k < name.len() {
            assert(name[k] != '.');
        }
    }
}

/// Which template a file `stem.ext` gets is decided by its extension
/// alone, letter by letter and in either case: `json`, `csv`, `env` and
/// `toml` select their own templates, `txt`, `text` and `md` select
/// `Plain`, and every other extension (`yaml`, `js`, `jso`, the empty
/// one, ...) selects no template at all.
pub proof fn detection_by_extension(stem: Seq<char>, ext: Seq<char>)
    requires
        forall|i: int| 0 <= i < ext.len() ==> ext[i] != '.',
    ensures
        (detected_template(stem + "."@ + ext) == Some(TemplateChoice::Json)) == spelled_in_either_case(
            ext,
            "json"@,
            "JSON"@,
        ),
        (detected_template(stem + "."@ + ext) == Some(TemplateChoice::Csv)) == spelled_in_either_case(
            ext,
            "csv"@,
            "CSV"@,
        ),
        (detected_template(stem + "."@ + ext) == Some(TemplateChoice::Env)) == spelled_in_either_case(
            ext,
            "env"@,
            "ENV"@,
        ),
        (detected_template(stem + "."@ + ext) == Some(TemplateChoice::Toml)) == spelled_in_either_case(
            ext,
            "toml"@,
            "TOML"@,
        ),
        (detected_template(stem + "."@ + ext) == Some(TemplateChoice::Plain)) == (
        spelled_in_either_case(ext, "txt"@, "TXT"@) || spelled_in_either_case(ext, "text"@, "TEXT"@)
            || spelled_in_either_case(ext, "md"@, "MD"@)),
        (detected_template(stem + "."@ + ext) is None) == !(spelled_in_either_case(
            ext,
            "json"@,
            "JSON"@,
        ) || spelled_in_either_case(ext, "csv"@, "CSV"@) || spelled_in_either_case(
            ext,
            "env"@,
            "ENV"@,
        ) || spelled_in_either_case(ext, "toml"@, "TOML"@) || spelled_in_either_case(
            ext,
            "txt"@,
            "TXT"@,
        ) || spelled_in_either_case(ext, "text"@, "TEXT"@) || spelled_in_either_case(
            ext,
            "md"@,
            "MD"@,
        )),
{
    reveal_strlit("json");
    reveal_strlit("JSON");
    reveal_strlit("csv");
    reveal_strlit("CSV");
    reveal_strlit("env");
    reveal_strlit("ENV");
    reveal_strlit("toml");
    reveal_strlit("TOML");
    reveal_strlit("txt");
    reveal_strlit("TXT");
    reveal_strlit("text");
    reveal_strlit("TEXT");
    reveal_strlit("md");
    reveal_strlit("MD");
    lemma_extension_after_last_dot(stem, ext);
    assert(capitalised("json"@, "JSON"@));
    assert(capitalised("csv"@, "CSV"@));
    assert(capitalised("env"@, "ENV"@));
    assert(capitalised("toml"@, "TOML"@));
    assert(capitalised("txt"@, "TXT"@));
    assert(capitalised("text"@, "TEXT"@));
    assert(capitalised("md"@, "MD"@));
    lemma_lowercase_is(ext, "json"@, "JSON"@);
    lemma_lowercase_is(ext, "csv"@, "CSV"@);
    lemma_lowercase_is(ext, "env"@, "ENV"@);
    lemma_lowercase_is(ext, "toml"@, "TOML"@);
    lemma_lowercase_is(ext, "txt"@, "TXT"@);
    lemma_lowercase_is(ext, "text"@, "TEXT"@);
    lemma_lowercase_is(ext, "md"@, "MD"@);
    // The recognised extensions differ from one another in their length or
    // in their first character.
    assert("env"@[0] != "json"@[0] && "env"@[0] != "csv"@[0]);
    assert("csv"@[0] != "json"@[0]);
    assert("toml"@[0] != "json"@[0] && "toml"@[0] != "csv"@[0] && "toml"@[0] != "env"@[0]);
    assert("txt"@[0] != "json"@[0] && "txt"@[0] != "csv"@[0] && "txt"@[0] != "env"@[0]);
    assert("txt"@.len() != "toml"@.len());
    assert("text"@[1] != "toml"@[1] && "text"@[0] != "json"@[0] && "text"@.len() != "csv"@.len());
    assert("md"@.len() != "json"@.len() && "md"@.len() != "csv"@.len() && "md"@.len() != "env"@.len());
    assert("md"@.len() != "toml"@.len());
}

/// Without content or an explicit template, a file gets exactly the text
/// of the template detected from its name, the same text as when that
/// template is chosen explicitly, and nothing when none is detected.
pub proof fn fallback_renders_detected_template(name: Seq<char>)
    ensures
        detected_template(name) matches Some(c) ==> resolved_text(name, None, None) == template_text(c)
            && resolved_text(name, None, None) == resolved_text(name, None, Some(c)),
        detected_template(name) is None ==> resolved_text(name, None, None) == Seq::<char>::empty(),
{
}

} // verus!
