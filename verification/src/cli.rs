use vstd::prelude::*;

verus! {

/// The template to apply to a new file.
///
/// Each variant names one built-in file skeleton; `render_template` turns
/// a choice into its text.
#[derive(Clone, Copy, Debug, PartialEq, Eq, Structural)]
pub enum TemplateChoice {
    /// Plain text, no special formatting
    Plain,
    /// A minimal JSON object skeleton
    Json,
    /// A CSV file with a sample header row
    Csv,
    /// An .env file with commented example variables
    Env,
    /// A TOML file with one section and one key
    Toml,
}

/// The arguments of one run of the file generator, as plain values.
///
/// `name` is the file to create, `content` the literal text to write (it
/// overrides any template), `path` the directory that receives the file,
/// `template` an explicit template choice (it overrides extension
/// detection) and `list_templates` asks for the template listing instead
/// of creating a file, in which case `name` may be absent.
pub struct Cli {
    pub name: Option<String>,
    pub content: Option<String>,
    pub path: String,
    pub template: Option<TemplateChoice>,
    pub list_templates: bool,
}

} // verus!
