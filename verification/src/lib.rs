//! Content resolution for a small file generator: which text a new file
//! receives, given an optional literal content, an optional explicit
//! template and the file's name.
pub mod cli;
pub mod laws;
pub mod template;

pub use cli::{Cli, TemplateChoice};
pub use template::{
    detect_from_extension, list_all_templates, render_template, resolve_content, template_extension,
    template_name,
};
