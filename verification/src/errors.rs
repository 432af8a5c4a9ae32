use vstd::prelude::*;
use vstd::string::StringExecFns;

verus! {

/// Everything that can stop a run of the tool, or one step of it.
///
/// Every variant except a spawned command's own non-zero exit status is fatal
/// to the whole run: the caller stops at the first one it sees.
#[derive(Debug)]
pub enum ToolError {
    /// The configuration file is absent or unreadable.
    ConfigNotFound,
    /// The configuration text is not a table of well-formed variant records.
    ConfigMalformed,
    /// A template file with the given logical name is missing or unreadable.
    TemplateNotFound(String),
    /// The template engine rejected the template with the given logical name.
    TemplateSyntax(String),
    /// The engine could not render the given template for the given variant.
    RenderFailed { key: String, file: String },
    /// An output directory or file could not be created or written.
    RenderIo(String),
    /// The external command could not be started at all.
    ProcessSpawn(String),
}

impl ToolError {
    /// A human-readable one-line description, for diagnostics.
    pub fn describe(&self) -> (r: String)
        ensures
            match self {
                ToolError::ConfigNotFound => r@ == "cannot read data.toml"@,
                ToolError::ConfigMalformed => r@ == "data.toml is not a valid variant table"@,
                ToolError::TemplateNotFound(n) => r@ == "cannot read template "@ + n@,
                ToolError::TemplateSyntax(n) => r@ == "template rejected: "@ + n@,
                ToolError::RenderFailed { key, file } => r@ == "cannot render "@ + file@
                    + " for "@ + key@,
                ToolError::RenderIo(p) => r@ == "cannot write "@ + p@,
                ToolError::ProcessSpawn(c) => r@ == "cannot start "@ + c@,
            },
    {
        match self {
            ToolError::ConfigNotFound => String::from_str("cannot read data.toml"),
            ToolError::ConfigMalformed => String::from_str("data.toml is not a valid variant table"),
            ToolError::TemplateNotFound(n) => String::from_str("cannot read template ").concat(
                n.as_str(),
            ),
            ToolError::TemplateSyntax(n) => String::from_str("template rejected: ").concat(
                n.as_str(),
            ),
            ToolError::RenderFailed { key, file } => String::from_str("cannot render ").concat(
                file.as_str(),
            ).concat(" for ").concat(key.as_str()),
            ToolError::RenderIo(p) => String::from_str("cannot write ").concat(p.as_str()),
            ToolError::ProcessSpawn(c) => String::from_str("cannot start ").concat(c.as_str()),
        }
    }
}

} // verus!
