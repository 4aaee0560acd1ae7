//! Settings read from `config.toml`, and where that file is looked for.

use vstd::prelude::*;
use crate::text::concat_str;

verus! {

/// The application settings, as the TOML file holds them.
#[derive(Debug, Clone)]
pub struct AppConfig {
    pub vault_path: String,
    pub deepgram_api_key: String,
    pub language: String,
    pub model_stt: String,
    /// Endpoint of the local OpenAI-compatible proxy (no API key in the app).
    pub llm_proxy_url: String,
    pub llm_model: String,
    pub llm_timeout_secs: Option<u64>,
    pub note_subfolder: Option<String>,
}

/// File looked for first, relative to the working directory.
pub const CONFIG_FILE: &'static str = "config.toml";

/// File looked for when the first is absent (working directory is `src-tauri`).
pub const PARENT_CONFIG_FILE: &'static str = "../config.toml";

/// Which file to read: the one in the working directory if it exists, else the
/// one in the parent directory if that exists, else none.
pub open spec fn spec_config_path(in_cwd: bool, in_parent: bool) -> Option<Seq<char>> {
    if in_cwd {
        Some(CONFIG_FILE@)
    } else if in_parent {
        Some(PARENT_CONFIG_FILE@)
    } else {
        None
    }
}

/// Chooses the configuration file from which of the two candidates exist.
/// `None` means neither exists, which the loader reports as an error.
pub fn select_config_path(in_cwd: bool, in_parent: bool) -> (path: Option<String>)
    ensures
        path matches Some(p) ==> spec_config_path(in_cwd, in_parent) == Some(p@),
        path is None <==> spec_config_path(in_cwd, in_parent) is None,
{
    if in_cwd {
        Some(String::from_str(CONFIG_FILE))
    } else if in_parent {
        Some(String::from_str(PARENT_CONFIG_FILE))
    } else {
        None
    }
}

/// Start of the error when neither file exists.
pub const MISSING_CONFIG_START: &'static str = "No se encontró config.toml en ";

/// Between the looked-for path and the working directory in that error.
pub const MISSING_CONFIG_MIDDLE: &'static str = " ni en el directorio superior. CWD: ";

/// The error when neither file exists, from the debug renderings of the path
/// looked for in the working directory and of the working directory.
pub fn missing_config_message(looked_for: &str, cwd: &str) -> (m: String)
    ensures
        m@ == MISSING_CONFIG_START@ + looked_for@ + MISSING_CONFIG_MIDDLE@ + cwd@,
{
    let mut m = concat_str(MISSING_CONFIG_START, looked_for);
    m.append(MISSING_CONFIG_MIDDLE);
    m.append(cwd);
    m
}

} // verus!
