//! The user's configuration: which editor to run and which model to ask.

use crate::error::{
    text_outcome, SmartCommitterError, SmartCommitterErrorKind, SmartCommitterErrorView,
};
use crate::outcome::{make_path_error, path_error, FileWrite};
use crate::text::{optional_text, texts};
use vstd::prelude::*;
use vstd::string::*;

verus! {

/// The editor that is run on the commit-message file.
#[derive(Debug, Clone, PartialEq, Eq)]
pub struct EditorConfig {
    /// The command line of the editor: the program, then its arguments.
    pub command: String,
}

/// The chat endpoint that drafts the message.
#[derive(Debug, Clone, PartialEq, Eq)]
pub struct LLMConfig {
    /// Base URL of the server.
    pub base_url: String,
    /// Name of the model.
    pub model: String,
    /// Bearer token for the server, where it asks for one.
    pub auth_token: Option<String>,
}

/// The whole configuration.
#[derive(Debug, Clone, PartialEq, Eq)]
pub struct UserConfig {
    pub editor: EditorConfig,
    pub llm: LLMConfig,
}

pub struct EditorConfigView {
    pub command: Seq<char>,
}

pub struct LLMConfigView {
    pub base_url: Seq<char>,
    pub model: Seq<char>,
    pub auth_token: Option<Seq<char>>,
}

pub struct UserConfigView {
    pub editor: EditorConfigView,
    pub llm: LLMConfigView,
}

impl View for EditorConfig {
    type V = EditorConfigView;

    open spec fn view(&self) -> EditorConfigView {
        EditorConfigView { command: self.command@ }
    }
}

impl View for LLMConfig {
    type V = LLMConfigView;

    open spec fn view(&self) -> LLMConfigView {
        LLMConfigView {
            base_url: self.base_url@,
            model: self.model@,
            auth_token: optional_text(self.auth_token),
        }
    }
}

impl View for UserConfig {
    type V = UserConfigView;

    open spec fn view(&self) -> UserConfigView {
        UserConfigView { editor: self.editor@, llm: self.llm@ }
    }
}

/// The editor of a new configuration.
pub const TEMPLATE_EDITOR: &'static str = "nano";

/// The server of a new configuration.
pub const TEMPLATE_BASE_URL: &'static str = "https://api.openai.com/v1";

/// The model of a new configuration.
pub const TEMPLATE_MODEL: &'static str = "gpt-4.1";

/// What stands in a new configuration in the place of the token.
pub const TEMPLATE_AUTH_TOKEN: &'static str = "<AUTH TOKEN HERE>";

/// The directory of configurations below the home directory.
pub const CONFIG_HOME: &'static str = ".config";

/// The directory of this program's configuration in it.
pub const CONFIG_DIRECTORY: &'static str = "smart-committer";

/// The name of the configuration file.
pub const CONFIG_FILE: &'static str = "config.toml";

/// The message of the error for a user without a home directory.
pub const NO_HOME: &'static str = "Home directory not found";

/// The words before the path in the message of each error about the
/// configuration file or its directory.
pub const DIRECTORY_FAILED: &'static str = "Failed to create config directory: ";

pub const OPEN_FAILED: &'static str = "Not able to open the config file: ";

pub const READ_FAILED: &'static str = "Failed to read the config file: ";

pub const PARSE_FAILED: &'static str = "Failed to parse the config file: ";

pub const CREATE_FAILED: &'static str = "Failed to create the config file: ";

pub const WRITE_FAILED: &'static str = "Failed to write the config file: ";

/// What became of the attempt to find the place of the configuration file.
#[derive(Debug, Clone, PartialEq, Eq)]
pub enum ConfigPath {
    /// The user has no home directory.
    NoHome,
    /// The directory of the file was missing and could not be made.
    DirectoryFailed { directory: String, cause: String },
    /// The directory is there; `file` is the path of the file in it.
    Ready { file: String },
}

/// What became of the attempt to read the configuration file.
#[derive(Debug, Clone, PartialEq, Eq)]
pub enum ConfigLoad {
    /// There is no such file.
    Missing,
    /// The file is there and could not be opened.
    OpenFailed { cause: String },
    /// The file was opened and could not be read.
    ReadFailed { cause: String },
    /// The file was read and does not hold a configuration.
    ParseFailed { cause: String },
    /// The file holds this configuration.
    Parsed { config: UserConfig },
}

/// The directories below the home directory that lead to the configuration
/// file, outermost first.
pub open spec fn config_directories() -> Seq<Seq<char>> {
    seq![CONFIG_HOME@, CONFIG_DIRECTORY@]
}

/// The name of the configuration file.
pub open spec fn config_file_name() -> Seq<char> {
    CONFIG_FILE@
}

/// The configuration that a new file is filled with.
pub open spec fn template() -> UserConfigView {
    UserConfigView {
        editor: EditorConfigView { command: TEMPLATE_EDITOR@ },
        llm: LLMConfigView {
            base_url: TEMPLATE_BASE_URL@,
            model: TEMPLATE_MODEL@,
            auth_token: Some(TEMPLATE_AUTH_TOKEN@),
        },
    }
}

/// A configuration, none, or an error, as plain text.
pub open spec fn config_outcome(r: Result<Option<UserConfig>, SmartCommitterError>) -> Result<
    Option<UserConfigView>,
    SmartCommitterErrorView,
> {
    match r {
        Ok(Some(config)) => Ok(Some(config@)),
        Ok(None) => Ok(None),
        Err(e) => Err(e@),
    }
}

/// The result of locating the configuration file.
pub open spec fn config_file_path(found: ConfigPath) -> Result<
    Seq<char>,
    SmartCommitterErrorView,
> {
    match found {
        ConfigPath::NoHome => Err(
            SmartCommitterErrorView {
                source: None,
                kind: SmartCommitterErrorKind::IOError,
                message: NO_HOME@,
            },
        ),
        ConfigPath::DirectoryFailed { directory, cause } => Err(
            path_error(DIRECTORY_FAILED@, directory@, cause@),
        ),
        ConfigPath::Ready { file } => Ok(file@),
    }
}

/// The result of loading the configuration from the file at `path`.
pub open spec fn loaded_config(path: Seq<char>, load: ConfigLoad) -> Result<
    Option<UserConfigView>,
    SmartCommitterErrorView,
> {
    match load {
        ConfigLoad::Missing => Ok(None),
        ConfigLoad::OpenFailed { cause } => Err(
            path_error(OPEN_FAILED@, path, cause@),
        ),
        ConfigLoad::ReadFailed { cause } => Err(
            path_error(READ_FAILED@, path, cause@),
        ),
        ConfigLoad::ParseFailed { cause } => Err(
            path_error(PARSE_FAILED@, path, cause@),
        ),
        ConfigLoad::Parsed { config } => Ok(Some(config@)),
    }
}

/// The result of writing the template to the file at `path`.
pub open spec fn written_template(path: Seq<char>, write: FileWrite) -> Result<
    Seq<char>,
    SmartCommitterErrorView,
> {
    match write {
        FileWrite::CreateFailed { cause } => Err(
            path_error(CREATE_FAILED@, path, cause@),
        ),
        FileWrite::WriteFailed { cause } => Err(
            path_error(WRITE_FAILED@, path, cause@),
        ),
        FileWrite::Written => Ok(path),
    }
}

impl UserConfig {
    /// The directories below the home directory that lead to the
    /// configuration file, outermost first, and then the file's name.
    pub fn config_location() -> (location: (Vec<String>, String))
        ensures
            texts(location.0@) == config_directories(),
            location.1@ == config_file_name(),
    {
        let mut directories: Vec<String> = Vec::new();
        directories.push(CONFIG_HOME.to_owned());
        directories.push(CONFIG_DIRECTORY.to_owned());
        assert(texts(directories@) =~= config_directories());
        (directories, CONFIG_FILE.to_owned())
    }

    /// The path of the configuration file, once its directory was looked
    /// for and made where it was missing; the error where that failed.
    pub fn get_config_file_path(found: ConfigPath) -> (r: Result<String, SmartCommitterError>)
        ensures
            text_outcome(r) == config_file_path(found),
    {
        match found {
            ConfigPath::NoHome => Err(
                SmartCommitterError::new(
                    SmartCommitterErrorKind::IOError,
                    NO_HOME.to_owned(),
                    None,
                ),
            ),
            ConfigPath::DirectoryFailed { directory, cause } => Err(
                make_path_error(DIRECTORY_FAILED, directory.as_str(), cause),
            ),
            ConfigPath::Ready { file } => Ok(file),
        }
    }

    /// The configuration in the file at `path`, `None` where there is no
    /// such file, and the error where the file could not be used.
    pub fn load_user_config(path: &str, load: ConfigLoad) -> (r: Result<
        Option<UserConfig>,
        SmartCommitterError,
    >)
        ensures
            config_outcome(r) == loaded_config(path@, load),
    {
        match load {
            ConfigLoad::Missing => Ok(None),
            ConfigLoad::OpenFailed { cause } => Err(
                make_path_error(OPEN_FAILED, path, cause),
            ),
            ConfigLoad::ReadFailed { cause } => Err(
                make_path_error(READ_FAILED, path, cause),
            ),
            ConfigLoad::ParseFailed { cause } => Err(
                make_path_error(PARSE_FAILED, path, cause),
            ),
            ConfigLoad::Parsed { config } => Ok(Some(config)),
        }
    }

    /// The configuration that a new configuration file is filled with.
    pub fn create_user_config_template() -> (config: UserConfig)
        ensures
            config@ == template(),
    {
        UserConfig {
            editor: EditorConfig { command: TEMPLATE_EDITOR.to_owned() },
            llm: LLMConfig {
                base_url: TEMPLATE_BASE_URL.to_owned(),
                model: TEMPLATE_MODEL.to_owned(),
                auth_token: Some(TEMPLATE_AUTH_TOKEN.to_owned()),
            },
        }
    }

    /// The path of the new configuration file once the template was written
    /// to it, and the error where it could not be written.
    pub fn template_written(path: String, write: FileWrite) -> (r: Result<
        String,
        SmartCommitterError,
    >)
        ensures
            text_outcome(r) == written_template(path@, write),
    {
        match write {
            FileWrite::CreateFailed { cause } => Err(
                make_path_error(CREATE_FAILED, path.as_str(), cause),
            ),
            FileWrite::WriteFailed { cause } => Err(
                make_path_error(WRITE_FAILED, path.as_str(), cause),
            ),
            FileWrite::Written => Ok(path),
        }
    }
}

} // verus!
