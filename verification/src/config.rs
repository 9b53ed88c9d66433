//! Command-line settings and the shape of the configuration file.

use std::collections::HashMap;
use vstd::prelude::*;

verus! {

/// Where the configuration is read from.
#[derive(Clone, Debug, PartialEq, Eq)]
pub struct Settings {
    pub config_path: String,
}

/// Why the command line was refused.
#[derive(Clone, Debug, PartialEq, Eq)]
pub enum SettingsError {
    /// `--config` was the last argument.
    MissingValue,
    /// An argument that is no flag of this program.
    UnknownFlag(String),
}

/// What a [`SettingsError`] holds, as a mathematical value.
pub enum SettingsErrorModel {
    MissingValue,
    UnknownFlag(Seq<char>),
}

impl View for SettingsError {
    type V = SettingsErrorModel;

    open spec fn view(&self) -> SettingsErrorModel {
        match *self {
            SettingsError::MissingValue => SettingsErrorModel::MissingValue,
            SettingsError::UnknownFlag(flag) => SettingsErrorModel::UnknownFlag(flag@),
        }
    }
}

impl SettingsError {
    /// The error in words.
    pub fn message(&self) -> (text: String)
        ensures
            text@ == (match self@ {
                SettingsErrorModel::MissingValue => "--config requires a value"@,
                SettingsErrorModel::UnknownFlag(flag) => "unknown flag: "@ + flag,
            }),
    {
        match self {
            SettingsError::MissingValue => "--config requires a value".to_owned(),
            SettingsError::UnknownFlag(flag) => {
                let mut text = "unknown flag: ".to_owned();
                text.push_str(flag.as_str());
                text
            },
        }
    }
}

/// The outcome of reading the arguments `args` from left to right, with
/// `path` the configuration path chosen so far. `--config` takes the next
/// argument as the path, a later one replacing an earlier one; any other
/// argument is refused.
pub open spec fn parse_from(args: Seq<Seq<char>>, path: Seq<char>) -> Result<
    Seq<char>,
    SettingsErrorModel,
>
    decreases args.len(),
{
    if args.len() == 0 {
        Ok(path)
    } else if args[0] == "--config"@ {
        if args.len() == 1 {
            Err(SettingsErrorModel::MissingValue)
        } else {
            parse_from(args.skip(2), args[1])
        }
    } else {
        Err(SettingsErrorModel::UnknownFlag(args[0]))
    }
}

/// The outcome of reading a whole command line (without the program's
/// name): the path is `config.json` unless `--config` names another.
pub open spec fn parse_outcome(args: Seq<Seq<char>>) -> Result<Seq<char>, SettingsErrorModel> {
    parse_from(args, "config.json"@)
}

impl Settings {
    /// Reads the settings from the arguments of the command line, the
    /// program's name left out.
    pub fn parse(args: Vec<String>) -> (outcome: Result<Settings, SettingsError>)
        ensures
            match parse_outcome(args@.map_values(|a: String| a@)) {
                Ok(path) => outcome is Ok && outcome->Ok_0.config_path@ == path,
                Err(e) => outcome is Err && outcome->Err_0@ == e,
            },
    {
        let ghost all = args@.map_values(|a: String| a@);
        let mut config_path = "config.json".to_owned();
        let n = args.len();
        let mut i: usize = 0;
        assert(all.skip(0) =~= all);
        while i < n
            invariant
                n == args@.len(),
                i <= n,
                all == args@.map_values(|a: String| a@),
                parse_outcome(all) == parse_from(all.skip(i as int), config_path@),
            decreases n - i,
        {
            let ghost rest = all.skip(i as int);
            assert(rest[0] == args@[i as int]@);
            if *args[i].as_str() == *"--config" {
                if i + 1 >= n {
                    return Err(SettingsError::MissingValue);
                }
                config_path = args[i + 1].clone();
                proof {
                    assert(rest[1] == args@[i + 1]@);
                    assert(rest.skip(2) =~= all.skip(i + 2));
                }
                i += 2;
            } else {
                return Err(SettingsError::UnknownFlag(args[i].clone()));
            }
        }
        Ok(Settings { config_path })
    }
}

/// How an agent process is started.
#[derive(Clone, Debug, PartialEq, Eq)]
pub struct AgentProcessConfig {
    pub command: String,
    pub args: Vec<String>,
    pub env: HashMap<String, String>,
}

/// Model configuration for LLM providers.
#[derive(Clone, Debug, PartialEq, Eq)]
pub struct ModelConfig {
    pub enabled: bool,
    pub provider: String,
    pub base_url: String,
    pub api_key: String,
    pub model_name: String,
}

/// MCP (Model Context Protocol) server configuration.
#[derive(Clone, Debug, PartialEq, Eq)]
pub struct McpServerConfig {
    pub enabled: bool,
    pub description: String,
    pub config: HashMap<String, String>,
}

/// Custom command/shortcut configuration.
#[derive(Clone, Debug, PartialEq, Eq)]
pub struct CommandConfig {
    pub description: String,
    pub template: String,
}

/// The configuration file.
#[derive(Clone, Debug, PartialEq, Eq)]
pub struct Config {
    pub agent_servers: HashMap<String, AgentProcessConfig>,
    pub upload_dir: String,
    pub models: HashMap<String, ModelConfig>,
    pub mcp_servers: HashMap<String, McpServerConfig>,
    pub commands: HashMap<String, CommandConfig>,
}

/// The upload directory of a configuration that names none: the current
/// directory.
pub fn default_upload_dir() -> (dir: String)
    ensures
        dir@ == "."@,
{
    ".".to_owned()
}

} // verus!
