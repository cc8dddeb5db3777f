//! The runtime config of the block-explorer app, and the explorer config of a
//! chain.
//!
//! The explorer app is served as a pre-built static app; it reads its config
//! from a script that assigns the config, as a JSON object, to the
//! `##runtimeConfig` property of the window object. That script is written
//! and read back here.

use vstd::prelude::*;
use vstd::string::*;
use crate::paths::{
    chain_apps_dir, ecosystem_generated_dir, join, join_path, EXPLORER_CHAIN_CONFIG_FILE,
    EXPLORER_RUNTIME_CONFIG_FILE, LOCAL_APPS_PATH, LOCAL_CHAINS_PATH, LOCAL_CONFIGS_PATH,
    LOCAL_GENERATED_PATH,
};
use crate::text::{
    chars_of, find_char, has_char, is_first_index, is_last_index, lemma_first_index_unique,
    lemma_last_index_unique, rfind_char,
};

verus! {

/// The runtime config of the explorer app.
pub struct ExplorerRuntimeConfig {
    pub app_environment: String,
    pub environment_config: Vec<ExplorerChainConfig>,
}

/// How the explorer app presents one chain.
pub struct ExplorerChainConfig {
    pub name: String,
    pub l2_network_name: String,
    pub l2_chain_id: u64,
    pub rpc_url: String,
    pub api_url: String,
    pub base_token_address: String,
    pub hostnames: Vec<String>,
    pub icon: String,
    pub maintenance: bool,
    pub published: bool,
    pub bridge_url: Option<String>,
    pub l1_explorer_url: Option<String>,
    pub verification_api_url: Option<String>,
}

impl ExplorerRuntimeConfig {
    /// The runtime config of the `default` app environment over the given chains.
    pub fn new(explorer_chain_configs: Vec<ExplorerChainConfig>) -> (c: Self)
        ensures
            c.app_environment@ == "default"@,
            c.environment_config == explorer_chain_configs,
    {
        ExplorerRuntimeConfig {
            app_environment: "default".to_owned(),
            environment_config: explorer_chain_configs,
        }
    }

    /// `<base>/configs/.generated/explorer.config.js`.
    pub fn get_config_path(ecosystem_base_path: &str) -> (p: String)
        ensures
            p@ == join_path(ecosystem_generated_dir(ecosystem_base_path@), EXPLORER_RUNTIME_CONFIG_FILE@),
    {
        let configs = join(ecosystem_base_path, LOCAL_CONFIGS_PATH);
        let generated = join(configs.as_str(), LOCAL_GENERATED_PATH);
        join(generated.as_str(), EXPLORER_RUNTIME_CONFIG_FILE)
    }
}

impl ExplorerChainConfig {
    /// `<base>/chains/<chain>/configs/apps/explorer.config.json`.
    pub fn get_config_path(ecosystem_base_path: &str, chain_name: &str) -> (p: String)
        ensures
            p@ == join_path(chain_apps_dir(ecosystem_base_path@, chain_name@), EXPLORER_CHAIN_CONFIG_FILE@),
    {
        let chains = join(ecosystem_base_path, LOCAL_CHAINS_PATH);
        let chain = join(chains.as_str(), chain_name);
        let configs = join(chain.as_str(), LOCAL_CONFIGS_PATH);
        let apps = join(configs.as_str(), LOCAL_APPS_PATH);
        join(apps.as_str(), EXPLORER_CHAIN_CONFIG_FILE)
    }
}

/// The text before the JSON in the runtime config script.
pub open spec fn runtime_config_prefix() -> Seq<char> {
    "window['##runtimeConfig'] = "@
}

/// The runtime config script that assigns `json`.
pub open spec fn runtime_config_script(json: Seq<char>) -> Seq<char> {
    runtime_config_prefix() + json + seq![';']
}

/// The text from the first `{` to the last `}` of `script`, both included;
/// `None` where either is missing.
pub open spec fn runtime_config_json_of(script: Seq<char>) -> Option<Seq<char>> {
    if has_char(script, '{') && has_char(script, '}') {
        let start = choose|i: int| is_first_index(script, '{', i);
        let end = choose|j: int| is_last_index(script, '}', j);
        Some(script.subrange(start, end + 1))
    } else {
        None
    }
}

/// The first `{` of `script` comes at most one place after its last `}`, so
/// that the text between them is a well-formed range.
pub open spec fn runtime_config_braces_ordered(script: Seq<char>) -> bool {
    forall|i: int, j: int|
        is_first_index(script, '{', i) && is_last_index(script, '}', j) ==> i <= j + 1
}

/// The runtime config script holds no `{` or no `}`.
#[derive(PartialEq, Eq, Structural, Debug)]
pub enum RuntimeConfigFormatError {
    InvalidConfigFileFormat,
}

impl RuntimeConfigFormatError {
    /// The error message.
    pub fn message(&self) -> (s: &'static str)
        ensures
            s@ == "Invalid config file format"@,
    {
        "Invalid config file format"
    }
}

/// The runtime config script that assigns `json` to the window's
/// `##runtimeConfig` property.
pub fn runtime_config_js(json: &str) -> (s: String)
    ensures
        s@ == runtime_config_script(json@),
{
    proof {
        reveal_strlit(";");
    }
    "window['##runtimeConfig'] = ".to_owned().concat(json).concat(";")
}

proof fn lemma_json_of_positions(script: Seq<char>, i: int, j: int)
    requires
        is_first_index(script, '{', i),
        is_last_index(script, '}', j),
    ensures
        runtime_config_json_of(script) == Some(script.subrange(i, j + 1)),
{
    assert(has_char(script, '{'));
    assert(has_char(script, '}'));
    let start = choose|k: int| is_first_index(script, '{', k);
    let end = choose|k: int| is_last_index(script, '}', k);
    lemma_first_index_unique(script, '{', start, i);
    lemma_last_index_unique(script, '}', end, j);
}

/// Where the JSON of a runtime config script starts and ends (positions of
/// its first `{` and last `}`, in characters).
pub fn runtime_config_json_bounds(script: &str) -> (r: Result<(usize, usize), RuntimeConfigFormatError>)
    ensures
        match r {
            Ok((i, j)) => is_first_index(script@, '{', i as int) && is_last_index(script@, '}', j as int),
            Err(e) => e == RuntimeConfigFormatError::InvalidConfigFileFormat
                && (!has_char(script@, '{') || !has_char(script@, '}')),
        },
{
    let chars = chars_of(script);
    let start = match find_char(&chars, '{') {
        Some(i) => i,
        None => return Err(RuntimeConfigFormatError::InvalidConfigFileFormat),
    };
    let end = match rfind_char(&chars, '}') {
        Some(j) => j,
        None => return Err(RuntimeConfigFormatError::InvalidConfigFileFormat),
    };
    Ok((start, end))
}

/// The JSON that a runtime config script assigns: the text from its first
/// `{` to its last `}`.
pub fn runtime_config_json(script: &str) -> (r: Result<String, RuntimeConfigFormatError>)
    requires
        runtime_config_braces_ordered(script@),
    ensures
        match r {
            Ok(json) => runtime_config_json_of(script@) == Some(json@),
            Err(e) => e == RuntimeConfigFormatError::InvalidConfigFileFormat
                && runtime_config_json_of(script@) is None,
        },
{
    match runtime_config_json_bounds(script) {
        Ok((start, end)) => {
            proof {
                lemma_json_of_positions(script@, start as int, end as int);
            }
            let len = script.unicode_len();
            proof {
                assert(end < len);
                assert(start <= end + 1);
            }
            let end_excl = end + 1;
            Ok(script.substring_char(start, end_excl).to_owned())
        },
        Err(e) => Err(e),
    }
}

/// Reading back the script written for a JSON object gives that JSON.
pub proof fn lemma_runtime_config_round_trip(json: Seq<char>)
    requires
        json.len() > 0,
        json[0] == '{',
        json.last() == '}',
    ensures
        runtime_config_braces_ordered(runtime_config_script(json)),
        runtime_config_json_of(runtime_config_script(json)) == Some(json),
{
    reveal_strlit("window['##runtimeConfig'] = ");
    let p = runtime_config_prefix();
    let s = runtime_config_script(json);
    let i = p.len() as int;
    let j = p.len() + json.len() - 1;
    assert(s[i] == json[0]);
    assert forall|k: int| 0 <= k < i implies s[k] != '{' by {
        assert(s[k] == p[k]);
    }
    assert(s[j] == json[json.len() - 1]);
    assert(s[s.len() - 1] == ';');
    assert forall|k: int| j < k < s.len() implies s[k] != '}' by {}
    assert(is_first_index(s, '{', i));
    assert(is_last_index(s, '}', j));
    lemma_json_of_positions(s, i, j);
    assert(s.subrange(i, j + 1) =~= json);
    assert forall|a: int, b: int|
        is_first_index(s, '{', a) && is_last_index(s, '}', b) implies a <= b + 1 by {
        lemma_first_index_unique(s, '{', a, i);
        lemma_last_index_unique(s, '}', b, j);
    }
}

} // verus!
