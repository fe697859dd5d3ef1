//! The operator's settings: an immutable snapshot loaded once per run.
//!
//! Loading the JSON file, and checking that the output directory exists,
//! happen outside this crate; the snapshot arrives here as plain strings.
//! Whether every language code in it denotes a member of the closed set is
//! decided by the batch planner before any translation is attempted.

use vstd::prelude::*;

verus! {

/// The settings one run works from.
pub struct Config {
    /// Credential identifying the operator to the translation service.
    pub api_id: String,
    /// Credential secret for the translation service.
    pub api_key: String,
    /// Directory the resource files live in; must exist when the run starts.
    pub output_dir: String,
    /// Base name of the per-language resource files.
    pub base_filename: String,
    /// Base name of the default-language resource file.
    pub default_filename: String,
    /// Code of the language the source text is written in.
    pub default_lang: String,
    /// Codes of the languages to translate into, in output order.
    pub target_langs: Vec<String>,
}

/// The content scaffolded into a fresh configuration file.
pub open spec fn spec_default_config_json() -> Seq<char> {
    "
        {
            \"baiduId\":\"\",
            \"baiduKey\":\"\",
            \"propertiesFileDir\": \"./src/main/resources/messages\",
            \"filename\": \"pluginBundle\",
            \"defaultfilename\":\"pluginBundle\",
            \"defaultLang\":\"zh\",
            \"suportLangs\":[
                \"en\",
                \"hk\",
                \"ja\",
                \"ko\"
            ]
        }
        "@
}

/// The default configuration-file content, written verbatim when a run is
/// asked to scaffold its settings.
pub fn default_config_json() -> (r: &'static str)
    ensures
        r@ == spec_default_config_json(),
{
    "
        {
            \"baiduId\":\"\",
            \"baiduKey\":\"\",
            \"propertiesFileDir\": \"./src/main/resources/messages\",
            \"filename\": \"pluginBundle\",
            \"defaultfilename\":\"pluginBundle\",
            \"defaultLang\":\"zh\",
            \"suportLangs\":[
                \"en\",
                \"hk\",
                \"ja\",
                \"ko\"
            ]
        }
        "
}

} // verus!
