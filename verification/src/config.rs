//! The settings that the rules read.

use vstd::prelude::*;
use crate::groq::DEFAULT_TRANSCRIPTION_MODEL;

verus! {

/// The settings, without what only the transport needs.
#[derive(Debug, PartialEq)]
pub struct Config {
    pub api_key: String,
    pub model: String,
    pub language: String,
    pub dictionary: String,
    pub response_format: String,
    pub gemini_api_key: String,
    pub mode: String,
    pub voice_name: String,
    pub system_instruction: String,
}

/// The system instruction used unless one is set.
pub const DEFAULT_INSTRUCTION: &'static str =
    "You are a helpful voice assistant. Keep responses concise and conversational.";

/// A text, or `None` where it is empty.
pub open spec fn non_empty(text: Seq<char>) -> Option<Seq<char>> {
    if text.len() == 0 {
        None
    } else {
        Some(text)
    }
}

/// A setting, or the environment's value where the setting is empty and the
/// environment has one.
pub open spec fn with_fallback(setting: Seq<char>, env: Option<Seq<char>>) -> Seq<char> {
    match env {
        Some(v) if setting.len() == 0 => v,
        _ => setting,
    }
}

fn fall_back(setting: String, env: Option<String>) -> (chosen: String)
    ensures
        chosen@ == with_fallback(
            setting@,
            match env {
                Some(v) => Some(v@),
                None => None,
            },
        ),
{
    if setting.as_str().is_empty() {
        match env {
            Some(v) => v,
            None => setting,
        }
    } else {
        setting
    }
}

impl Default for Config {
    fn default() -> (config: Config)
        ensures
            config.api_key@.len() == 0,
            config.model@ == DEFAULT_TRANSCRIPTION_MODEL@,
            config.language@ == "en"@,
            config.dictionary@.len() == 0,
            config.response_format@ == "json"@,
            config.gemini_api_key@.len() == 0,
            config.mode@ == "groq"@,
            config.voice_name@ == "Kore"@,
            config.system_instruction@ == DEFAULT_INSTRUCTION@,
    {
        Config {
            api_key: String::new(),
            model: DEFAULT_TRANSCRIPTION_MODEL.to_owned(),
            language: "en".to_owned(),
            dictionary: String::new(),
            response_format: "json".to_owned(),
            gemini_api_key: String::new(),
            mode: "groq".to_owned(),
            voice_name: "Kore".to_owned(),
            system_instruction: DEFAULT_INSTRUCTION.to_owned(),
        }
    }
}

impl Config {
    /// Fills empty keys from the environment: `groq_env` and `gemini_env`
    /// are the values of the two key variables, where set.
    pub fn with_env_fallback(self, groq_env: Option<String>, gemini_env: Option<String>) -> (config: Config)
        ensures
            config.api_key@ == with_fallback(
                self.api_key@,
                match groq_env {
                    Some(v) => Some(v@),
                    None => None,
                },
            ),
            config.gemini_api_key@ == with_fallback(
                self.gemini_api_key@,
                match gemini_env {
                    Some(v) => Some(v@),
                    None => None,
                },
            ),
            config.model == self.model,
            config.language == self.language,
            config.dictionary == self.dictionary,
            config.response_format == self.response_format,
            config.mode == self.mode,
            config.voice_name == self.voice_name,
            config.system_instruction == self.system_instruction,
    {
        let mut config = self;
        let mut key = String::new();
        std::mem::swap(&mut key, &mut config.api_key);
        config.api_key = fall_back(key, groq_env);
        let mut gemini_key = String::new();
        std::mem::swap(&mut gemini_key, &mut config.gemini_api_key);
        config.gemini_api_key = fall_back(gemini_key, gemini_env);
        config
    }

    /// The language to ask for; none where the setting is empty.
    pub fn effective_language(&self) -> (language: Option<&str>)
        ensures
            match language {
                Some(l) => non_empty(self.language@) == Some(l@),
                None => non_empty(self.language@) is None,
            },
    {
        if self.language.as_str().is_empty() {
            None
        } else {
            Some(self.language.as_str())
        }
    }

    /// The dictionary prompt to send; none where the setting is empty.
    pub fn effective_dictionary(&self) -> (dictionary: Option<&str>)
        ensures
            match dictionary {
                Some(d) => non_empty(self.dictionary@) == Some(d@),
                None => non_empty(self.dictionary@) is None,
            },
    {
        if self.dictionary.as_str().is_empty() {
            None
        } else {
            Some(self.dictionary.as_str())
        }
    }
}

} // verus!
