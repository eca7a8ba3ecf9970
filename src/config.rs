//! The prompt configuration and its validation.
use vstd::prelude::*;
use vstd::string::*;
use crate::temperature::{Temperature, is_decimal, temperature_in_range};

verus! {

/// Why a configuration cannot be used; each aborts the run.
#[derive(Debug)]
pub enum ConfigError {
    /// The configuration file could not be read.
    Read(String),
    /// The file is not JSON of the expected shape.
    Parse(String),
    /// The temperature lies outside the range from 0 to 2; holds its text.
    TemperatureOutOfRange(String),
    /// No model name was given on the command line nor in the configuration.
    MissingModel,
}

impl ConfigError {
    pub open spec fn spec_message(&self) -> Seq<char> {
        match self {
            ConfigError::Read(d) => "Failed to read prompt file "@ + d@,
            ConfigError::Parse(d) => "Failed to parse prompt file "@ + d@,
            ConfigError::TemperatureOutOfRange(t) => "Temperature must be between 0.0 and 2.0, got "@
                + t@,
            ConfigError::MissingModel => "--model is required (or set 'model' in prompt config)"@,
        }
    }

    /// The diagnostic text of the error.
    pub fn message(&self) -> (r: String)
        ensures
            r@ == self.spec_message(),
    {
        match self {
            ConfigError::Read(d) => String::from_str("Failed to read prompt file ").concat(
                d.as_str(),
            ),
            ConfigError::Parse(d) => String::from_str("Failed to parse prompt file ").concat(
                d.as_str(),
            ),
            ConfigError::TemperatureOutOfRange(t) => String::from_str(
                "Temperature must be between 0.0 and 2.0, got ",
            ).concat(t.as_str()),
            ConfigError::MissingModel => String::from_str(
                "--model is required (or set 'model' in prompt config)",
            ),
        }
    }
}

/// The configuration fields as read from the file, not yet validated; the
/// temperature is the decimal text of the number.
#[derive(Debug)]
pub struct RawPromptConfig {
    pub system: String,
    pub prompt: String,
    pub temperature: String,
    pub model: Option<String>,
}

/// A validated prompt configuration.
#[derive(Debug)]
pub struct PromptConfig {
    pub system: String,
    pub prompt: String,
    pub temperature: Temperature,
    pub model: Option<String>,
}

impl PromptConfig {
    /// The temperature is a decimal literal within the range from 0 to 2.
    pub open spec fn wf(&self) -> bool {
        self.temperature.wf() && temperature_in_range(self.temperature@)
    }

    /// Validates the fields read from a configuration file: a temperature
    /// that is no number is a parse error, one outside the range from 0 to 2
    /// a range error; otherwise the fields are kept as they are.
    pub fn validate(raw: RawPromptConfig) -> (r: Result<PromptConfig, ConfigError>)
        ensures
            !is_decimal(raw.temperature@) <==> r matches Err(ConfigError::Parse(_)),
            is_decimal(raw.temperature@) && !temperature_in_range(raw.temperature@) <==> r matches Err(
                ConfigError::TemperatureOutOfRange(_),
            ),
            r matches Err(ConfigError::TemperatureOutOfRange(t)) ==> t@ == raw.temperature@,
            is_decimal(raw.temperature@) && temperature_in_range(raw.temperature@) <==> r is Ok,
            r matches Ok(c) ==> c.wf() && c.system@ == raw.system@ && c.prompt@ == raw.prompt@
                && c.temperature@ == raw.temperature@ && c.model == raw.model,
    {
        match Temperature::parse(raw.temperature.as_str()) {
            None => Err(
                ConfigError::Parse(String::from_str(": temperature is not a decimal number")),
            ),
            Some(t) => {
                if t.in_range() {
                    Ok(
                        PromptConfig {
                            system: raw.system,
                            prompt: raw.prompt,
                            temperature: t,
                            model: raw.model,
                        },
                    )
                } else {
                    Err(ConfigError::TemperatureOutOfRange(raw.temperature))
                }
            },
        }
    }
}

/// The characters of an optional text.
pub open spec fn text_of(o: Option<String>) -> Option<Seq<char>> {
    match o {
        Some(s) => Some(s@),
        None => None,
    }
}

/// The model name to send: the command line's, else the configuration's.
pub open spec fn chosen_model(cli: Option<Seq<char>>, config: Option<Seq<char>>) -> Option<
    Seq<char>,
> {
    if cli is Some {
        cli
    } else {
        config
    }
}

/// Resolves the model name for the native protocol; a name on the command
/// line takes precedence over the configuration's, and with neither the
/// configuration cannot be used.
pub fn resolve_model(cli: &Option<String>, config: &PromptConfig) -> (r: Result<
    String,
    ConfigError,
>)
    ensures
        chosen_model(text_of(*cli), text_of(config.model)) is None <==> r is Err,
        r is Err ==> r matches Err(ConfigError::MissingModel),
        r matches Ok(m) ==> Some(m@) == chosen_model(
            text_of(*cli),
            text_of(config.model),
        ),
{
    match cli {
        Some(m) => Ok(m.clone()),
        None => match &config.model {
            Some(m) => Ok(m.clone()),
            None => Err(ConfigError::MissingModel),
        },
    }
}

} // verus!
