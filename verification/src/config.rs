//! The adapter's own configuration.
use vstd::prelude::*;
use vstd::string::*;
use crate::json::{json_parse, Json};

verus! {

/// The part of the configuration that belongs to the proving platform.
#[derive(Clone, Debug, PartialEq, Eq)]
pub struct SnarkifyConfig {
    /// The service under which the platform creates the adapter's tasks.
    pub service_id: String,
}

/// Why a configuration text was turned down.
#[derive(Clone, Debug, PartialEq, Eq)]
pub enum ConfigError {
    /// The text is no JSON document; the field holds the parser's message.
    Malformed(String),
    /// The document is no object with a string field `service_id`.
    MissingServiceId,
}

pub enum ConfigErrorView {
    Malformed(Seq<char>),
    MissingServiceId,
}

impl View for ConfigError {
    type V = ConfigErrorView;

    open spec fn view(&self) -> ConfigErrorView {
        match self {
            ConfigError::Malformed(message) => ConfigErrorView::Malformed(message@),
            ConfigError::MissingServiceId => ConfigErrorView::MissingServiceId,
        }
    }
}

/// The service identifier that a configuration document names, if it names
/// one: the string under `service_id`.
pub open spec fn service_id_of(document: Json) -> Option<Seq<char>> {
    match document.member("service_id"@) {
        Some(member) => member.text(),
        None => None,
    }
}

/// The service identifier that a configuration text names, or the reason why
/// the text is turned down.
pub open spec fn config_of(text: Seq<char>) -> Result<Seq<char>, ConfigErrorView> {
    match json_parse(text) {
        Err(message) => Err(ConfigErrorView::Malformed(message)),
        Ok(document) => match service_id_of(document) {
            Some(service_id) => Ok(service_id),
            None => Err(ConfigErrorView::MissingServiceId),
        },
    }
}

impl SnarkifyConfig {
    /// Reads the configuration from the text of a JSON document: an object
    /// whose field `service_id` is a string. Other fields are ignored.
    pub fn from_json(text: &str) -> (r: Result<SnarkifyConfig, ConfigError>)
        ensures
            match r {
                Ok(config) => config_of(text@) == Ok::<Seq<char>, ConfigErrorView>(
                    config.service_id@,
                ),
                Err(error) => config_of(text@) == Err::<Seq<char>, ConfigErrorView>(error@),
            },
    {
        match crate::json::parse(text) {
            Err(message) => Err(ConfigError::Malformed(message)),
            Ok(document) => {
                match crate::json::get(&document, "service_id") {
                    None => Err(ConfigError::MissingServiceId),
                    Some(member) => match crate::json::as_str(member) {
                        None => Err(ConfigError::MissingServiceId),
                        Some(id) => Ok(SnarkifyConfig { service_id: String::from_str(id) }),
                    },
                }
            },
        }
    }
}

} // verus!
