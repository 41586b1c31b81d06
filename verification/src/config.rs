//! The updater's configuration and the rules for accepting one.

use crate::text::{parse_u64, u64_of_text};
use vstd::prelude::*;
use vstd::string::*;

verus! {

/// Everything the updater needs to know for the lifetime of a process.
#[derive(Debug, Clone, PartialEq, Eq)]
pub struct Config {
    /// The API token that authenticates against Cloudflare (`CF_API_TOKEN`).
    pub cloudflare_api_token: String,
    /// The zone that holds the record (`CF_ZONE_ID`).
    pub cloudflare_zone_id: String,
    /// The one record to keep up to date (`CF_RECORD_ID`).
    pub cloudflare_record_id: String,
    /// The seconds to wait between two update cycles
    /// (`UPDATE_INTERVAL_SECS`).
    pub update_interval_secs: u64,
}

pub struct ConfigView {
    pub api_token: Seq<char>,
    pub zone_id: Seq<char>,
    pub record_id: Seq<char>,
    pub interval_secs: u64,
}

impl View for Config {
    type V = ConfigView;

    open spec fn view(&self) -> ConfigView {
        ConfigView {
            api_token: self.cloudflare_api_token@,
            zone_id: self.cloudflare_zone_id@,
            record_id: self.cloudflare_record_id@,
            interval_secs: self.update_interval_secs,
        }
    }
}

/// Why a configuration was refused.
#[derive(Debug, Clone, Copy, PartialEq, Eq, Structural)]
pub enum ConfigError {
    MissingApiToken,
    MissingZoneId,
    MissingRecordId,
    MissingInterval,
    /// The interval is no unsigned decimal number that fits 64 bits.
    MalformedInterval,
    /// The interval is zero.
    ZeroInterval,
}

impl ConfigError {
    /// The sentence that reports this error.
    pub open spec fn message_text(self) -> Seq<char> {
        match self {
            ConfigError::MissingApiToken => "CF_API_TOKEN is missing"@,
            ConfigError::MissingZoneId => "CF_ZONE_ID is missing"@,
            ConfigError::MissingRecordId => "CF_RECORD_ID is missing"@,
            ConfigError::MissingInterval => "UPDATE_INTERVAL_SECS is missing"@,
            ConfigError::MalformedInterval => "UPDATE_INTERVAL_SECS must be a number"@,
            ConfigError::ZeroInterval => "UPDATE_INTERVAL_SECS must be greater than zero"@,
        }
    }

    /// The sentence that reports this error.
    pub fn message(&self) -> (r: String)
        ensures
            r@ == self.message_text(),
    {
        let text = match self {
            ConfigError::MissingApiToken => "CF_API_TOKEN is missing",
            ConfigError::MissingZoneId => "CF_ZONE_ID is missing",
            ConfigError::MissingRecordId => "CF_RECORD_ID is missing",
            ConfigError::MissingInterval => "UPDATE_INTERVAL_SECS is missing",
            ConfigError::MalformedInterval => "UPDATE_INTERVAL_SECS must be a number",
            ConfigError::ZeroInterval => "UPDATE_INTERVAL_SECS must be greater than zero",
        };
        String::from_str(text)
    }
}

/// The four settings as the environment holds them: the value of each
/// variable, or `None` for a variable that is not set.
#[derive(Debug, Clone, PartialEq, Eq)]
pub struct Environment {
    pub cf_api_token: Option<String>,
    pub cf_zone_id: Option<String>,
    pub cf_record_id: Option<String>,
    pub update_interval_secs: Option<String>,
}

pub struct EnvironmentView {
    pub cf_api_token: Option<Seq<char>>,
    pub cf_zone_id: Option<Seq<char>>,
    pub cf_record_id: Option<Seq<char>>,
    pub update_interval_secs: Option<Seq<char>>,
}

/// The text of a setting, where it is set.
pub open spec fn setting_view(setting: Option<String>) -> Option<Seq<char>> {
    match setting {
        Some(value) => Some(value@),
        None => None,
    }
}

impl View for Environment {
    type V = EnvironmentView;

    open spec fn view(&self) -> EnvironmentView {
        EnvironmentView {
            cf_api_token: setting_view(self.cf_api_token),
            cf_zone_id: setting_view(self.cf_zone_id),
            cf_record_id: setting_view(self.cf_record_id),
            update_interval_secs: setting_view(self.update_interval_secs),
        }
    }
}

/// The configuration that an environment describes, or the first reason, in
/// the order token, zone, record, interval, why it describes none. The
/// interval is an unsigned decimal number of seconds above zero.
pub open spec fn config_of(env: EnvironmentView) -> Result<ConfigView, ConfigError> {
    if env.cf_api_token is None {
        Err(ConfigError::MissingApiToken)
    } else if env.cf_zone_id is None {
        Err(ConfigError::MissingZoneId)
    } else if env.cf_record_id is None {
        Err(ConfigError::MissingRecordId)
    } else if env.update_interval_secs is None {
        Err(ConfigError::MissingInterval)
    } else {
        match u64_of_text(env.update_interval_secs->0) {
            None => Err(ConfigError::MalformedInterval),
            Some(secs) => if secs == 0 {
                Err(ConfigError::ZeroInterval)
            } else {
                Ok(
                    ConfigView {
                        api_token: env.cf_api_token->0,
                        zone_id: env.cf_zone_id->0,
                        record_id: env.cf_record_id->0,
                        interval_secs: secs,
                    },
                )
            },
        }
    }
}

impl Config {
    /// A configuration is sound when its interval is above zero.
    pub open spec fn well_formed(&self) -> bool {
        self.update_interval_secs > 0
    }

    /// Builds the configuration from the settings found in the environment.
    /// Every setting is required.
    pub fn from_env(env: Environment) -> (r: Result<Config, ConfigError>)
        ensures
            match r {
                Ok(config) => config_of(env@) == Ok::<ConfigView, ConfigError>(config@)
                    && config.well_formed(),
                Err(error) => config_of(env@) == Err::<ConfigView, ConfigError>(error),
            },
    {
        let cloudflare_api_token = match env.cf_api_token {
            Some(value) => value,
            None => {
                return Err(ConfigError::MissingApiToken);
            },
        };
        let cloudflare_zone_id = match env.cf_zone_id {
            Some(value) => value,
            None => {
                return Err(ConfigError::MissingZoneId);
            },
        };
        let cloudflare_record_id = match env.cf_record_id {
            Some(value) => value,
            None => {
                return Err(ConfigError::MissingRecordId);
            },
        };
        let interval = match env.update_interval_secs {
            Some(value) => value,
            None => {
                return Err(ConfigError::MissingInterval);
            },
        };
        let update_interval_secs = match parse_u64(interval.as_str()) {
            Some(secs) => secs,
            None => {
                return Err(ConfigError::MalformedInterval);
            },
        };
        if update_interval_secs == 0 {
            return Err(ConfigError::ZeroInterval);
        }
        Ok(Config { cloudflare_api_token, cloudflare_zone_id, cloudflare_record_id, update_interval_secs })
    }
}

} // verus!
