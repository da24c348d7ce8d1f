//! The station's credentials at the two services.

use vstd::prelude::*;
use vstd::string::*;

verus! {

/// The station's identifier and password at each of the two services.
#[derive(Debug, Clone)]
pub struct Config {
    pub wu_station_id: String,
    pub wu_password: String,
    pub pws_station_id: String,
    pub pws_password: String,
}

/// A setting that the configuration lacks.
#[derive(Clone, Copy, Debug, PartialEq, Eq, Structural)]
pub enum ConfigError {
    WuStationId,
    WuPassword,
    PwsStationId,
    PwsPassword,
}

impl ConfigError {
    /// What the error says: the name of the missing setting, and that it is
    /// not set.
    pub open spec fn text(self) -> Seq<char> {
        match self {
            ConfigError::WuStationId => "WU_STATION_ID not set"@,
            ConfigError::WuPassword => "WU_PASSWORD not set"@,
            ConfigError::PwsStationId => "PWS_STATION_ID not set"@,
            ConfigError::PwsPassword => "PWS_PASSWORD not set"@,
        }
    }

    /// What the error says.
    pub fn message(&self) -> (s: String)
        ensures
            s@ == self.text(),
    {
        match self {
            ConfigError::WuStationId => "WU_STATION_ID not set".to_owned(),
            ConfigError::WuPassword => "WU_PASSWORD not set".to_owned(),
            ConfigError::PwsStationId => "PWS_STATION_ID not set".to_owned(),
            ConfigError::PwsPassword => "PWS_PASSWORD not set".to_owned(),
        }
    }
}

/// The first of the four settings that is missing, in the order in which
/// they are asked for.
pub open spec fn first_missing(
    wu_station_id: Option<String>,
    wu_password: Option<String>,
    pws_station_id: Option<String>,
    pws_password: Option<String>,
) -> Option<ConfigError> {
    if wu_station_id is None {
        Some(ConfigError::WuStationId)
    } else if wu_password is None {
        Some(ConfigError::WuPassword)
    } else if pws_station_id is None {
        Some(ConfigError::PwsStationId)
    } else if pws_password is None {
        Some(ConfigError::PwsPassword)
    } else {
        None
    }
}

impl Config {
    /// The configuration made of the four settings, each as it was found.
    /// All four are required: the first one missing is the error.
    pub fn from_vars(
        wu_station_id: Option<String>,
        wu_password: Option<String>,
        pws_station_id: Option<String>,
        pws_password: Option<String>,
    ) -> (r: Result<Config, ConfigError>)
        ensures
            match first_missing(wu_station_id, wu_password, pws_station_id, pws_password) {
                Some(e) => r == Err::<Config, ConfigError>(e),
                None => r == Ok::<Config, ConfigError>(
                    (Config {
                        wu_station_id: wu_station_id->0,
                        wu_password: wu_password->0,
                        pws_station_id: pws_station_id->0,
                        pws_password: pws_password->0,
                    }),
                ),
            },
    {
        let wu_station_id = match wu_station_id {
            Some(v) => v,
            None => { return Err(ConfigError::WuStationId); },
        };
        let wu_password = match wu_password {
            Some(v) => v,
            None => { return Err(ConfigError::WuPassword); },
        };
        let pws_station_id = match pws_station_id {
            Some(v) => v,
            None => { return Err(ConfigError::PwsStationId); },
        };
        let pws_password = match pws_password {
            Some(v) => v,
            None => { return Err(ConfigError::PwsPassword); },
        };
        Ok(Config { wu_station_id, wu_password, pws_station_id, pws_password })
    }
}

} // verus!
