use cloudflare_ddns::config::{Config, ConfigError, Environment};
use cloudflare_ddns::launch::{init_and_log_config, launch};
use cloudflare_ddns::scheduler::{SchedulerAction, SchedulerState};

fn env(token: Option<&str>, zone: Option<&str>, record: Option<&str>, secs: Option<&str>) -> Environment {
    Environment {
        cf_api_token: token.map(String::from),
        cf_zone_id: zone.map(String::from),
        cf_record_id: record.map(String::from),
        update_interval_secs: secs.map(String::from),
    }
}

#[test]
fn from_env_builds_the_configuration() {
    let config = Config::from_env(env(Some("tok"), Some("zone"), Some("rec"), Some("300")));
    assert_eq!(
        config,
        Ok(Config {
            cloudflare_api_token: String::from("tok"),
            cloudflare_zone_id: String::from("zone"),
            cloudflare_record_id: String::from("rec"),
            update_interval_secs: 300,
        })
    );
}

#[test]
fn from_env_reports_each_missing_setting() {
    assert_eq!(
        Config::from_env(env(None, Some("z"), Some("r"), Some("1"))),
        Err(ConfigError::MissingApiToken)
    );
    assert_eq!(
        Config::from_env(env(Some("t"), None, Some("r"), Some("1"))),
        Err(ConfigError::MissingZoneId)
    );
    assert_eq!(
        Config::from_env(env(Some("t"), Some("z"), None, Some("1"))),
        Err(ConfigError::MissingRecordId)
    );
    assert_eq!(
        Config::from_env(env(Some("t"), Some("z"), Some("r"), None)),
        Err(ConfigError::MissingInterval)
    );
}

#[test]
fn from_env_reports_the_first_missing_setting() {
    assert_eq!(Config::from_env(env(None, None, None, None)), Err(ConfigError::MissingApiToken));
    assert_eq!(
        Config::from_env(env(Some("t"), None, None, Some("x"))),
        Err(ConfigError::MissingZoneId)
    );
}

#[test]
fn from_env_refuses_a_bad_interval() {
    for text in ["", "abc", "-1", "1.5", " 60", "60s", "18446744073709551616"] {
        assert_eq!(
            Config::from_env(env(Some("t"), Some("z"), Some("r"), Some(text))),
            Err(ConfigError::MalformedInterval)
        );
    }
    for text in ["0", "+0", "000"] {
        assert_eq!(
            Config::from_env(env(Some("t"), Some("z"), Some("r"), Some(text))),
            Err(ConfigError::ZeroInterval)
        );
    }
}

#[test]
fn from_env_keeps_empty_texts() {
    let config = Config::from_env(env(Some(""), Some(""), Some(""), Some("1"))).unwrap();
    assert_eq!(config.cloudflare_api_token, "");
    assert_eq!(config.update_interval_secs, 1);
}

#[test]
fn config_error_messages() {
    assert_eq!(ConfigError::MissingApiToken.message(), "CF_API_TOKEN is missing");
    assert_eq!(ConfigError::MissingZoneId.message(), "CF_ZONE_ID is missing");
    assert_eq!(ConfigError::MissingRecordId.message(), "CF_RECORD_ID is missing");
    assert_eq!(ConfigError::MissingInterval.message(), "UPDATE_INTERVAL_SECS is missing");
    assert_eq!(ConfigError::MalformedInterval.message(), "UPDATE_INTERVAL_SECS must be a number");
    assert_eq!(
        ConfigError::ZeroInterval.message(),
        "UPDATE_INTERVAL_SECS must be greater than zero"
    );
}

#[test]
fn init_and_log_config_reports_the_settings() {
    let (config, report) =
        init_and_log_config(env(Some("tok"), Some("zone"), Some("rec"), Some("+300"))).unwrap();
    assert_eq!(config.update_interval_secs, 300);
    assert_eq!(
        report,
        vec![
            String::from("Loaded config:"),
            String::from("  CF_API_TOKEN: tok"),
            String::from("  CF_ZONE_ID: zone"),
            String::from("  CF_RECORD_ID: rec"),
            String::from("  UPDATE_INTERVAL_SECS: 300"),
        ]
    );
}

#[test]
fn init_and_log_config_fails_without_a_setting() {
    assert_eq!(
        init_and_log_config(env(Some("tok"), Some("zone"), None, Some("300"))),
        Err(ConfigError::MissingRecordId)
    );
}

#[test]
fn launch_fails_for_every_missing_setting() {
    for missing in 0..4 {
        let pick = |at: usize, text: &'static str| if at == missing { None } else { Some(text) };
        let result = launch(env(pick(0, "t"), pick(1, "z"), pick(2, "r"), pick(3, "60")));
        assert!(result.is_err());
    }
}

#[test]
fn launch_asks_for_a_cycle_first() {
    let up = launch(env(Some("tok"), Some("zone"), Some("rec"), Some("300"))).unwrap();
    assert_eq!(up.first, SchedulerAction::RunCycle);
    assert_eq!(up.scheduler.state, SchedulerState::Cycling);
    assert_eq!(up.scheduler.interval_secs, 300);
    assert_eq!(up.scheduler.cycles, 1);
    assert_eq!(up.cloudflare.config.cloudflare_zone_id, "zone");
    assert_eq!(up.report.len(), 5);
}
