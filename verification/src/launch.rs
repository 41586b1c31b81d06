//! Starting up: from the settings in the environment to a scheduler that
//! asks for its first cycle, or to the reason why there is none.

use crate::cloudflare::Cloudflare;
use crate::config::{config_of, Config, ConfigError, ConfigView, Environment, EnvironmentView};
use crate::scheduler::{started, Scheduler, SchedulerAction};
use crate::text::{decimal_digits, decimal_text};
use vstd::prelude::*;
use vstd::string::*;

verus! {

/// Lines of text, each by its view.
pub open spec fn lines_view(lines: Seq<String>) -> Seq<Seq<char>> {
    lines.map_values(|line: String| line@)
}

/// The lines that report a configuration: a heading, then one line for
/// each setting, the interval as a decimal number.
pub open spec fn config_report(config: ConfigView) -> Seq<Seq<char>> {
    seq![
        "Loaded config:"@,
        "  CF_API_TOKEN: "@ + config.api_token,
        "  CF_ZONE_ID: "@ + config.zone_id,
        "  CF_RECORD_ID: "@ + config.record_id,
        "  UPDATE_INTERVAL_SECS: "@ + decimal_digits(config.interval_secs as nat),
    ]
}

fn labelled(label: &str, value: &str) -> (r: String)
    ensures
        r@ == label@ + value@,
{
    let mut line = String::from_str(label);
    line.append(value);
    line
}

/// Builds the configuration from the settings found in the environment,
/// together with the lines that report it.
pub fn init_and_log_config(env: Environment) -> (r: Result<(Config, Vec<String>), ConfigError>)
    ensures
        match r {
            Ok((config, report)) => {
                &&& config_of(env@) == Ok::<ConfigView, ConfigError>(config@)
                &&& config.well_formed()
                &&& lines_view(report@) == config_report(config@)
            },
            Err(error) => config_of(env@) == Err::<ConfigView, ConfigError>(error),
        },
{
    let config = match Config::from_env(env) {
        Ok(config) => config,
        Err(error) => {
            return Err(error);
        },
    };
    let interval = decimal_text(config.update_interval_secs);
    let mut report: Vec<String> = Vec::new();
    report.push(String::from_str("Loaded config:"));
    report.push(labelled("  CF_API_TOKEN: ", config.cloudflare_api_token.as_str()));
    report.push(labelled("  CF_ZONE_ID: ", config.cloudflare_zone_id.as_str()));
    report.push(labelled("  CF_RECORD_ID: ", config.cloudflare_record_id.as_str()));
    report.push(labelled("  UPDATE_INTERVAL_SECS: ", interval.as_str()));
    assert(lines_view(report@) =~= config_report(config@));
    Ok((config, report))
}

/// A process that has started: the provider's API for its configuration,
/// its scheduler, what the scheduler asks for first, and the lines that
/// report the configuration.
#[derive(Debug, PartialEq, Eq)]
pub struct Launch {
    pub cloudflare: Cloudflare,
    pub scheduler: Scheduler,
    pub first: SchedulerAction,
    pub report: Vec<String>,
}

/// Starts the process up. With a setting missing or an interval that is no
/// number above zero there is no scheduler, and so no cycle and no request.
/// Otherwise the scheduler starts, and the first thing it asks for is a
/// cycle.
pub fn launch(env: Environment) -> (r: Result<Launch, ConfigError>)
    ensures
        match r {
            Ok(up) => {
                &&& config_of(env@) == Ok::<ConfigView, ConfigError>(up.cloudflare@)
                &&& up.cloudflare.config.well_formed()
                &&& up.scheduler == started(up.cloudflare.config.update_interval_secs)
                &&& up.first == SchedulerAction::RunCycle
                &&& lines_view(up.report@) == config_report(up.cloudflare@)
            },
            Err(error) => config_of(env@) == Err::<ConfigView, ConfigError>(error),
        },
{
    match init_and_log_config(env) {
        Ok((config, report)) => {
            let (scheduler, first) = Scheduler::start(&config);
            Ok(Launch { cloudflare: Cloudflare::new(config), scheduler, first, report })
        },
        Err(error) => Err(error),
    }
}

/// An environment that lacks one of the four settings describes no
/// configuration, whatever the other settings hold.
pub proof fn lemma_missing_setting_is_refused(env: EnvironmentView)
    requires
        env.cf_api_token is None || env.cf_zone_id is None || env.cf_record_id is None
            || env.update_interval_secs is None,
    ensures
        config_of(env) is Err,
{
}

} // verus!
