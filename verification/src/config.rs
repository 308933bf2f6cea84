//! The settings of the trading system, the environment overrides applied
//! to them, and the rules they must meet.
//!
//! Ratios and thresholds that the settings file writes as decimals are held
//! in hundredths (`3.0` is `300`).
use vstd::prelude::*;
use crate::text::{chars_of, contains_chars, contains_spec, eq_ignore_ascii_case, eq_ignore_ascii_case_spec, str_equals};

verus! {

/// Why the settings could not be used.
#[derive(Debug)]
pub enum ConfigError {
    /// The settings file is missing.
    FileNotFound(String),
    /// The settings file could not be read.
    ReadError(String),
    /// The settings file is not valid TOML for these settings.
    ParseError(String),
    /// A setting breaks a rule.
    ValidationError(String),
}

/// Paths of the databases.
#[derive(Clone, Debug)]
pub struct DatabaseConfig {
    pub stock_db_path: String,
    pub daily_db_path: String,
    pub trading_db_path: String,
}

/// Paths of the prediction model's files.
#[derive(Clone, Debug)]
pub struct OnnxModelConfig {
    pub model_info_path: String,
    pub model_file_path: String,
    pub features_file_path: String,
    pub extra_stocks_file_path: String,
}

/// Credentials and accounts of the brokerage, real and paper.
#[derive(Clone, Debug)]
pub struct KoreaInvestmentApiConfig {
    pub real_app_key: String,
    pub real_app_secret: String,
    pub real_base_url: String,
    pub real_account_number: String,
    pub real_account_product_code: String,
    pub paper_app_key: String,
    pub paper_app_secret: String,
    pub paper_base_url: String,
    pub paper_account_number: String,
    pub paper_account_product_code: String,
}

/// Trading limits. `stop_loss_ratio` and `take_profit_ratio` are percents in
/// hundredths.
#[derive(Clone, Debug)]
pub struct TradingConfig {
    pub default_mode: String,
    pub max_positions: u32,
    pub max_position_amount: u64,
    pub min_order_amount: u64,
    pub stop_loss_ratio: i64,
    pub take_profit_ratio: i64,
}

/// The trading day's schedule.
#[derive(Clone, Debug)]
pub struct TimeManagementConfig {
    pub market_close_file_path: String,
    pub trading_start_time: String,
    pub trading_end_time: String,
    pub event_check_interval: u64,
}

/// Logging.
#[derive(Clone, Debug)]
pub struct LoggingConfig {
    pub level: String,
    pub file_path: Option<String>,
    pub max_file_size: u64,
    pub max_files: u32,
}

/// Risk limits; the ratios are percents in hundredths.
#[derive(Clone, Debug)]
pub struct RiskManagementConfig {
    pub daily_max_loss: u64,
    pub max_investment_ratio: i64,
    pub max_single_stock_ratio: i64,
    pub var_confidence_level: i64,
}

/// Prediction thresholds, in hundredths.
#[derive(Clone, Debug)]
pub struct ModelPredictionConfig {
    pub buy_threshold: i64,
    pub sell_threshold: i64,
    pub top_volume_stocks: u32,
    pub normalize_features: bool,
}

/// Resource limits.
#[derive(Clone, Debug)]
pub struct PerformanceConfig {
    pub db_pool_size: u32,
    pub api_rate_limit: u32,
    pub worker_threads: u32,
    pub cache_size_mb: u64,
}

/// All settings.
#[derive(Clone, Debug)]
pub struct Config {
    pub database: DatabaseConfig,
    pub onnx_model: OnnxModelConfig,
    pub korea_investment_api: KoreaInvestmentApiConfig,
    pub trading: TradingConfig,
    pub time_management: TimeManagementConfig,
    pub logging: LoggingConfig,
    pub risk_management: RiskManagementConfig,
    pub model_prediction: ModelPredictionConfig,
    pub performance: PerformanceConfig,
}

/// The environment variables that override settings, as read.
pub struct EnvOverrides {
    /// `STOCK_DB_PATH`
    pub stock_db_path: Option<String>,
    /// `DAILY_DB_PATH`
    pub daily_db_path: Option<String>,
    /// `ONNX_MODEL_INFO_PATH`
    pub onnx_model_info_path: Option<String>,
    /// `KOREA_INVESTMENT_REAL_APP_KEY`
    pub real_app_key: Option<String>,
    /// `KOREA_INVESTMENT_REAL_APP_SECRET`
    pub real_app_secret: Option<String>,
    /// `KOREA_INVESTMENT_REAL_ACCOUNT_NUMBER`
    pub real_account_number: Option<String>,
    /// `KOREA_INVESTMENT_PAPER_APP_KEY`
    pub paper_app_key: Option<String>,
    /// `KOREA_INVESTMENT_PAPER_APP_SECRET`
    pub paper_app_secret: Option<String>,
    /// `KOREA_INVESTMENT_PAPER_ACCOUNT_NUMBER`
    pub paper_account_number: Option<String>,
    /// `RUST_LOG`
    pub rust_log: Option<String>,
}

/// A value replaced by an override where one is present.
pub open spec fn overridden(current: String, over: Option<String>) -> String {
    match over {
        Some(v) => v,
        None => current,
    }
}

/// The marker left in the example settings where a credential goes.
pub open spec fn placeholder_marker() -> Seq<char> {
    "YOUR_"@
}

/// Whether a credential is still the example's placeholder.
pub open spec fn is_placeholder(s: String) -> bool {
    contains_spec(s@, placeholder_marker())
}

/// The log levels accepted, in any ASCII case.
pub open spec fn valid_log_level(level: Seq<char>) -> bool {
    ||| eq_ignore_ascii_case_spec(level, "error"@)
    ||| eq_ignore_ascii_case_spec(level, "warn"@)
    ||| eq_ignore_ascii_case_spec(level, "info"@)
    ||| eq_ignore_ascii_case_spec(level, "debug"@)
    ||| eq_ignore_ascii_case_spec(level, "trace"@)
}

/// Whether a ratio in hundredths of a percent lies in (0, 100].
pub open spec fn valid_percent_ratio(r: i64) -> bool {
    0 < r <= 10000
}

/// The rules the settings must meet: a known trading mode, the two ratios in
/// (0, 100] percent, a known log level, and real credentials for the mode
/// that trades with them.
pub open spec fn config_valid(c: Config) -> bool {
    let mode = c.trading.default_mode@;
    let api = c.korea_investment_api;
    &&& mode == "real"@ || mode == "paper"@ || mode == "backtest"@
    &&& valid_percent_ratio(c.trading.stop_loss_ratio)
    &&& valid_percent_ratio(c.risk_management.max_investment_ratio)
    &&& valid_log_level(c.logging.level@)
    &&& mode == "real"@ ==> !(is_placeholder(api.real_app_key) || is_placeholder(api.real_app_secret)
        || is_placeholder(api.real_account_number))
    &&& mode == "paper"@ ==> !(is_placeholder(api.paper_app_key) || is_placeholder(
        api.paper_app_secret,
    ) || is_placeholder(api.paper_account_number))
}

fn validation_error(message: &str) -> (e: ConfigError)
    ensures
        e matches ConfigError::ValidationError(m) && m@ == message@,
{
    ConfigError::ValidationError(message.to_owned())
}

fn has_placeholder(s: &String) -> (r: bool)
    ensures
        r == is_placeholder(*s),
{
    let hay = chars_of(s.as_str());
    let needle = chars_of("YOUR_");
    contains_chars(hay.as_slice(), needle.as_slice())
}

fn is_valid_log_level(level: &String) -> (r: bool)
    ensures
        r == valid_log_level(level@),
{
    let l = chars_of(level.as_str());
    let e = chars_of("error");
    let w = chars_of("warn");
    let i = chars_of("info");
    let d = chars_of("debug");
    let t = chars_of("trace");
    eq_ignore_ascii_case(l.as_slice(), e.as_slice()) || eq_ignore_ascii_case(l.as_slice(), w.as_slice())
        || eq_ignore_ascii_case(l.as_slice(), i.as_slice()) || eq_ignore_ascii_case(
        l.as_slice(),
        d.as_slice(),
    ) || eq_ignore_ascii_case(l.as_slice(), t.as_slice())
}

impl Config {
    /// Replaces each setting that has an environment override.
    pub fn apply_env_overrides(&mut self, env: EnvOverrides)
        ensures
            final(self).database.stock_db_path == overridden(
                old(self).database.stock_db_path,
                env.stock_db_path,
            ),
            final(self).database.daily_db_path == overridden(
                old(self).database.daily_db_path,
                env.daily_db_path,
            ),
            final(self).database.trading_db_path == old(self).database.trading_db_path,
            final(self).onnx_model.model_info_path == overridden(
                old(self).onnx_model.model_info_path,
                env.onnx_model_info_path,
            ),
            final(self).onnx_model.model_file_path == old(self).onnx_model.model_file_path,
            final(self).onnx_model.features_file_path == old(self).onnx_model.features_file_path,
            final(self).onnx_model.extra_stocks_file_path
                == old(self).onnx_model.extra_stocks_file_path,
            final(self).korea_investment_api == (KoreaInvestmentApiConfig {
                real_app_key: overridden(
                    old(self).korea_investment_api.real_app_key,
                    env.real_app_key,
                ),
                real_app_secret: overridden(
                    old(self).korea_investment_api.real_app_secret,
                    env.real_app_secret,
                ),
                real_account_number: overridden(
                    old(self).korea_investment_api.real_account_number,
                    env.real_account_number,
                ),
                paper_app_key: overridden(
                    old(self).korea_investment_api.paper_app_key,
                    env.paper_app_key,
                ),
                paper_app_secret: overridden(
                    old(self).korea_investment_api.paper_app_secret,
                    env.paper_app_secret,
                ),
                paper_account_number: overridden(
                    old(self).korea_investment_api.paper_account_number,
                    env.paper_account_number,
                ),
                ..old(self).korea_investment_api
            }),
            final(self).logging.level == overridden(old(self).logging.level, env.rust_log),
            final(self).logging.file_path == old(self).logging.file_path,
            final(self).logging.max_file_size == old(self).logging.max_file_size,
            final(self).logging.max_files == old(self).logging.max_files,
            final(self).trading == old(self).trading,
            final(self).time_management == old(self).time_management,
            final(self).risk_management == old(self).risk_management,
            final(self).model_prediction == old(self).model_prediction,
            final(self).performance == old(self).performance,
    {
        if let Some(path) = env.stock_db_path {
            self.database.stock_db_path = path;
        }
        if let Some(path) = env.daily_db_path {
            self.database.daily_db_path = path;
        }
        if let Some(path) = env.onnx_model_info_path {
            self.onnx_model.model_info_path = path;
        }
        if let Some(key) = env.real_app_key {
            self.korea_investment_api.real_app_key = key;
        }
        if let Some(secret) = env.real_app_secret {
            self.korea_investment_api.real_app_secret = secret;
        }
        if let Some(account) = env.real_account_number {
            self.korea_investment_api.real_account_number = account;
        }
        if let Some(key) = env.paper_app_key {
            self.korea_investment_api.paper_app_key = key;
        }
        if let Some(secret) = env.paper_app_secret {
            self.korea_investment_api.paper_app_secret = secret;
        }
        if let Some(account) = env.paper_account_number {
            self.korea_investment_api.paper_account_number = account;
        }
        if let Some(level) = env.rust_log {
            self.logging.level = level;
        }
    }

    /// Checks the rules, in order: trading mode, stop-loss ratio, investment
    /// ratio, log level, credentials of the chosen live mode.
    pub fn validate(&self) -> (r: Result<(), ConfigError>)
        ensures
            r is Ok <==> config_valid(*self),
            r matches Err(e) ==> e is ValidationError,
            self.trading.default_mode@ == "real"@ && (contains_spec(
                self.korea_investment_api.real_app_key@,
                "YOUR_"@,
            ) || contains_spec(self.korea_investment_api.real_app_secret@, "YOUR_"@)
                || contains_spec(self.korea_investment_api.real_account_number@, "YOUR_"@))
                ==> r is Err,
            self.trading.default_mode@ == "paper"@ && (contains_spec(
                self.korea_investment_api.paper_app_key@,
                "YOUR_"@,
            ) || contains_spec(self.korea_investment_api.paper_app_secret@, "YOUR_"@)
                || contains_spec(self.korea_investment_api.paper_account_number@, "YOUR_"@))
                ==> r is Err,
            self.trading.default_mode@ == "real"@ && valid_percent_ratio(
                self.trading.stop_loss_ratio,
            ) && valid_percent_ratio(self.risk_management.max_investment_ratio)
                && valid_log_level(self.logging.level@) && contains_spec(
                self.korea_investment_api.real_account_number@,
                "YOUR_"@,
            ) ==> (r matches Err(ConfigError::ValidationError(m)) && m@
                == "실제 거래 모드에서는 유효한 실제 거래 API 키가 필요합니다"@),
    {
        let mode = self.trading.default_mode.as_str();
        let is_real = str_equals(mode, "real");
        let is_paper = str_equals(mode, "paper");
        let is_backtest = str_equals(mode, "backtest");
        if !(is_real || is_paper || is_backtest) {
            return Err(validation_error("default_mode는 'real', 'paper', 'backtest' 중 하나여야 합니다"));
        }
        if self.trading.stop_loss_ratio <= 0 || self.trading.stop_loss_ratio > 10000 {
            return Err(validation_error("stop_loss_ratio는 0~100 사이여야 합니다"));
        }
        if self.risk_management.max_investment_ratio <= 0
            || self.risk_management.max_investment_ratio > 10000 {
            return Err(validation_error("max_investment_ratio는 0~100 사이여야 합니다"));
        }
        if !is_valid_log_level(&self.logging.level) {
            return Err(
                validation_error(
                    "log level은 'error', 'warn', 'info', 'debug', 'trace' 중 하나여야 합니다",
                ),
            );
        }
        let api = &self.korea_investment_api;
        if is_real {
            if has_placeholder(&api.real_app_key) || has_placeholder(&api.real_app_secret)
                || has_placeholder(&api.real_account_number) {
                return Err(validation_error("실제 거래 모드에서는 유효한 실제 거래 API 키가 필요합니다"));
            }
        }
        if is_paper {
            if has_placeholder(&api.paper_app_key) || has_placeholder(&api.paper_app_secret)
                || has_placeholder(&api.paper_account_number) {
                return Err(validation_error("모의투자 모드에서는 유효한 모의투자 API 키가 필요합니다"));
            }
        }
        Ok(())
    }
}

} // verus!
