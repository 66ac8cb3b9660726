//! The stored configuration: what is stored, what stands in for a store that
//! is missing or broken, and which failure each mishap is.
//!
//! Reading and writing the store is the caller's part. It tells these
//! functions what it found, and stores what they hand back.

use vstd::prelude::*;
use crate::config::{StockConfig, StockConfigView};
use crate::error::AppError;

verus! {

/// A stored document as it is read: the configuration, and, where the
/// document holds it, when it was stored last, in seconds since the Unix
/// epoch. What is stored anew is the configuration alone.
#[derive(Debug)]
pub struct AppConfig {
    pub stock_config: StockConfig,
    pub last_updated: Option<u64>,
}

/// An `AppConfig` by its contents.
pub struct AppConfigView {
    pub stock_config: StockConfigView,
    pub last_updated: Option<u64>,
}

impl View for AppConfig {
    type V = AppConfigView;

    open spec fn view(&self) -> AppConfigView {
        AppConfigView { stock_config: self.stock_config@, last_updated: self.last_updated }
    }
}

/// The symbols tracked when nothing is stored.
pub open spec fn default_symbols() -> Seq<Seq<char>> {
    seq![
        "PLTR"@,
        "NBIS"@,
        "GOOGL"@,
        "NVDA"@,
        "MSFT"@,
        "TSLA"@,
        "SLDP"@,
        "IREN"@,
    ]
}

/// The configuration in use when nothing is stored: eight preset symbols over
/// 90 days.
pub open spec fn default_stock_config() -> StockConfigView {
    StockConfigView { symbols: default_symbols(), analysis_period_days: 90 }
}

/// The document that stands in for a missing store: the default
/// configuration, never stored.
pub open spec fn default_app_config() -> AppConfigView {
    AppConfigView { stock_config: default_stock_config(), last_updated: None }
}

impl Default for AppConfig {
    fn default() -> (config: Self)
        ensures
            config@ == default_app_config(),
    {
        let mut symbols: Vec<String> = Vec::new();
        symbols.push("PLTR".to_owned());
        symbols.push("NBIS".to_owned());
        symbols.push("GOOGL".to_owned());
        symbols.push("NVDA".to_owned());
        symbols.push("MSFT".to_owned());
        symbols.push("TSLA".to_owned());
        symbols.push("SLDP".to_owned());
        symbols.push("IREN".to_owned());
        let config = AppConfig {
            stock_config: StockConfig { symbols, analysis_period_days: 90 },
            last_updated: None,
        };
        assert(config@.stock_config.symbols =~= default_symbols());
        config
    }
}

/// What the caller found where the document is stored.
#[derive(Debug)]
pub enum StoredConfig {
    /// There is no stored document.
    Missing,
    /// There is one, and it could not be read: the words of the failure.
    Unreadable(String),
    /// It was read, and it is not a configuration document: the words of the failure.
    Malformed(String),
    /// The stored document.
    Found(AppConfig),
}

/// How an attempt to store a document ended.
#[derive(Debug)]
pub enum StoreOutcome {
    /// The document is stored.
    Stored,
    /// The document could not be put into words: the words of the failure.
    Unwritable(String),
    /// The store refused the write: the words of the failure.
    Refused(String),
}

/// Where the document is stored, and the policy around it.
#[derive(Debug)]
pub struct PersistenceManager {
    pub config_dir: String,
    pub config_file: String,
}

impl PersistenceManager {
    /// A manager for the document `config_file` in the directory `config_dir`.
    pub fn new(config_dir: String, config_file: String) -> (manager: Self)
        ensures
            manager.config_dir == config_dir,
            manager.config_file == config_file,
    {
        PersistenceManager { config_dir, config_file }
    }

    /// The document to work with, given what was found: the stored one; the
    /// default where none is stored; a failure where one is stored and cannot
    /// be read or understood.
    pub fn load_config(&self, stored: StoredConfig) -> (r: Result<AppConfig, AppError>)
        ensures
            match stored {
                StoredConfig::Missing => r is Ok && r->Ok_0@ == default_app_config(),
                StoredConfig::Unreadable(why) => r == Err::<AppConfig, AppError>(
                    AppError::ConfigReadError(why),
                ),
                StoredConfig::Malformed(why) => r == Err::<AppConfig, AppError>(
                    AppError::ConfigParseError(why),
                ),
                StoredConfig::Found(config) => r == Ok::<AppConfig, AppError>(config),
            },
    {
        match stored {
            StoredConfig::Missing => Ok(AppConfig::default()),
            StoredConfig::Unreadable(why) => Err(AppError::ConfigReadError(why)),
            StoredConfig::Malformed(why) => Err(AppError::ConfigParseError(why)),
            StoredConfig::Found(config) => Ok(config),
        }
    }

    /// How a save ended, as the caller of the save sees it. A document that
    /// could not be put into words is a parse failure; a write that the store
    /// refused is an I/O failure.
    pub fn save_config(&self, outcome: StoreOutcome) -> (r: Result<(), AppError>)
        ensures
            match outcome {
                StoreOutcome::Stored => r is Ok,
                StoreOutcome::Unwritable(why) => r == Err::<(), AppError>(
                    AppError::ConfigParseError(why),
                ),
                StoreOutcome::Refused(why) => r == Err::<(), AppError>(AppError::Io(why)),
            },
    {
        match outcome {
            StoreOutcome::Stored => Ok(()),
            StoreOutcome::Unwritable(why) => Err(AppError::ConfigParseError(why)),
            StoreOutcome::Refused(why) => Err(AppError::Io(why)),
        }
    }

    /// The document to store for `stock_config`: the configuration itself,
    /// its symbols in their order and its period, and nothing besides.
    pub fn save_stock_config(&self, stock_config: &StockConfig) -> (document: StockConfig)
        ensures
            document@ == stock_config@,
    {
        stock_config.clone()
    }

    /// The configuration to run with, given what was found: that of the
    /// stored document, and the default in every other case. It never fails.
    pub fn get_stock_config(&self, stored: StoredConfig) -> (r: Result<StockConfig, AppError>)
        ensures
            r is Ok,
            match stored {
                StoredConfig::Found(config) => r->Ok_0 == config.stock_config,
                _ => r->Ok_0@ == default_stock_config(),
            },
    {
        match self.load_config(stored) {
            Ok(config) => Ok(config.stock_config),
            Err(_) => Ok(AppConfig::default().stock_config),
        }
    }
}

} // verus!
