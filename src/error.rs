use vstd::prelude::*;

verus! {

/// The error kinds of the scraping service; each carries a human-readable detail.
#[derive(Debug, Clone)]
pub enum ScrapingError {
    NetworkError(String),
    BrowserError(String),
    ParseError(String),
    StorageError(String),
    ConfigError(String),
    ResourceLimit(String),
    AgentError(String),
    TUIError(String),
}

/// What a supervisor is advised to do about an error of a given kind.
#[derive(Debug, Clone, Copy, PartialEq, Eq, Structural)]
pub enum RecoveryStrategy {
    RetryWithBackoff,
    RestartBrowser,
    LogAndContinue,
    SwitchStorage,
    ReloadConfig,
    StopAgent,
}

/// The strategy table: one entry per error kind, so a new kind cannot be added
/// without deciding how to recover from it.
pub open spec fn strategy_for(e: ScrapingError) -> RecoveryStrategy {
    match e {
        ScrapingError::NetworkError(_) => RecoveryStrategy::RetryWithBackoff,
        ScrapingError::BrowserError(_) => RecoveryStrategy::RestartBrowser,
        ScrapingError::ParseError(_) => RecoveryStrategy::LogAndContinue,
        ScrapingError::StorageError(_) => RecoveryStrategy::SwitchStorage,
        ScrapingError::ConfigError(_) => RecoveryStrategy::ReloadConfig,
        ScrapingError::ResourceLimit(_) => RecoveryStrategy::StopAgent,
        ScrapingError::AgentError(_) => RecoveryStrategy::RestartBrowser,
        ScrapingError::TUIError(_) => RecoveryStrategy::LogAndContinue,
    }
}

/// The detail text an error carries.
pub open spec fn detail_of(e: ScrapingError) -> Seq<char> {
    match e {
        ScrapingError::NetworkError(m) => m@,
        ScrapingError::BrowserError(m) => m@,
        ScrapingError::ParseError(m) => m@,
        ScrapingError::StorageError(m) => m@,
        ScrapingError::ConfigError(m) => m@,
        ScrapingError::ResourceLimit(m) => m@,
        ScrapingError::AgentError(m) => m@,
        ScrapingError::TUIError(m) => m@,
    }
}

/// The label that introduces an error of each kind in its rendered form.
pub open spec fn label_of(e: ScrapingError) -> Seq<char> {
    match e {
        ScrapingError::NetworkError(_) => "Network error: "@,
        ScrapingError::BrowserError(_) => "Browser error: "@,
        ScrapingError::ParseError(_) => "Parse error: "@,
        ScrapingError::StorageError(_) => "Storage error: "@,
        ScrapingError::ConfigError(_) => "Configuration error: "@,
        ScrapingError::ResourceLimit(_) => "Resource limit reached: "@,
        ScrapingError::AgentError(_) => "Agent error: "@,
        ScrapingError::TUIError(_) => "TUI error: "@,
    }
}

/// The error as people read it: its kind's label followed by its detail.
pub open spec fn rendered(e: ScrapingError) -> Seq<char> {
    label_of(e) + detail_of(e)
}

impl ScrapingError {
    /// The recovery strategy advised for this error.
    pub fn recovery_strategy(&self) -> (r: RecoveryStrategy)
        ensures
            r == strategy_for(*self),
    {
        match self {
            ScrapingError::NetworkError(_) => RecoveryStrategy::RetryWithBackoff,
            ScrapingError::BrowserError(_) => RecoveryStrategy::RestartBrowser,
            ScrapingError::ParseError(_) => RecoveryStrategy::LogAndContinue,
            ScrapingError::StorageError(_) => RecoveryStrategy::SwitchStorage,
            ScrapingError::ConfigError(_) => RecoveryStrategy::ReloadConfig,
            ScrapingError::ResourceLimit(_) => RecoveryStrategy::StopAgent,
            ScrapingError::AgentError(_) => RecoveryStrategy::RestartBrowser,
            ScrapingError::TUIError(_) => RecoveryStrategy::LogAndContinue,
        }
    }

    /// The error rendered for people: its kind's label followed by its detail.
    pub fn to_string(&self) -> (r: String)
        ensures
            r@ == rendered(*self),
    {
        let (label, detail) = match self {
            ScrapingError::NetworkError(m) => ("Network error: ", m),
            ScrapingError::BrowserError(m) => ("Browser error: ", m),
            ScrapingError::ParseError(m) => ("Parse error: ", m),
            ScrapingError::StorageError(m) => ("Storage error: ", m),
            ScrapingError::ConfigError(m) => ("Configuration error: ", m),
            ScrapingError::ResourceLimit(m) => ("Resource limit reached: ", m),
            ScrapingError::AgentError(m) => ("Agent error: ", m),
            ScrapingError::TUIError(m) => ("TUI error: ", m),
        };
        String::from_str(label).concat(detail.as_str())
    }

    /// Whether this is a browser-level failure, after which a browser session is
    /// assumed compromised.
    pub fn is_browser_error(&self) -> (r: bool)
        ensures
            r == (*self is BrowserError),
    {
        match self {
            ScrapingError::BrowserError(_) => true,
            _ => false,
        }
    }
}

} // verus!
