use vstd::prelude::*;
use vstd::string::*;

verus! {

/// The log levels a logger request may ask for.
#[derive(Clone, Copy, Debug, PartialEq, Eq, Structural)]
pub enum APILoggerLevel {
    Error,
    Warning,
    Info,
    Debug,
}

/// A request to set up logging: the two pipes and the optional settings.
#[derive(Clone, Debug)]
pub struct APILoggerDescription {
    pub log_fifo: String,
    pub metrics_fifo: String,
    pub level: Option<APILoggerLevel>,
    pub show_level: Option<bool>,
    pub show_log_origin: Option<bool>,
}

/// Why logging could not be set up.
#[derive(Debug)]
pub enum APILoggerError {
    InitializationFailure(String),
}

/// The status code of a refused request.
pub const STATUS_BAD_REQUEST: u16 = 400;

/// A refusal as the API reports it: a status code and a fault message.
#[derive(Debug)]
pub struct FaultResponse {
    pub status: u16,
    pub fault_message: String,
}

pub const LOGGER_FAULT_PREFIX: &'static str = "Cannot initialize logging system! ";

impl APILoggerError {
    /// A bad-request response whose message gives the cause.
    pub fn generate_response(&self) -> (r: FaultResponse)
        ensures
            r.status == STATUS_BAD_REQUEST,
            self matches APILoggerError::InitializationFailure(e) && r.fault_message@
                == LOGGER_FAULT_PREFIX@ + e@,
    {
        match self {
            APILoggerError::InitializationFailure(e) => FaultResponse {
                status: STATUS_BAD_REQUEST,
                fault_message: String::from_str(LOGGER_FAULT_PREFIX).concat(e.as_str()),
            },
        }
    }
}

/// The levels of the logger itself.
#[derive(Clone, Copy, Debug, PartialEq, Eq, Structural)]
pub enum Level {
    Error,
    Warn,
    Info,
    Debug,
}

pub open spec fn level_of(l: APILoggerLevel) -> Level {
    match l {
        APILoggerLevel::Error => Level::Error,
        APILoggerLevel::Warning => Level::Warn,
        APILoggerLevel::Info => Level::Info,
        APILoggerLevel::Debug => Level::Debug,
    }
}

pub fn to_level(l: APILoggerLevel) -> (r: Level)
    ensures
        r == level_of(l),
{
    match l {
        APILoggerLevel::Error => Level::Error,
        APILoggerLevel::Warning => Level::Warn,
        APILoggerLevel::Info => Level::Info,
        APILoggerLevel::Debug => Level::Debug,
    }
}

/// What the logger is to be set to: the level, whether lines show their
/// origin and their level, and where logs and metrics go.
#[derive(Debug)]
pub struct LoggerSettings {
    pub level: Option<Level>,
    pub include_origin: Option<bool>,
    pub include_level: Option<bool>,
    pub instance_id: String,
    pub log_fifo: String,
    pub metrics_fifo: String,
}

} // verus!
