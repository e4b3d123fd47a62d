use vstd::prelude::*;

verus! {

/// A condition that ends the process. Each carries the detail that the failed
/// operation reported.
#[derive(Debug, Clone)]
pub enum FatalError {
    /// The configuration file could not be read.
    ConfigRead(String),
    /// The configuration file is not a valid configuration.
    ConfigParse(String),
    /// The first connection to the broker failed.
    MqttConnect(String),
    /// The instrument could not be reached at startup.
    InstrumentConnect(String),
    /// The outbound channel is closed: the session task has exited.
    ChannelClosed(String),
}

/// The mathematical counterpart of `FatalError`.
pub enum FatalView {
    ConfigRead(Seq<char>),
    ConfigParse(Seq<char>),
    MqttConnect(Seq<char>),
    InstrumentConnect(Seq<char>),
    ChannelClosed(Seq<char>),
}

impl View for FatalError {
    type V = FatalView;

    open spec fn view(&self) -> FatalView {
        match self {
            FatalError::ConfigRead(d) => FatalView::ConfigRead(d@),
            FatalError::ConfigParse(d) => FatalView::ConfigParse(d@),
            FatalError::MqttConnect(d) => FatalView::MqttConnect(d@),
            FatalError::InstrumentConnect(d) => FatalView::InstrumentConnect(d@),
            FatalError::ChannelClosed(d) => FatalView::ChannelClosed(d@),
        }
    }
}

/// The status with which the process ends on any fatal condition.
pub const FATAL_EXIT_CODE: i32 = 1_i32;

/// The one line printed before the process ends. A failed broker connection
/// prints a fixed line; a closed channel prints the channel's own words.
pub open spec fn diagnostic_of(e: FatalView) -> Seq<char> {
    match e {
        FatalView::ConfigRead(d) => "Can't read config file: "@ + d,
        FatalView::ConfigParse(d) => "Couldn't deserialize AppConfig: "@ + d,
        FatalView::MqttConnect(_) => "Couldn't create mqtt connection object: {e}"@,
        FatalView::InstrumentConnect(d) => "Can't connect to unit.: "@ + d,
        FatalView::ChannelClosed(d) => d,
    }
}

impl FatalError {
    /// The process exit status for this condition.
    pub fn exit_code(&self) -> (code: i32)
        ensures
            code == FATAL_EXIT_CODE,
    {
        FATAL_EXIT_CODE
    }

    /// The diagnostic line for this condition.
    pub fn diagnostic(&self) -> (line: String)
        ensures
            line@ == diagnostic_of(self@),
    {
        match self {
            FatalError::ConfigRead(d) => String::from_str("Can't read config file: ").concat(
                d.as_str(),
            ),
            FatalError::ConfigParse(d) => String::from_str(
                "Couldn't deserialize AppConfig: ",
            ).concat(d.as_str()),
            FatalError::MqttConnect(_) => String::from_str(
                "Couldn't create mqtt connection object: {e}",
            ),
            FatalError::InstrumentConnect(d) => String::from_str(
                "Can't connect to unit.: ",
            ).concat(d.as_str()),
            FatalError::ChannelClosed(d) => d.clone(),
        }
    }

    /// A copy of this condition.
    pub fn duplicate(&self) -> (copy: FatalError)
        ensures
            copy@ == self@,
    {
        match self {
            FatalError::ConfigRead(d) => FatalError::ConfigRead(d.clone()),
            FatalError::ConfigParse(d) => FatalError::ConfigParse(d.clone()),
            FatalError::MqttConnect(d) => FatalError::MqttConnect(d.clone()),
            FatalError::InstrumentConnect(d) => FatalError::InstrumentConnect(d.clone()),
            FatalError::ChannelClosed(d) => FatalError::ChannelClosed(d.clone()),
        }
    }
}

} // verus!
