//! The vocabulary shared with the host: small closed sets of numeric codes.
//!
//! Both sides of the boundary agree on these values bit for bit, so every
//! enumeration comes with its code and with the inverse that recognises a
//! code received from the host.

use vstd::prelude::*;

verus! {

/// An owned byte buffer.
pub type Bytes = Vec<u8>;

/// Severity of a message handed to the host's log.
#[derive(Clone, Copy, Debug, PartialEq, Eq, Hash, Structural)]
pub enum LogLevel {
    Trace,
    Debug,
    Info,
    Warn,
    Error,
    Critical,
}

impl LogLevel {
    /// The number that stands for this value at the boundary.
    pub open spec fn spec_code(self) -> u32 {
        match self {
            LogLevel::Trace => 0,
            LogLevel::Debug => 1,
            LogLevel::Info => 2,
            LogLevel::Warn => 3,
            LogLevel::Error => 4,
            LogLevel::Critical => 5,
        }
    }

    #[verifier::when_used_as_spec(spec_code)]
    pub fn code(self) -> (code: u32)
        ensures
            code == self.spec_code(),
    {
        match self {
            LogLevel::Trace => 0,
            LogLevel::Debug => 1,
            LogLevel::Info => 2,
            LogLevel::Warn => 3,
            LogLevel::Error => 4,
            LogLevel::Critical => 5,
        }
    }

    /// The value that a code stands for, if it stands for one.
    pub open spec fn spec_from_code(code: u32) -> Option<LogLevel> {
        if code == 0 {
            Some(LogLevel::Trace)
        } else if code == 1 {
            Some(LogLevel::Debug)
        } else if code == 2 {
            Some(LogLevel::Info)
        } else if code == 3 {
            Some(LogLevel::Warn)
        } else if code == 4 {
            Some(LogLevel::Error)
        } else if code == 5 {
            Some(LogLevel::Critical)
        } else {
            None
        }
    }

    #[verifier::when_used_as_spec(spec_from_code)]
    pub fn from_code(code: u32) -> (level: Option<LogLevel>)
        ensures
            level == Self::spec_from_code(code),
    {
        match code {
            0 => Some(LogLevel::Trace),
            1 => Some(LogLevel::Debug),
            2 => Some(LogLevel::Info),
            3 => Some(LogLevel::Warn),
            4 => Some(LogLevel::Error),
            5 => Some(LogLevel::Critical),
            _ => None,
        }
    }
}

/// Reading back the code of a value gives that value: no two values of
/// `LogLevel` share a code.
pub proof fn lemma_log_level_code_round_trip(level: LogLevel)
    ensures
        LogLevel::spec_from_code(level.spec_code()) == Some(level),
{
}

/// A code that is recognised is the code of the value it is recognised as.
pub proof fn lemma_log_level_code_recognised(code: u32)
    ensures
        LogLevel::spec_from_code(code) matches Some(level) ==> level.spec_code() == code,
{
}

/// Outcome that the host reports for an imported call.
#[derive(Clone, Copy, Debug, PartialEq, Eq, Hash, Structural)]
pub enum Status {
    Success,
    NotFound,
    BadArgument,
    ParseFailure,
    Empty,
    CasMismatch,
    InternalFailure,
}

impl Status {
    /// The number that stands for this value at the boundary.
    pub open spec fn spec_code(self) -> u32 {
        match self {
            Status::Success => 0,
            Status::NotFound => 1,
            Status::BadArgument => 2,
            Status::ParseFailure => 4,
            Status::Empty => 7,
            Status::CasMismatch => 8,
            Status::InternalFailure => 10,
        }
    }

    #[verifier::when_used_as_spec(spec_code)]
    pub fn code(self) -> (code: u32)
        ensures
            code == self.spec_code(),
    {
        match self {
            Status::Success => 0,
            Status::NotFound => 1,
            Status::BadArgument => 2,
            Status::ParseFailure => 4,
            Status::Empty => 7,
            Status::CasMismatch => 8,
            Status::InternalFailure => 10,
        }
    }

    /// The value that a code stands for, if it stands for one.
    pub open spec fn spec_from_code(code: u32) -> Option<Status> {
        if code == 0 {
            Some(Status::Success)
        } else if code == 1 {
            Some(Status::NotFound)
        } else if code == 2 {
            Some(Status::BadArgument)
        } else if code == 4 {
            Some(Status::ParseFailure)
        } else if code == 7 {
            Some(Status::Empty)
        } else if code == 8 {
            Some(Status::CasMismatch)
        } else if code == 10 {
            Some(Status::InternalFailure)
        } else {
            None
        }
    }

    #[verifier::when_used_as_spec(spec_from_code)]
    pub fn from_code(code: u32) -> (status: Option<Status>)
        ensures
            status == Self::spec_from_code(code),
    {
        match code {
            0 => Some(Status::Success),
            1 => Some(Status::NotFound),
            2 => Some(Status::BadArgument),
            4 => Some(Status::ParseFailure),
            7 => Some(Status::Empty),
            8 => Some(Status::CasMismatch),
            10 => Some(Status::InternalFailure),
            _ => None,
        }
    }
}

/// Reading back the code of a value gives that value: no two values of
/// `Status` share a code.
pub proof fn lemma_status_code_round_trip(status: Status)
    ensures
        Status::spec_from_code(status.spec_code()) == Some(status),
{
}

/// A code that is recognised is the code of the value it is recognised as.
pub proof fn lemma_status_code_recognised(code: u32)
    ensures
        Status::spec_from_code(code) matches Some(status) ==> status.spec_code() == code,
{
}

/// Verdict of a stream callback: let the exchange proceed, or hold it.
#[derive(Clone, Copy, Debug, PartialEq, Eq, Hash, Structural)]
pub enum Action {
    Continue,
    Pause,
}

impl Action {
    /// The number that stands for this value at the boundary.
    pub open spec fn spec_code(self) -> u32 {
        match self {
            Action::Continue => 0,
            Action::Pause => 1,
        }
    }

    #[verifier::when_used_as_spec(spec_code)]
    pub fn code(self) -> (code: u32)
        ensures
            code == self.spec_code(),
    {
        match self {
            Action::Continue => 0,
            Action::Pause => 1,
        }
    }

    /// The value that a code stands for, if it stands for one.
    pub open spec fn spec_from_code(code: u32) -> Option<Action> {
        if code == 0 {
            Some(Action::Continue)
        } else if code == 1 {
            Some(Action::Pause)
        } else {
            None
        }
    }

    #[verifier::when_used_as_spec(spec_from_code)]
    pub fn from_code(code: u32) -> (action: Option<Action>)
        ensures
            action == Self::spec_from_code(code),
    {
        match code {
            0 => Some(Action::Continue),
            1 => Some(Action::Pause),
            _ => None,
        }
    }
}

/// Reading back the code of a value gives that value: no two values of
/// `Action` share a code.
pub proof fn lemma_action_code_round_trip(action: Action)
    ensures
        Action::spec_from_code(action.spec_code()) == Some(action),
{
}

/// A code that is recognised is the code of the value it is recognised as.
pub proof fn lemma_action_code_recognised(code: u32)
    ensures
        Action::spec_from_code(code) matches Some(action) ==> action.spec_code() == code,
{
}

/// Kind of child context that a root context produces.
#[derive(Clone, Copy, Debug, PartialEq, Eq, Hash, Structural)]
pub enum ContextType {
    HttpContext,
}

impl ContextType {
    /// The number that stands for this value at the boundary.
    pub open spec fn spec_code(self) -> u32 {
        match self {
            ContextType::HttpContext => 0,
        }
    }

    #[verifier::when_used_as_spec(spec_code)]
    pub fn code(self) -> (code: u32)
        ensures
            code == self.spec_code(),
    {
        match self {
            ContextType::HttpContext => 0,
        }
    }

    /// The value that a code stands for, if it stands for one.
    pub open spec fn spec_from_code(code: u32) -> Option<ContextType> {
        if code == 0 {
            Some(ContextType::HttpContext)
        } else {
            None
        }
    }

    #[verifier::when_used_as_spec(spec_from_code)]
    pub fn from_code(code: u32) -> (kind: Option<ContextType>)
        ensures
            kind == Self::spec_from_code(code),
    {
        match code {
            0 => Some(ContextType::HttpContext),
            _ => None,
        }
    }
}

/// Reading back the code of a value gives that value: no two values of
/// `ContextType` share a code.
pub proof fn lemma_context_type_code_round_trip(kind: ContextType)
    ensures
        ContextType::spec_from_code(kind.spec_code()) == Some(kind),
{
}

/// A code that is recognised is the code of the value it is recognised as.
pub proof fn lemma_context_type_code_recognised(code: u32)
    ensures
        ContextType::spec_from_code(code) matches Some(kind) ==> kind.spec_code() == code,
{
}

/// Selector of the host-side buffer that a call reads or writes.
#[derive(Clone, Copy, Debug, PartialEq, Eq, Hash, Structural)]
pub enum BufferType {
    HttpRequestBody,
    HttpResponseBody,
    DownstreamData,
    UpstreamData,
    HttpCallResponseBody,
    GrpcReceiveBuffer,
    BufferTypeCallData,
}

impl BufferType {
    /// The number that stands for this value at the boundary.
    pub open spec fn spec_code(self) -> u32 {
        match self {
            BufferType::HttpRequestBody => 0,
            BufferType::HttpResponseBody => 1,
            BufferType::DownstreamData => 2,
            BufferType::UpstreamData => 3,
            BufferType::HttpCallResponseBody => 4,
            BufferType::GrpcReceiveBuffer => 5,
            BufferType::BufferTypeCallData => 8,
        }
    }

    #[verifier::when_used_as_spec(spec_code)]
    pub fn code(self) -> (code: u32)
        ensures
            code == self.spec_code(),
    {
        match self {
            BufferType::HttpRequestBody => 0,
            BufferType::HttpResponseBody => 1,
            BufferType::DownstreamData => 2,
            BufferType::UpstreamData => 3,
            BufferType::HttpCallResponseBody => 4,
            BufferType::GrpcReceiveBuffer => 5,
            BufferType::BufferTypeCallData => 8,
        }
    }

    /// The value that a code stands for, if it stands for one.
    pub open spec fn spec_from_code(code: u32) -> Option<BufferType> {
        if code == 0 {
            Some(BufferType::HttpRequestBody)
        } else if code == 1 {
            Some(BufferType::HttpResponseBody)
        } else if code == 2 {
            Some(BufferType::DownstreamData)
        } else if code == 3 {
            Some(BufferType::UpstreamData)
        } else if code == 4 {
            Some(BufferType::HttpCallResponseBody)
        } else if code == 5 {
            Some(BufferType::GrpcReceiveBuffer)
        } else if code == 8 {
            Some(BufferType::BufferTypeCallData)
        } else {
            None
        }
    }

    #[verifier::when_used_as_spec(spec_from_code)]
    pub fn from_code(code: u32) -> (buffer: Option<BufferType>)
        ensures
            buffer == Self::spec_from_code(code),
    {
        match code {
            0 => Some(BufferType::HttpRequestBody),
            1 => Some(BufferType::HttpResponseBody),
            2 => Some(BufferType::DownstreamData),
            3 => Some(BufferType::UpstreamData),
            4 => Some(BufferType::HttpCallResponseBody),
            5 => Some(BufferType::GrpcReceiveBuffer),
            8 => Some(BufferType::BufferTypeCallData),
            _ => None,
        }
    }
}

/// Reading back the code of a value gives that value: no two values of
/// `BufferType` share a code.
pub proof fn lemma_buffer_type_code_round_trip(buffer: BufferType)
    ensures
        BufferType::spec_from_code(buffer.spec_code()) == Some(buffer),
{
}

/// A code that is recognised is the code of the value it is recognised as.
pub proof fn lemma_buffer_type_code_recognised(code: u32)
    ensures
        BufferType::spec_from_code(code) matches Some(buffer) ==> buffer.spec_code() == code,
{
}

/// Selector of the host-side key-value map that a call reads.
#[derive(Clone, Copy, Debug, PartialEq, Eq, Hash, Structural)]
pub enum MapType {
    HttpRequestHeaders,
    HttpRequestTrailers,
    HttpResponseHeaders,
    HttpResponseTrailers,
    GrpcReceiveInitialMetadata,
    GrpcReceiveTrailingMetadata,
    HttpCallResponseHeaders,
    HttpCallResponseTrailers,
}

impl MapType {
    /// The number that stands for this value at the boundary.
    pub open spec fn spec_code(self) -> u32 {
        match self {
            MapType::HttpRequestHeaders => 0,
            MapType::HttpRequestTrailers => 1,
            MapType::HttpResponseHeaders => 2,
            MapType::HttpResponseTrailers => 3,
            MapType::GrpcReceiveInitialMetadata => 4,
            MapType::GrpcReceiveTrailingMetadata => 5,
            MapType::HttpCallResponseHeaders => 6,
            MapType::HttpCallResponseTrailers => 7,
        }
    }

    #[verifier::when_used_as_spec(spec_code)]
    pub fn code(self) -> (code: u32)
        ensures
            code == self.spec_code(),
    {
        match self {
            MapType::HttpRequestHeaders => 0,
            MapType::HttpRequestTrailers => 1,
            MapType::HttpResponseHeaders => 2,
            MapType::HttpResponseTrailers => 3,
            MapType::GrpcReceiveInitialMetadata => 4,
            MapType::GrpcReceiveTrailingMetadata => 5,
            MapType::HttpCallResponseHeaders => 6,
            MapType::HttpCallResponseTrailers => 7,
        }
    }

    /// The value that a code stands for, if it stands for one.
    pub open spec fn spec_from_code(code: u32) -> Option<MapType> {
        if code == 0 {
            Some(MapType::HttpRequestHeaders)
        } else if code == 1 {
            Some(MapType::HttpRequestTrailers)
        } else if code == 2 {
            Some(MapType::HttpResponseHeaders)
        } else if code == 3 {
            Some(MapType::HttpResponseTrailers)
        } else if code == 4 {
            Some(MapType::GrpcReceiveInitialMetadata)
        } else if code == 5 {
            Some(MapType::GrpcReceiveTrailingMetadata)
        } else if code == 6 {
            Some(MapType::HttpCallResponseHeaders)
        } else if code == 7 {
            Some(MapType::HttpCallResponseTrailers)
        } else {
            None
        }
    }

    #[verifier::when_used_as_spec(spec_from_code)]
    pub fn from_code(code: u32) -> (map: Option<MapType>)
        ensures
            map == Self::spec_from_code(code),
    {
        match code {
            0 => Some(MapType::HttpRequestHeaders),
            1 => Some(MapType::HttpRequestTrailers),
            2 => Some(MapType::HttpResponseHeaders),
            3 => Some(MapType::HttpResponseTrailers),
            4 => Some(MapType::GrpcReceiveInitialMetadata),
            5 => Some(MapType::GrpcReceiveTrailingMetadata),
            6 => Some(MapType::HttpCallResponseHeaders),
            7 => Some(MapType::HttpCallResponseTrailers),
            _ => None,
        }
    }
}

/// Reading back the code of a value gives that value: no two values of
/// `MapType` share a code.
pub proof fn lemma_map_type_code_round_trip(map: MapType)
    ensures
        MapType::spec_from_code(map.spec_code()) == Some(map),
{
}

/// A code that is recognised is the code of the value it is recognised as.
pub proof fn lemma_map_type_code_recognised(code: u32)
    ensures
        MapType::spec_from_code(code) matches Some(map) ==> map.spec_code() == code,
{
}

} // verus!
