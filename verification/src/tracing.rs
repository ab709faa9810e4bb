//! Start of the process-wide log output, which can be started once.
use vstd::prelude::*;
use vstd::utf8::*;
use crate::cstr::{decode, InvalidText};

verus! {

/// Whether the log output of this process has been started.
#[derive(Debug)]
pub struct TracingState {
    initialized: bool,
}

/// Why the log output was not started.
#[derive(Clone, Copy, Debug, PartialEq, Eq, Structural)]
pub enum TracingErrorKind {
    /// The log output runs already.
    AlreadyInitialized,
    /// No path was given.
    NullPath,
    /// The path is not valid UTF-8.
    InvalidPath,
    /// The log file could not be opened.
    OpenFailed,
}

/// The failure to start the log output, with what is needed for its message.
#[derive(Debug)]
pub enum TracingError {
    AlreadyInitialized,
    NullPath,
    InvalidPath(InvalidText),
    /// Holds what the operating system said when the file was not opened.
    OpenFailed(String),
}

impl TracingError {
    /// Which of the failures this is.
    pub open spec fn kind(&self) -> TracingErrorKind {
        match self {
            TracingError::AlreadyInitialized => TracingErrorKind::AlreadyInitialized,
            TracingError::NullPath => TracingErrorKind::NullPath,
            TracingError::InvalidPath(_) => TracingErrorKind::InvalidPath,
            TracingError::OpenFailed(_) => TracingErrorKind::OpenFailed,
        }
    }

    /// What the failure says of itself.
    pub fn message(&self) -> (msg: String)
        ensures
            match self {
                TracingError::AlreadyInitialized => msg@ == "tracing is already initialized"@,
                TracingError::NullPath => msg@ == "path of the log file is null"@,
                TracingError::InvalidPath(cause) => {
                    vstd::string::to_string_from_display_ensures::<core::str::Utf8Error>(
                        &cause.0,
                        msg,
                    )
                },
                TracingError::OpenFailed(reason) => msg@ == reason@,
            },
    {
        match self {
            TracingError::AlreadyInitialized => "tracing is already initialized".to_owned(),
            TracingError::NullPath => "path of the log file is null".to_owned(),
            TracingError::InvalidPath(cause) => cause.message(),
            TracingError::OpenFailed(reason) => reason.clone(),
        }
    }
}

impl TracingState {
    /// Whether the log output has been started.
    pub closed spec fn is_initialized(&self) -> bool {
        self.initialized
    }

    /// The state of a process that has not started its log output.
    pub fn new() -> (state: TracingState)
        ensures
            !state.is_initialized(),
    {
        TracingState { initialized: false }
    }

    /// Tells whether the log output has been started.
    pub fn initialized(&self) -> (started: bool)
        ensures
            started == self.is_initialized(),
    {
        self.initialized
    }
}

/// Starts the log output to the default destination. `Ok` tells the caller
/// to install the output; it comes the first time only. Every later call is
/// refused and nothing is to be installed.
pub fn AUTDLinkSOEMTracingInit(state: &mut TracingState) -> (r: Result<(), TracingError>)
    ensures
        r is Ok <==> !old(state).is_initialized(),
        r matches Err(e) ==> e.kind() == TracingErrorKind::AlreadyInitialized,
        final(state).is_initialized(),
{
    if state.initialized {
        Err(TracingError::AlreadyInitialized)
    } else {
        state.initialized = true;
        Ok(())
    }
}

/// What a log file's path, as the foreign caller gives it, leads to: the path
/// as text, or the reason why there is none.
pub open spec fn log_path(path: Option<Seq<u8>>) -> Result<Seq<char>, TracingErrorKind> {
    match path {
        None => Err(TracingErrorKind::NullPath),
        Some(bytes) => if valid_utf8(bytes) {
            Ok(decode_utf8(bytes))
        } else {
            Err(TracingErrorKind::InvalidPath)
        },
    }
}

/// First step of starting the log output to a file: reads the path of the
/// file that is to be opened for appending. The caller opens it and reports
/// with `tracing_file_opened`.
pub fn AUTDLinkSOEMTracingInitWithFile(path: Option<&[u8]>) -> (r: Result<String, TracingError>)
    ensures
        match r {
            Ok(text) => log_path(crate::cstr::nullable_view(path)) == Ok::<
                Seq<char>,
                TracingErrorKind,
            >(text@),
            Err(e) => log_path(crate::cstr::nullable_view(path)) == Err::<
                Seq<char>,
                TracingErrorKind,
            >(e.kind()),
        },
{
    match path {
        None => Err(TracingError::NullPath),
        Some(bytes) => match decode(bytes) {
            Ok(text) => Ok(text),
            Err(cause) => Err(TracingError::InvalidPath(cause)),
        },
    }
}

/// What the attempt to open the log file leads to in a process whose log
/// output has or has not been started.
pub open spec fn after_open(initialized: bool, opened: Result<(), String>) -> Result<
    (),
    TracingErrorKind,
> {
    match opened {
        Err(_) => Err(TracingErrorKind::OpenFailed),
        Ok(()) => if initialized {
            Err(TracingErrorKind::AlreadyInitialized)
        } else {
            Ok(())
        },
    }
}

/// Second step of starting the log output to a file: takes the outcome of
/// opening the file. A file that was not opened fails the start with the
/// reason given and leaves the state as it was. With the file open, `Ok`
/// tells the caller to install the output; it comes the first time only.
pub fn tracing_file_opened(state: &mut TracingState, opened: Result<(), String>) -> (r: Result<
    (),
    TracingError,
>)
    ensures
        match r {
            Ok(()) => after_open(old(state).is_initialized(), opened) is Ok,
            Err(e) => after_open(old(state).is_initialized(), opened) == Err::<
                (),
                TracingErrorKind,
            >(e.kind()),
        },
        r matches Err(TracingError::OpenFailed(reason)) ==> opened == Err::<(), String>(reason),
        final(state).is_initialized() == (old(state).is_initialized() || opened is Ok),
{
    match opened {
        Err(reason) => Err(TracingError::OpenFailed(reason)),
        Ok(()) => AUTDLinkSOEMTracingInit(state),
    }
}

} // verus!
