//! The foreign handler that is told of status changes, and the arguments it
//! is called with.
use vstd::prelude::*;
use crate::status::Status;

verus! {

/// A foreign function to call when a slave changes its status, with the
/// context that is handed back to it on every call. The function's address
/// is never null.
#[derive(Clone, Copy, Debug, PartialEq, Eq, Structural)]
pub struct ErrorHandler {
    handler: usize,
    context: usize,
}

/// The arguments of one call of the foreign handler.
#[derive(Clone, Copy, Debug, PartialEq, Eq, Structural)]
pub struct StatusNotice {
    /// The context that the handler was registered with.
    pub context: usize,
    /// Zero-based index of the slave.
    pub slave: u32,
    /// The slave's status, as the boundary names it.
    pub status: Status,
}

impl ErrorHandler {
    #[verifier::type_invariant]
    spec fn handler_is_set(self) -> bool {
        self.handler != 0
    }

    /// Address of the foreign function.
    pub closed spec fn handler_addr(&self) -> usize {
        self.handler
    }

    /// The context that is handed back to the foreign function.
    pub closed spec fn context_addr(&self) -> usize {
        self.context
    }

    /// The handler that the two pointers of a link constructor register:
    /// none if the function pointer is null, whatever the context is.
    pub open spec fn registered(handler: usize, context: usize) -> Option<(usize, usize)> {
        if handler == 0 {
            None
        } else {
            Some((handler, context))
        }
    }

    /// The arguments that the handler is called with when the engine reports
    /// the status numbered `engine_code` for the slave at `slave`. There is
    /// no call for a number that is no status of the engine, nor for an index
    /// that the foreign side's 32 bits cannot hold.
    pub open spec fn notice(context: usize, slave: usize, engine_code: u8) -> Option<StatusNotice> {
        match Status::of_engine_code(engine_code) {
            Some(status) if slave <= u32::MAX => Some(
                StatusNotice { context, slave: slave as u32, status },
            ),
            _ => None,
        }
    }

    /// Registers a handler. A null function pointer registers none.
    pub fn new(handler: usize, context: usize) -> (registered: Option<ErrorHandler>)
        ensures
            addresses(registered) == Self::registered(handler, context),
    {
        if handler == 0 {
            None
        } else {
            Some(ErrorHandler { handler, context })
        }
    }

    /// Returns the address of the foreign function, which is not null.
    pub fn handler(&self) -> (addr: usize)
        ensures
            addr == self.handler_addr(),
            addr != 0,
    {
        proof {
            use_type_invariant(self);
        }
        self.handler
    }

    /// Returns the context that is handed back to the foreign function.
    pub fn context(&self) -> (addr: usize)
        ensures
            addr == self.context_addr(),
    {
        self.context
    }

    /// Works out the call that tells the foreign handler of one status
    /// change: the context it registered, the slave's index in 32 bits, and
    /// the status under the boundary's name for it.
    pub fn notify(&self, slave: usize, engine_code: u8) -> (call: Option<StatusNotice>)
        ensures
            call == Self::notice(self.context_addr(), slave, engine_code),
    {
        match Status::from_engine(engine_code) {
            Some(status) => {
                if slave > u32::MAX as usize {
                    None
                } else {
                    Some(StatusNotice { context: self.context, slave: slave as u32, status })
                }
            },
            None => None,
        }
    }
}

/// The two addresses of a handler that may be absent.
pub open spec fn addresses(handler: Option<ErrorHandler>) -> Option<(usize, usize)> {
    match handler {
        Some(h) => Some((h.handler_addr(), h.context_addr())),
        None => None,
    }
}

/// Whatever call is made carries a slave index and a status that the foreign
/// side can read: the index is the engine's, and the status has a tag.
pub proof fn lemma_notice_is_valid(context: usize, slave: usize, engine_code: u8)
    ensures
        ErrorHandler::notice(context, slave, engine_code) matches Some(call) ==> {
            &&& call.context == context
            &&& call.slave == slave
            &&& call.status.engine_code() == engine_code
            &&& Status::of_tag(call.status.tag()) == Some(call.status)
        },
        ErrorHandler::notice(context, slave, engine_code) is Some <==> engine_code <= 2 && slave
            <= u32::MAX,
{
}

} // verus!
