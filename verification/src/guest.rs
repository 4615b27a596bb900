//! The guest-side request-dispatch state machine.
//!
//! A deployed module holds exactly one interpreter instance and at most one
//! registered handler for its whole lifetime.  The interpreter is created
//! once at snapshot time; the guest's initialization script registers the
//! handler during that same snapshot; afterwards every request is dispatched
//! to that handler.  There is no transition back: re-initialization and
//! re-registration are rejected with explicit errors rather than through
//! unchecked global mutation.
//!
//! Handlers are tracked here as opaque tokens; turning a token back into an
//! interpreter-level function value is the embedder's concern.
use vstd::prelude::*;

verus! {

/// Why a guest operation failed fatally.
#[derive(Clone, Copy, Debug, PartialEq, Eq, Structural)]
pub enum GuestError {
    /// The interpreter was initialized a second time.
    AlreadyInitialized,
    /// A handler registration arrived before the interpreter existed.
    NotInitialized,
    /// A second handler registration was attempted.
    HandlerAlreadyRegistered,
    /// A request arrived with no registered handler.
    NoHandlerRegistered,
}

impl GuestError {
    /// The stable message for this error kind.
    pub fn message(&self) -> (r: &'static str)
        ensures
            *self == GuestError::AlreadyInitialized ==> r@ == "Runtime already initialized"@,
            *self == GuestError::NotInitialized ==> r@ == "Runtime not initialized"@,
            *self == GuestError::HandlerAlreadyRegistered ==> r@ == "Handler already registered"@,
            *self == GuestError::NoHandlerRegistered ==> r@ == "No handler registered"@,
    {
        match self {
            GuestError::AlreadyInitialized => "Runtime already initialized",
            GuestError::NotInitialized => "Runtime not initialized",
            GuestError::HandlerAlreadyRegistered => "Handler already registered",
            GuestError::NoHandlerRegistered => "No handler registered",
        }
    }
}

/// The write-once state of one guest instance.
pub struct GuestState {
    initialized: bool,
    handler: Option<u64>,
}

impl GuestState {
    /// Whether the interpreter instance exists.
    pub closed spec fn is_initialized(&self) -> bool {
        self.initialized
    }

    /// The registered handler token, if any.
    pub closed spec fn spec_handler(&self) -> Option<u64> {
        self.handler
    }

    /// Well-formedness: a handler exists only after initialization.
    pub open spec fn wf(&self) -> bool {
        self.spec_handler() is Some ==> self.is_initialized()
    }

    /// A fresh guest: no interpreter, no handler.
    pub fn new() -> (r: GuestState)
        ensures
            !r.is_initialized(),
            r.spec_handler() is None,
            r.wf(),
    {
        GuestState { initialized: false, handler: None }
    }

    /// Creates the interpreter instance; exactly once per guest lifetime.
    pub fn init(&mut self) -> (r: Result<(), GuestError>)
        requires
            old(self).wf(),
        ensures
            final (self).wf(),
            old(self).is_initialized() ==> r == Err::<(), _>(GuestError::AlreadyInitialized)
                && *final (self) == *old(self),
            !old(self).is_initialized() ==> r == Ok::<_, GuestError>(()) && final (self).is_initialized()
                && final (self).spec_handler() == old(self).spec_handler(),
    {
        if self.initialized {
            Err(GuestError::AlreadyInitialized)
        } else {
            self.initialized = true;
            Ok(())
        }
    }

    /// Registers the request handler; accepted at most once, and only after
    /// initialization.
    pub fn register(&mut self, handler: u64) -> (r: Result<(), GuestError>)
        requires
            old(self).wf(),
        ensures
            final (self).wf(),
            !old(self).is_initialized() ==> r == Err::<(), _>(GuestError::NotInitialized)
                && *final (self) == *old(self),
            old(self).is_initialized() && old(self).spec_handler() is Some ==> r == Err::<(), _>(
                GuestError::HandlerAlreadyRegistered,
            ) && *final (self) == *old(self),
            old(self).is_initialized() && old(self).spec_handler() is None ==> r == Ok::<
                _,
                GuestError,
            >(()) && final (self).spec_handler() == Some(handler) && final (self).is_initialized(),
    {
        if !self.initialized {
            Err(GuestError::NotInitialized)
        } else {
            match self.handler {
                Some(_) => Err(GuestError::HandlerAlreadyRegistered),
                None => {
                    self.handler = Some(handler);
                    Ok(())
                },
            }
        }
    }

    /// The handler a request must be dispatched to: the registered one, or a
    /// fatal error when none was ever registered.
    pub fn handle_request(&self) -> (r: Result<u64, GuestError>)
        ensures
            match self.spec_handler() {
                Some(h) => r == Ok::<_, GuestError>(h),
                None => r == Err::<u64, _>(GuestError::NoHandlerRegistered),
            },
    {
        match self.handler {
            Some(h) => Ok(h),
            None => Err(GuestError::NoHandlerRegistered),
        }
    }
}

} // verus!
