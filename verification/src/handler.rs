//! The handler-dispatch adapter: a generic wrapper giving the runtime
//! loop one uniform call signature regardless of the concrete request and
//! response types. Its one operation invokes the wrapped function and
//! returns its result unchanged.

use vstd::prelude::*;

use crate::context::Context;

verus! {

/// Wraps exactly one user-supplied handler function.
pub struct EventHandler<EventFunction> {
    function: EventFunction,
}

impl<EventFunction> EventHandler<EventFunction> {
    /// The wrapped handler function, for specification purposes.
    pub closed spec fn spec_function(&self) -> EventFunction {
        self.function
    }

    /// Stores the handler function; nothing is invoked yet.
    pub fn init<EventRequest, EventResponse, EventError>(function: EventFunction) -> (handler:
        EventHandler<EventFunction>) where EventFunction: Fn(
        EventRequest,
        Context,
    ) -> Result<EventResponse, EventError>
        ensures
            handler.spec_function() == function,
    {
        EventHandler { function }
    }

    /// Invokes the wrapped function on the decoded event and its context
    /// and hands its result back unchanged: no retries, no coercion.
    pub fn run<EventRequest, EventResponse, EventError>(
        &self,
        event: EventRequest,
        context: Context,
    ) -> (event_result: Result<EventResponse, EventError>) where EventFunction: Fn(
        EventRequest,
        Context,
    ) -> Result<EventResponse, EventError>
        requires
            call_requires(self.spec_function(), (event, context)),
        ensures
            call_ensures(self.spec_function(), (event, context), event_result),
    {
        (self.function)(event, context)
    }
}

} // verus!
