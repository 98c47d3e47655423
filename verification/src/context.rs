//! The per-invocation context: the four identifiers extracted from the
//! headers of a poll response. A context is built once per invocation and
//! never mutated afterwards.

use vstd::prelude::*;

verus! {

/// Mathematical image of a [`Context`]: the four identifiers as character
/// sequences.
pub struct ContextView {
    pub aws_request_id: Seq<char>,
    pub invoked_function_arn: Seq<char>,
    pub identity: Seq<char>,
    pub client_context: Seq<char>,
}

/// The immutable value carrying the four per-invocation identifiers.
pub struct Context {
    pub aws_request_id: String,
    pub invoked_function_arn: String,
    pub identity: String,
    pub client_context: String,
}

impl View for Context {
    type V = ContextView;

    open spec fn view(&self) -> ContextView {
        ContextView {
            aws_request_id: self.aws_request_id@,
            invoked_function_arn: self.invoked_function_arn@,
            identity: self.identity@,
            client_context: self.client_context@,
        }
    }
}

impl Clone for Context {
    fn clone(&self) -> (res: Self)
        ensures
            res@ == self@,
    {
        Context {
            aws_request_id: self.aws_request_id.clone(),
            invoked_function_arn: self.invoked_function_arn.clone(),
            identity: self.identity.clone(),
            client_context: self.client_context.clone(),
        }
    }
}

impl Context {
    /// Pure value constructor: accepts any strings and stores them verbatim,
    /// without parsing or validating their contents.
    pub fn create(
        aws_request_id: String,
        invoked_function_arn: String,
        identity: String,
        client_context: String,
    ) -> (context: Context)
        ensures
            context.aws_request_id@ == aws_request_id@,
            context.invoked_function_arn@ == invoked_function_arn@,
            context.identity@ == identity@,
            context.client_context@ == client_context@,
    {
        Context {
            aws_request_id,
            invoked_function_arn,
            identity,
            client_context,
        }
    }
}

} // verus!
