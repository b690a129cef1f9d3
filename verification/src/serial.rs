use vstd::prelude::*;

verus! {

/// A request together with the context that the receiving side attached to it.
pub struct ServifyMiddle<Kind, Context, Payload = Box<dyn std::any::Any + Send>> {
    pub ctx: Context,
    pub request: ServifyRequest<Kind, Payload>,
}

/// A request: which operation is asked for (`kind`) and its arguments (`payload`).
pub struct ServifyRequest<Kind, Payload = Box<dyn std::any::Any + Send>> {
    pub payload: Payload,
    pub kind: Kind,
}

impl<Kind, Payload> ServifyRequest<Kind, Payload> {
    /// Attaches a context to this request.
    pub fn with_ctx<Context>(self, ctx: Context) -> (res: ServifyMiddle<Kind, Context, Payload>)
        ensures
            res.ctx == ctx,
            res.request == self,
    {
        ServifyMiddle { ctx, request: self }
    }
}

} // verus!
