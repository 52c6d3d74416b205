//! Waking the event loop from the renderer.
//!
//! The renderer works on a thread of its own and has to tell the main loop
//! when a frame is ready. It does so through a callback that the embedder
//! registers here.

use vstd::prelude::*;

verus! {

/// Holds the callback that wakes the event loop.
pub struct EguiEventLoopWaker<F: Fn()> {
    callback: Option<F>,
}

impl<F: Fn()> EguiEventLoopWaker<F> {
    #[verifier::type_invariant]
    spec fn inv(self) -> bool {
        self.callback matches Some(callback) ==> callback.requires(())
    }

    /// The registered callback.
    pub closed spec fn registered(self) -> Option<F> {
        self.callback
    }

    /// A waker without a callback.
    pub fn new() -> (waker: Self)
        ensures
            waker.registered() is None,
    {
        EguiEventLoopWaker { callback: None }
    }

    /// Registers the callback to call on a wake-up; one that was registered
    /// before is dropped. The callback has to be callable at any time.
    pub fn set_callback(&mut self, callback: F)
        requires
            callback.requires(()),
        ensures
            final(self).registered() == Some(callback),
    {
        self.callback = Some(callback);
    }

    /// Wakes the event loop: calls the callback if one is registered, and
    /// does nothing otherwise.
    pub fn wake(&self)
        ensures
            self.registered() matches Some(callback) ==> callback.ensures((), ()),
    {
        proof {
            use_type_invariant(self);
        }
        if let Some(callback) = &self.callback {
            callback();
        }
    }
}

} // verus!
