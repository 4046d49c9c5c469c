use vstd::prelude::*;

verus! {

/// Error taxonomy of the driver. Flat, with no nested causes.
///
/// `NoMemory` and `InvalidParameter` are defined for consumers of the
/// hardware-access contracts (such as a BAR allocator); the MAC driver
/// itself only produces `Unknown` and `Timeout`.
#[derive(Debug, Clone, Copy, PartialEq, Eq)]
pub enum DError {
    /// Hardware reported an error condition this layer cannot classify.
    Unknown(&'static str),
    /// A polling loop exhausted its attempt budget.
    Timeout,
    /// An address-space allocation request could not be satisfied.
    NoMemory,
    /// Caller supplied a value outside the operation's accepted domain.
    InvalidParameter,
}

/// The single platform capability the driver needs: a sleep used to yield
/// between polling attempts. The host supplies an implementation; the
/// driver never assumes an operating system is present.
///
/// Every sleep appends its duration to the capability's audit trail, so a
/// wait's contract can state its sleep discipline — how many times it
/// yielded and for how long — and a wait that spun without yielding could
/// not meet it.
pub trait Kernel: Sized {
    /// The audit trail: the duration of every sleep asked of this
    /// capability, oldest first. The default leaves it unspecified; an
    /// implementation the sleep discipline should be read off overrides it.
    open spec fn sleeps(&self) -> Seq<u64> {
        vstd::pervasive::arbitrary()
    }

    /// Suspends the calling thread of control for `millis` milliseconds.
    fn sleep(&mut self, millis: u64)
        ensures
            final(self).sleeps() == old(self).sleeps().push(millis),
    ;
}

} // verus!
