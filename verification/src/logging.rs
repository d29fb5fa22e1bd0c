//! The logging bridge: text goes to the host's logging sink unchanged.

use vstd::prelude::*;

verus! {

/// Hands `s` to the logging sink `log`, unchanged, in one invocation.
///
/// The sink is whatever the host supplies for logging; a caller that has no
/// host at hand passes a closure that records what it was given. It is taken
/// by value as `FnOnce`, so it cannot be invoked a second time.
///
/// Any text is accepted: empty, or with control characters in it. The only
/// demand is that the sink itself accepts `s`. The postcondition is the sink's
/// own postcondition for the argument `s`: it holds only of a sink that was
/// invoked, and invoked with exactly that text.
pub fn echo<F: FnOnce(&str)>(s: &str, log: F)
    requires
        log.requires((s,)),
    ensures
        log.ensures((s,), ()),
{
    log(s)
}

} // verus!
