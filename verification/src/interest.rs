//! What the event loop watches a timer's descriptor for.
use vstd::prelude::*;

verus! {

/// The kinds of readiness that an event loop can watch a descriptor for.
pub enum Readiness {
    Readable,
    Writable,
    Error,
    HangUp,
    AsynchronousIo,
    ListedIo,
    Priority,
}

/// `mio::Ready`, a set of readiness kinds.
#[verifier::external_type_specification]
#[verifier::external_body]
pub struct ExReady(mio::Ready);

/// The kinds of readiness that a `mio::Ready` holds.
pub uninterp spec fn readiness(ready: mio::Ready) -> Set<Readiness>;

/// `mio::Ready::readable` returns the set that holds readable readiness and no other kind.
#[verifier::external_body]
fn readable() -> (ready: mio::Ready)
    ensures
        readiness(ready) == set![Readiness::Readable],
{
    mio::Ready::readable()
}

/// `mio::Ready::error` returns the set that holds error readiness and no other kind.
#[allow(deprecated)]
#[verifier::external_body]
fn error() -> (ready: mio::Ready)
    ensures
        readiness(ready) == set![Readiness::Error],
{
    mio::Ready::error()
}

/// The operator `|` of `mio::Ready` returns the union of two sets of readiness kinds.
#[verifier::external_body]
fn union(a: mio::Ready, b: mio::Ready) -> (ready: mio::Ready)
    ensures
        readiness(ready) == readiness(a).union(readiness(b)),
{
    a | b
}

/// What to register a timer's descriptor for, whatever kinds of readiness were asked for: it
/// can be read, or it has failed.
pub fn timer_interest(asked: mio::Ready) -> (ready: mio::Ready)
    ensures
        readiness(ready) == set![Readiness::Readable, Readiness::Error],
{
    let ready: mio::Ready = union(readable(), error());
    assert(readiness(ready) =~= set![Readiness::Readable, Readiness::Error]);
    ready
}

} // verus!
