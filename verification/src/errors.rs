//! Actor error types: the closed vocabularies for startup failures,
//! run-loop failures and messaging failures, with their one-line renderings.

use vstd::prelude::*;
use vstd::std_specs::convert::FromSpec;
use vstd::string::StringExecFns;

verus! {

/// Spawn errors starting an actor
#[derive(Debug)]
pub enum SpawnErr {
    /// Actor panic'd during startup
    StartupPanic(String),
    /// Actor failed to startup because the startup task was cancelled
    StartupCancelled,
    /// An actor cannot be started > 1 time
    ActorAlreadyStarted,
}

impl SpawnErr {
    /// The one-line rendering of this error, as a sequence of characters.
    pub open spec fn rendered(&self) -> Seq<char> {
        match self {
            SpawnErr::StartupPanic(msg) => "Actor panicked during startup '"@ + msg@ + "'"@,
            SpawnErr::StartupCancelled => "Actor failed to startup due to processing task being cancelled"@,
            SpawnErr::ActorAlreadyStarted => "Actor cannot be re-started more than once"@,
        }
    }

    /// Render this error as a one-line human-readable description.
    pub fn render(&self) -> (r: String)
        ensures
            r@ == self.rendered(),
    {
        match self {
            SpawnErr::StartupPanic(msg) => String::from_str("Actor panicked during startup '")
                .concat(msg.as_str())
                .concat("'"),
            SpawnErr::StartupCancelled => String::from_str(
                "Actor failed to startup due to processing task being cancelled",
            ),
            SpawnErr::ActorAlreadyStarted => String::from_str(
                "Actor cannot be re-started more than once",
            ),
        }
    }
}

/// Actor processing loop errors
#[derive(Debug)]
pub enum ActorErr {
    /// Actor had a task cancelled internally during processing
    Cancelled,
    /// Actor had an internal panic
    Panic(String),
}

impl ActorErr {
    /// The one-line rendering of this error, as a sequence of characters.
    pub open spec fn rendered(&self) -> Seq<char> {
        match self {
            ActorErr::Panic(msg) => "Actor panicked '"@ + msg@ + "'"@,
            ActorErr::Cancelled => "Actor operation cancelled"@,
        }
    }

    /// Render this error as a one-line human-readable description.
    pub fn render(&self) -> (r: String)
        ensures
            r@ == self.rendered(),
    {
        match self {
            ActorErr::Panic(msg) => String::from_str("Actor panicked '")
                .concat(msg.as_str())
                .concat("'"),
            ActorErr::Cancelled => String::from_str("Actor operation cancelled"),
        }
    }
}

/// A messaging error has occurred
#[derive(Debug, PartialEq, Eq, Structural)]
pub enum MessagingErr {
    /// The channel you're trying to send a message too has been dropped/closed.
    /// If you're sending to an actor's mailbox then that means the actor has
    /// died (failure or not).
    ChannelClosed,
}

impl MessagingErr {
    /// The one-line rendering of this error, as a sequence of characters.
    pub open spec fn rendered(&self) -> Seq<char> {
        "Messaging failed because channel is closed"@
    }

    /// Render this error as a one-line human-readable description.
    pub fn render(&self) -> (r: String)
        ensures
            r@ == self.rendered(),
    {
        String::from_str("Messaging failed because channel is closed")
    }
}

/// Declares `tokio::sync::mpsc::error::SendError`, the signal a point-to-point
/// mailbox returns when an ordinary send finds the receiver gone. Opaque here:
/// its undelivered payload is deliberately discarded on conversion.
#[verifier::external_type_specification]
#[verifier::external_body]
#[verifier::reject_recursive_types(T)]
pub struct ExMpscSendError<T>(tokio::sync::mpsc::error::SendError<T>);

/// Declares `tokio::sync::mpsc::error::TrySendError`, the signal a
/// point-to-point mailbox returns when a non-blocking send cannot deliver.
#[verifier::external_type_specification]
#[verifier::external_body]
#[verifier::reject_recursive_types(T)]
pub struct ExMpscTrySendError<T>(tokio::sync::mpsc::error::TrySendError<T>);

/// Declares `tokio::sync::broadcast::error::SendError`, the signal a broadcast
/// mailbox returns when a send finds no receiver.
#[verifier::external_type_specification]
#[verifier::external_body]
#[verifier::reject_recursive_types(T)]
pub struct ExBroadcastSendError<T>(tokio::sync::broadcast::error::SendError<T>);

/// Declares `tokio::sync::watch::error::SendError`, the signal a single-slot
/// watch mailbox returns when a send finds every receiver gone.
#[verifier::external_type_specification]
#[verifier::external_body]
#[verifier::reject_recursive_types(T)]
pub struct ExWatchSendError<T>(tokio::sync::watch::error::SendError<T>);

impl<T> From<tokio::sync::mpsc::error::SendError<T>> for MessagingErr {
    fn from(_e: tokio::sync::mpsc::error::SendError<T>) -> (r: Self) {
        MessagingErr::ChannelClosed
    }
}

impl<T> vstd::std_specs::convert::FromSpecImpl<tokio::sync::mpsc::error::SendError<T>>
    for MessagingErr {
    open spec fn obeys_from_spec() -> bool {
        true
    }

    open spec fn from_spec(_e: tokio::sync::mpsc::error::SendError<T>) -> Self {
        MessagingErr::ChannelClosed
    }
}

impl<T> From<tokio::sync::mpsc::error::TrySendError<T>> for MessagingErr {
    fn from(_e: tokio::sync::mpsc::error::TrySendError<T>) -> (r: Self) {
        MessagingErr::ChannelClosed
    }
}

impl<T> vstd::std_specs::convert::FromSpecImpl<tokio::sync::mpsc::error::TrySendError<T>>
    for MessagingErr {
    open spec fn obeys_from_spec() -> bool {
        true
    }

    open spec fn from_spec(_e: tokio::sync::mpsc::error::TrySendError<T>) -> Self {
        MessagingErr::ChannelClosed
    }
}

impl<T> From<tokio::sync::broadcast::error::SendError<T>> for MessagingErr {
    fn from(_e: tokio::sync::broadcast::error::SendError<T>) -> (r: Self) {
        MessagingErr::ChannelClosed
    }
}

impl<T> vstd::std_specs::convert::FromSpecImpl<tokio::sync::broadcast::error::SendError<T>>
    for MessagingErr {
    open spec fn obeys_from_spec() -> bool {
        true
    }

    open spec fn from_spec(_e: tokio::sync::broadcast::error::SendError<T>) -> Self {
        MessagingErr::ChannelClosed
    }
}

impl<T> From<tokio::sync::watch::error::SendError<T>> for MessagingErr {
    fn from(_e: tokio::sync::watch::error::SendError<T>) -> (r: Self) {
        MessagingErr::ChannelClosed
    }
}

impl<T> vstd::std_specs::convert::FromSpecImpl<tokio::sync::watch::error::SendError<T>>
    for MessagingErr {
    open spec fn obeys_from_spec() -> bool {
        true
    }

    open spec fn from_spec(_e: tokio::sync::watch::error::SendError<T>) -> Self {
        MessagingErr::ChannelClosed
    }
}

/// `needle` occurs verbatim, as a contiguous run of characters, inside `hay`.
pub open spec fn contains_verbatim(hay: Seq<char>, needle: Seq<char>) -> bool {
    exists|i: int|
        0 <= i && i + needle.len() <= hay.len() && #[trigger] hay.subrange(
            i,
            i + needle.len(),
        ) == needle
}

/// Law: for every description, the rendering of *Startup Panic* carries that
/// description verbatim.
pub proof fn lemma_startup_panic_rendering_contains_description(msg: String)
    ensures
        contains_verbatim(SpawnErr::StartupPanic(msg).rendered(), msg@),
{
    let r = SpawnErr::StartupPanic(msg).rendered();
    let i: int = "Actor panicked during startup '"@.len() as int;
    assert(r.subrange(i, i + msg@.len()) =~= msg@);
}

/// Law: for every description, the rendering of the run loop's *Panic* carries
/// that description verbatim.
pub proof fn lemma_actor_panic_rendering_contains_description(msg: String)
    ensures
        contains_verbatim(ActorErr::Panic(msg).rendered(), msg@),
{
    let r = ActorErr::Panic(msg).rendered();
    let i: int = "Actor panicked '"@.len() as int;
    assert(r.subrange(i, i + msg@.len()) =~= msg@);
}

/// Law: the closed/send-error signal of every supported delivery primitive
/// (ordinary send, non-blocking send, broadcast send, single-slot watch send)
/// converts to the one value *Channel Closed*, whose rendering is therefore
/// identical whatever the source primitive was.
pub proof fn lemma_conversions_normalize<T>(
    ordinary: tokio::sync::mpsc::error::SendError<T>,
    nonblocking: tokio::sync::mpsc::error::TrySendError<T>,
    broadcast: tokio::sync::broadcast::error::SendError<T>,
    watch: tokio::sync::watch::error::SendError<T>,
)
    ensures
        <MessagingErr as FromSpec<tokio::sync::mpsc::error::SendError<T>>>::obeys_from_spec(),
        <MessagingErr as FromSpec<tokio::sync::mpsc::error::TrySendError<T>>>::obeys_from_spec(),
        <MessagingErr as FromSpec<tokio::sync::broadcast::error::SendError<T>>>::obeys_from_spec(),
        <MessagingErr as FromSpec<tokio::sync::watch::error::SendError<T>>>::obeys_from_spec(),
        <MessagingErr as FromSpec<tokio::sync::mpsc::error::SendError<T>>>::from_spec(ordinary)
            == MessagingErr::ChannelClosed,
        <MessagingErr as FromSpec<tokio::sync::mpsc::error::TrySendError<T>>>::from_spec(
            nonblocking,
        ) == MessagingErr::ChannelClosed,
        <MessagingErr as FromSpec<tokio::sync::broadcast::error::SendError<T>>>::from_spec(
            broadcast,
        ) == MessagingErr::ChannelClosed,
        <MessagingErr as FromSpec<tokio::sync::watch::error::SendError<T>>>::from_spec(watch)
            == MessagingErr::ChannelClosed,
{
}

/// Law: a *Spawn* error's variant can be read back off its rendering; the
/// three renderings never coincide, so *Already Started* is distinguishable
/// from *Startup Panic* and *Startup Cancelled* whatever the description.
pub proof fn lemma_spawn_rendering_identifies_variant(a: SpawnErr, b: SpawnErr)
    requires
        a.rendered() == b.rendered(),
    ensures
        a is StartupPanic <==> b is StartupPanic,
        a is StartupCancelled <==> b is StartupCancelled,
        a is ActorAlreadyStarted <==> b is ActorAlreadyStarted,
{
    lemma_spawn_rendering_tag(a);
    lemma_spawn_rendering_tag(b);
}

/// The character right after "Actor " in a *Spawn* error's rendering names the
/// variant: 'p' for panic, 'f' for cancelled startup, 'c' for a second start.
proof fn lemma_spawn_rendering_tag(e: SpawnErr)
    ensures
        e.rendered().len() > 6,
        e is StartupPanic ==> e.rendered()[6] == 'p',
        e is StartupCancelled ==> e.rendered()[6] == 'f',
        e is ActorAlreadyStarted ==> e.rendered()[6] == 'c',
{
    reveal_strlit("Actor panicked during startup '");
    reveal_strlit("Actor failed to startup due to processing task being cancelled");
    reveal_strlit("Actor cannot be re-started more than once");
    if let SpawnErr::StartupPanic(_) = e {
        assert(e.rendered()[6] == "Actor panicked during startup '"@[6]);
    }
}

/// Law: a run-loop error's variant can be read back off its rendering; the
/// *Panic* rendering never coincides with the *Cancelled* one.
pub proof fn lemma_actor_rendering_identifies_variant(a: ActorErr, b: ActorErr)
    requires
        a.rendered() == b.rendered(),
    ensures
        a is Panic <==> b is Panic,
        a is Cancelled <==> b is Cancelled,
{
    lemma_actor_rendering_tag(a);
    lemma_actor_rendering_tag(b);
}

/// The character right after "Actor " in a run-loop error's rendering names
/// the variant: 'p' for panic, 'o' for cancellation.
proof fn lemma_actor_rendering_tag(e: ActorErr)
    ensures
        e.rendered().len() > 6,
        e is Panic ==> e.rendered()[6] == 'p',
        e is Cancelled ==> e.rendered()[6] == 'o',
{
    reveal_strlit("Actor panicked '");
    reveal_strlit("Actor operation cancelled");
    if let ActorErr::Panic(_) = e {
        assert(e.rendered()[6] == "Actor panicked '"@[6]);
    }
}

/// Law: the two cancellation values of the taxonomy render differently, so a
/// cancelled startup is never mistaken for a cancelled run loop (nor the other
/// way round) in any log line.
pub proof fn lemma_cancellation_renderings_distinct()
    ensures
        SpawnErr::StartupCancelled.rendered() != ActorErr::Cancelled.rendered(),
{
    reveal_strlit("Actor failed to startup due to processing task being cancelled");
    reveal_strlit("Actor operation cancelled");
    assert(SpawnErr::StartupCancelled.rendered().len() != ActorErr::Cancelled.rendered().len());
}

} // verus!

