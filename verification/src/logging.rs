//! Log levels and a registry of log sinks that messages are broadcast to.
use vstd::prelude::*;

verus! {

/// How severe a log message is, from least to most.
#[derive(Debug, Clone, Copy, PartialEq, Eq, PartialOrd, Ord, Structural)]
pub enum LogLevel {
    Trace,
    Info,
    Warn,
    Error,
}

/// The messages a sink has been given, oldest first.
pub type SinkLog = Seq<(LogLevel, Seq<char>)>;

/// A destination for log messages, implemented by the library's users.
///
/// An implementation promises that `log` takes exactly the message it is
/// given: `received` is the sequence of messages it has taken so far. The
/// promise is a demand on each implementation; one written outside Verus
/// is trusted to keep it.
pub trait Sink: Send {
    /// The messages this sink has taken so far, oldest first.
    spec fn received(&self) -> SinkLog;

    /// Takes one message.
    fn log(&mut self, log_level: LogLevel, message: &str)
        ensures
            final(self).received() == old(self).received().push((log_level, message@)),
    ;
}

/// A boxed sink of any kind is a sink: it hands each message to the sink inside.
impl Sink for Box<dyn Sink> {
    open spec fn received(&self) -> SinkLog {
        (**self).received()
    }

    fn log(&mut self, log_level: LogLevel, message: &str) {
        (**self).log(log_level, message);
    }
}

/// The sinks that log messages are broadcast to, in the order they were added.
pub struct SinkRegistry<S: Sink> {
    sinks: Vec<S>,
}

impl<S: Sink> View for SinkRegistry<S> {
    type V = Seq<S>;

    closed spec fn view(&self) -> Seq<S> {
        self.sinks@
    }
}

impl<S: Sink> SinkRegistry<S> {
    /// A registry without sinks.
    pub fn new() -> (registry: SinkRegistry<S>)
        ensures
            registry@.len() == 0,
    {
        SinkRegistry { sinks: Vec::new() }
    }

    /// How many sinks are registered.
    pub fn len(&self) -> (n: usize)
        ensures
            n == self@.len(),
    {
        self.sinks.len()
    }
}

/// Adds `sink` after the sinks already registered, which are kept in order.
pub fn add_sink<S: Sink>(registry: &mut SinkRegistry<S>, sink: S)
    ensures
        final(registry)@ == old(registry)@.push(sink),
        final(registry)@.len() == old(registry)@.len() + 1,
        final(registry)@.last() == sink,
{
    registry.sinks.push(sink);
}

/// Removes every registered sink.
pub fn clear_sinks<S: Sink>(registry: &mut SinkRegistry<S>)
    ensures
        final(registry)@.len() == 0,
{
    registry.sinks.clear();
}

/// Whether `after` holds the sinks of `before`, in the same places, each of
/// which has taken the message once more, with this level and text.
pub open spec fn broadcast_reached<S: Sink>(
    before: Seq<S>,
    after: Seq<S>,
    log_level: LogLevel,
    message: Seq<char>,
) -> bool {
    &&& after.len() == before.len()
    &&& forall|i: int|
        0 <= i < before.len() ==> #[trigger] after[i].received()
            == before[i].received().push((log_level, message))
}

/// Hands the message to every registered sink, in registration order: each
/// sink takes it once, with this level and text.
pub fn log_to_all_sinks<S: Sink>(registry: &mut SinkRegistry<S>, log_level: LogLevel, message: &str)
    ensures
        broadcast_reached(old(registry)@, final(registry)@, log_level, message@),
{
    let mut i: usize = 0;
    let ghost initial = registry.sinks@;
    while i < registry.sinks.len()
        invariant
            registry.sinks@.len() == initial.len(),
            i <= initial.len(),
            forall|j: int|
                0 <= j < i ==> #[trigger] registry.sinks@[j].received()
                    == initial[j].received().push((log_level, message@)),
            forall|j: int| i <= j < initial.len() ==> #[trigger] registry.sinks@[j] == initial[j],
        decreases initial.len() - i,
    {
        let mut entry = registry.sinks.remove(i);
        entry.log(log_level, message);
        registry.sinks.insert(i, entry);
        i = i + 1;
    }
}

/// Two sinks added one after the other to a registry sit behind the sinks it
/// already held, the first added before the second; a broadcast then hands the
/// message once to every one of them, the two added sinks included.
pub proof fn lemma_broadcast_reaches_added_sinks<S: Sink>(
    registry: Seq<S>,
    first: S,
    second: S,
    after: Seq<S>,
    log_level: LogLevel,
    message: Seq<char>,
)
    requires
        broadcast_reached(registry.push(first).push(second), after, log_level, message),
    ensures
        after.len() == registry.len() + 2,
        forall|i: int|
            0 <= i < registry.len() ==> #[trigger] after[i].received()
                == registry[i].received().push((log_level, message)),
        after[registry.len() as int].received() == first.received().push((log_level, message)),
        after[registry.len() + 1int].received() == second.received().push((log_level, message)),
{
    let grown = registry.push(first).push(second);
    assert(grown[registry.len() as int] == first);
    assert(grown[registry.len() + 1int] == second);
    assert forall|i: int| 0 <= i < registry.len() implies #[trigger] after[i].received()
        == registry[i].received().push((log_level, message)) by {
        assert(grown[i] == registry[i]);
    }
}

} // verus!
