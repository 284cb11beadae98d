//! The value a successful lifecycle operation returns: a write-intent
//! payload, the emitted events, and log lines, accumulated by a builder and
//! never applied by the handler itself.

use vstd::prelude::*;
use vstd::string::StringExecFns;
use crate::events::IbcEvent;

verus! {

/// A lifecycle operation either produces an output or the first failing
/// check's error.
pub type HandlerResult<T, E> = Result<HandlerOutput<T>, E>;

/// What a successful operation hands to the caller: the write-intent
/// `result`, the log lines, and the events to forward to observers.
#[derive(Debug)]
pub struct HandlerOutput<T> {
    pub result: T,
    pub log: Vec<String>,
    pub events: Vec<IbcEvent>,
}

impl<T> HandlerOutput<T> {
    /// An empty accumulator for logs and events.
    pub fn builder() -> (r: HandlerOutputBuilder<T>)
        ensures
            r.log@ == Seq::<String>::empty(),
            r.events@ == Seq::<IbcEvent>::empty(),
    {
        let r = HandlerOutputBuilder {
            log: Vec::new(),
            events: Vec::new(),
            marker: core::marker::PhantomData,
        };
        proof {
            assert(r.log@ =~= Seq::<String>::empty());
            assert(r.events@ =~= Seq::<IbcEvent>::empty());
        }
        r
    }
}

/// Accumulates log lines and events while an operation validates, and is
/// turned into a [`HandlerOutput`] once the write-intent payload is known.
#[derive(Debug)]
pub struct HandlerOutputBuilder<T> {
    pub log: Vec<String>,
    pub events: Vec<IbcEvent>,
    pub marker: core::marker::PhantomData<T>,
}

impl<T> HandlerOutputBuilder<T> {
    /// Appends one log line.
    pub fn log(&mut self, line: &str)
        ensures
            final(self).log@.len() == old(self).log@.len() + 1,
            forall|i: int| 0 <= i < old(self).log@.len()
                ==> final(self).log@[i] == old(self).log@[i],
            final(self).log@[old(self).log@.len() as int]@ == line@,
            final(self).events@ == old(self).events@,
    {
        self.log.push(String::from_str(line));
    }

    /// Appends one event.
    pub fn emit(&mut self, event: IbcEvent)
        ensures
            final(self).events@ == old(self).events@.push(event),
            final(self).log@ == old(self).log@,
    {
        self.events.push(event);
    }

    /// Closes the builder around the operation's write-intent payload.
    pub fn with_result(self, result: T) -> (r: HandlerOutput<T>)
        ensures
            r.result == result,
            r.log == self.log,
            r.events == self.events,
    {
        HandlerOutput { result, log: self.log, events: self.events }
    }
}

} // verus!
