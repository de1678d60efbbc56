//! A bounded in-memory message log: new entries push the oldest one out once
//! the configured capacity is exceeded.

use vstd::prelude::*;

verus! {

/// A rolling buffer of log messages.
pub struct Logger {
    logs: Vec<String>,
    max_entries: usize,
}

impl View for Logger {
    type V = Seq<Seq<char>>;

    closed spec fn view(&self) -> Seq<Seq<char>> {
        self.logs.deep_view()
    }
}

impl Logger {
    /// The capacity this logger was created with.
    pub closed spec fn capacity(&self) -> nat {
        self.max_entries as nat
    }

    /// An empty logger keeping at most `max_entries` messages.
    pub fn new(max_entries: usize) -> (l: Logger)
        ensures
            l@ == Seq::<Seq<char>>::empty(),
            l.capacity() == max_entries,
    {
        Logger { logs: Vec::new(), max_entries }
    }

    /// Appends a message; if the buffer then holds more than its capacity,
    /// the oldest message is dropped.
    pub fn log(&mut self, msg: &str)
        ensures
            old(self)@.len() + 1 > old(self).capacity() ==> final(self)@ == old(self)@.push(
                msg@,
            ).drop_first(),
            old(self)@.len() + 1 <= old(self).capacity() ==> final(self)@ == old(self)@.push(msg@),
            final(self).capacity() == old(self).capacity(),
    {
        let ghost prev = self.logs.deep_view();
        self.logs.push(msg.to_owned());
        proof {
            assert(self.logs.deep_view() =~= prev.push(msg@));
        }
        if self.logs.len() > self.max_entries {
            let ghost mid = self.logs.deep_view();
            let _ = self.logs.remove(0);
            proof {
                assert(self.logs.deep_view() =~= mid.drop_first());
            }
        }
    }

    /// The messages currently kept, oldest first.
    pub fn logs(&self) -> (r: &Vec<String>)
        ensures
            r.deep_view() == self@,
    {
        &self.logs
    }
}

} // verus!
