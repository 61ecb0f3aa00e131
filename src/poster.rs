use std::collections::HashMap;
use vstd::prelude::*;

verus! {

broadcast use vstd::std_specs::hash::group_hash_axioms;

/// Largest value the counter can hold; advancing past it is refused.
pub const COUNTER_MAX: i8 = 127;

/// The abstract state: the counter and the records filed under past counter values.
pub ghost struct PosterView {
    pub counter: i8,
    pub records: Map<i8, String>,
}

impl PosterView {
    /// The state a contract starts from: counter at zero, no records.
    pub open spec fn fresh() -> PosterView {
        PosterView { counter: 0, records: Map::empty() }
    }

    /// The counter can advance by one without leaving the range of `i8`.
    pub open spec fn can_advance(self) -> bool {
        self.counter < COUNTER_MAX
    }

    /// What a lookup of `key` returns: the record filed under it, if any.
    pub open spec fn lookup(self, key: i8) -> Option<String> {
        if self.records.contains_key(key) {
            Some(self.records[key])
        } else {
            None
        }
    }

    /// The state after the counter advances by one.
    pub open spec fn advanced(self) -> PosterView
        recommends
            self.can_advance(),
    {
        PosterView { counter: (self.counter + 1) as i8, records: self.records }
    }

    /// The state after `message` is filed under the current counter and the counter advances.
    pub open spec fn written(self, message: String) -> PosterView
        recommends
            self.can_advance(),
    {
        PosterView {
            counter: (self.counter + 1) as i8,
            records: self.records.insert(self.counter, message),
        }
    }

    /// Every record key is a counter value that has already been passed.
    pub open spec fn wf(self) -> bool {
        &&& 0 <= self.counter
        &&& forall|k: i8| #[trigger] self.records.contains_key(k) ==> 0 <= k < self.counter
    }
}

/// The log lines of one counter advance that leaves the counter at `to`.
pub open spec fn advance_lines(to: i8) -> Seq<Diagnostic> {
    seq![Diagnostic::CounterIncreased { to }, Diagnostic::OverflowReminder]
}

/// The log lines of one write of `message` by `caller` at counter value `at`.
pub open spec fn write_lines(caller: String, message: String, at: i8) -> Seq<Diagnostic> {
    seq![Diagnostic::MessageSet { caller, message, at }] + advance_lines((at + 1) as i8)
}

/// Why an operation was refused. A refused operation leaves the state as it was.
#[derive(Debug, Clone, Copy, PartialEq, Eq, Structural)]
pub enum PosterError {
    /// The counter advance was requested by someone other than the contract itself.
    Unauthorized,
    /// The counter is at its largest value and cannot advance.
    Overflow,
}

/// A line of the diagnostic log, as structured data; the host renders and emits it.
#[derive(Debug, PartialEq, Eq)]
pub enum Diagnostic {
    /// `caller` filed `message` under the counter value `at`.
    MessageSet { caller: String, message: String, at: i8 },
    /// The counter now holds `to`.
    CounterIncreased { to: i8 },
    /// The fixed reminder that follows every counter advance.
    OverflowReminder,
}

/// The state machine: a counter and the messages filed under its past values.
pub struct Poster {
    val: i8,
    records: HashMap<i8, String>,
}

impl View for Poster {
    type V = PosterView;

    closed spec fn view(&self) -> PosterView {
        PosterView { counter: self.val, records: self.records@ }
    }
}

impl Poster {
    /// A fresh contract: counter at zero, no records.
    pub fn new() -> (r: Poster)
        ensures
            r@ == PosterView::fresh(),
    {
        let r = Poster { val: 0, records: HashMap::new() };
        assert(r@.records =~= Map::empty());
        r
    }

    /// A contract holding the state `val`, `records`, as a host stored it.
    pub fn from_parts(val: i8, records: HashMap<i8, String>) -> (r: Poster)
        ensures
            r@ == (PosterView { counter: val, records: records@ }),
    {
        Poster { val, records }
    }

    /// The counter and the records, for a host to store.
    pub fn into_parts(self) -> (r: (i8, HashMap<i8, String>))
        ensures
            r.0 == self@.counter,
            r.1@ == self@.records,
    {
        (self.val, self.records)
    }

    /// The current counter value.
    pub fn get_num(&self) -> (r: i8)
        ensures
            r == self@.counter,
    {
        self.val
    }

    /// The message filed under `val`, or `None` where nothing was filed there.
    pub fn get_message(&self, val: i8) -> (r: Option<String>)
        ensures
            r == self@.lookup(val),
    {
        match self.records.get(&val) {
            Some(m) => Some(m.clone()),
            None => None,
        }
    }

    /// Advances the counter by one; only `write` and `increment` reach it.
    fn advance(&mut self) -> (r: Vec<Diagnostic>)
        requires
            old(self)@.can_advance(),
        ensures
            final(self)@ == old(self)@.advanced(),
            r@ == advance_lines(final(self)@.counter),
    {
        self.val = self.val + 1;
        let mut lines: Vec<Diagnostic> = Vec::new();
        lines.push(Diagnostic::CounterIncreased { to: self.val });
        lines.push(Diagnostic::OverflowReminder);
        lines
    }

    /// Advances the counter by one, on the contract's own behalf only.
    ///
    /// The call is refused with `Unauthorized` unless `predecessor_id` is the
    /// contract's own account `current_id`, and with `Overflow` where the
    /// counter is at its largest value. A refused call changes nothing.
    pub fn increment(
        &mut self,
        predecessor_id: &String,
        current_id: &String,
    ) -> (r: Result<Vec<Diagnostic>, PosterError>)
        ensures
            predecessor_id@ != current_id@ ==> {
                &&& r == Err::<Vec<Diagnostic>, PosterError>(PosterError::Unauthorized)
                &&& final(self)@ == old(self)@
            },
            predecessor_id@ == current_id@ && !old(self)@.can_advance() ==> {
                &&& r == Err::<Vec<Diagnostic>, PosterError>(PosterError::Overflow)
                &&& final(self)@ == old(self)@
            },
            predecessor_id@ == current_id@ && old(self)@.can_advance() ==> {
                &&& r is Ok
                &&& final(self)@ == old(self)@.advanced()
                &&& r->Ok_0@ == advance_lines(final(self)@.counter)
            },
    {
        if *predecessor_id != *current_id {
            return Err(PosterError::Unauthorized);
        }
        if self.val >= COUNTER_MAX {
            return Err(PosterError::Overflow);
        }
        Ok(self.advance())
    }

    /// Files `message` under the current counter value, replacing what was
    /// there, then advances the counter; `signer_id` is named in the log.
    ///
    /// Where the counter is at its largest value the call is refused with
    /// `Overflow` and nothing changes: no record is filed.
    pub fn set_message(&mut self, signer_id: String, message: String) -> (r: Result<Vec<Diagnostic>, PosterError>)
        ensures
            !old(self)@.can_advance() ==> {
                &&& r == Err::<Vec<Diagnostic>, PosterError>(PosterError::Overflow)
                &&& final(self)@ == old(self)@
            },
            old(self)@.can_advance() ==> {
                &&& r is Ok
                &&& final(self)@ == old(self)@.written(message)
                &&& r->Ok_0@ == write_lines(signer_id, message, old(self)@.counter)
            },
    {
        if self.val >= COUNTER_MAX {
            return Err(PosterError::Overflow);
        }
        let at = self.val;
        let mut lines: Vec<Diagnostic> = Vec::new();
        lines.push(Diagnostic::MessageSet { caller: signer_id, message: message.clone(), at });
        self.records.insert(at, message);
        let mut more = self.advance();
        lines.append(&mut more);
        Ok(lines)
    }
}

impl Default for Poster {
    fn default() -> (r: Poster)
        ensures
            r@ == PosterView::fresh(),
    {
        Poster::new()
    }
}

} // verus!
