use vstd::prelude::*;

verus! {

/// The largest net worth a participant record can hold.
pub const NET_WORTH_MAX: u64 = 0xffff_ffff_ffff_ffff;

/// A registered participant: an address and its net worth.
pub struct Millionaire {
    pub address: String,
    pub net_worth: u64,
}

/// The mathematical value of a participant record.
pub struct Participant {
    pub address: Seq<char>,
    pub net_worth: u64,
}

impl View for Millionaire {
    type V = Participant;

    open spec fn view(&self) -> Participant {
        Participant { address: self.address@, net_worth: self.net_worth }
    }
}

impl Millionaire {
    /// A field-by-field copy of the record.
    pub fn duplicate(&self) -> (r: Millionaire)
        ensures
            r@ == self@,
    {
        Millionaire { address: self.address.clone(), net_worth: self.net_worth }
    }
}

/// The richest record after `m` has been registered on top of `current`:
/// the newcomer takes the slot only with a strictly larger net worth.
pub open spec fn next_richest(current: Option<Participant>, m: Participant) -> Option<Participant> {
    match current {
        Option::None => Option::Some(m),
        Option::Some(c) => if m.net_worth > c.net_worth {
            Option::Some(m)
        } else {
            Option::Some(c)
        },
    }
}

/// The richest record after registering every participant of `s`, in order.
pub open spec fn richest_of(s: Seq<Participant>) -> Option<Participant>
    decreases s.len(),
{
    if s.len() == 0 {
        Option::None
    } else {
        next_richest(richest_of(s.drop_last()), s.last())
    }
}

/// The mathematical value of a store: the richest slot and every
/// registration committed so far, oldest first.
pub struct LedgerView {
    pub richest: Option<Participant>,
    pub history: Seq<Participant>,
}

/// The value of an optional record.
pub open spec fn option_view(o: Option<Millionaire>) -> Option<Participant> {
    match o {
        Option::Some(m) => Option::Some(m@),
        Option::None => Option::None,
    }
}

/// The net worth each registered address holds: the latest registration of
/// an address overrides its earlier ones.
pub open spec fn registry(s: Seq<Participant>) -> Map<Seq<char>, u64>
    decreases s.len(),
{
    if s.len() == 0 {
        Map::empty()
    } else {
        registry(s.drop_last()).insert(s.last().address, s.last().net_worth)
    }
}

/// The durable state of one ledger: the slot that holds the richest record
/// and the log of participant registrations.
pub struct Store {
    richest: Option<Millionaire>,
    history: Vec<Millionaire>,
}

impl View for Store {
    type V = LedgerView;

    closed spec fn view(&self) -> LedgerView {
        LedgerView {
            richest: option_view(self.richest),
            history: self.history@.map_values(|m: Millionaire| m@),
        }
    }
}

impl Store {
    /// The richest slot agrees with the registrations that were committed.
    pub open spec fn wf(&self) -> bool {
        self@.richest == richest_of(self@.history)
    }

    /// A store that holds nothing.
    pub fn new() -> (r: Store)
        ensures
            r@.richest.is_none(),
            r@.history.len() == 0,
            r.wf(),
    {
        let r = Store { richest: None, history: Vec::new() };
        assert(r@.history.len() == 0);
        r
    }

    /// Appends a registration to the participant log.
    pub fn record_participant(&mut self, m: Millionaire)
        ensures
            final(self)@.history == old(self)@.history.push(m@),
            final(self)@.richest == old(self)@.richest,
    {
        self.history.push(m);
        assert(self@.history =~= old(self)@.history.push(m@));
    }

    /// The number of registrations committed so far.
    pub fn participant_count(&self) -> (r: usize)
        ensures
            r == self@.history.len(),
    {
        self.history.len()
    }

    /// The registration at position `i` of the log, oldest first.
    pub fn participant_at(&self, i: usize) -> (r: Millionaire)
        requires
            i < self@.history.len(),
        ensures
            r@ == self@.history[i as int],
    {
        self.history[i].duplicate()
    }
}

/// Overwrites the richest slot of `storage` with `m`.
pub fn millionaires(storage: &mut Store, m: Millionaire)
    ensures
        final(storage)@.richest == Option::Some(m@),
        final(storage)@.history == old(storage)@.history,
{
    storage.richest = Option::Some(m);
}

/// Reads the richest slot of `storage`, `None` while it was never written.
pub fn millionaires_read(storage: &Store) -> (r: Option<Millionaire>)
    ensures
        option_view(r) == storage@.richest,
{
    match &storage.richest {
        Option::Some(m) => Option::Some(m.duplicate()),
        Option::None => Option::None,
    }
}

} // verus!
