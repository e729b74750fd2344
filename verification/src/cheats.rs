//! The cheat registry: the overrides that are in force, and what was captured.

use vstd::prelude::*;
use crate::assoc::{Table, TableKey, TableValue};
use crate::felt::{copy_felts, ClassHash, ContractAddress, Felt, Selector};

verus! {

/// Where a cheat applies: at one contract, or at every contract of the call tree.
#[derive(Clone, Copy, Debug, PartialEq, Eq, Structural, Hash)]
pub enum CheatScope {
    Target(ContractAddress),
    Global,
}

/// How long a cheat was installed for.
#[derive(Clone, Copy, Debug, PartialEq, Eq, Structural, Hash)]
pub enum CheatSpan {
    UntilCanceled,
    Indefinite,
}

/// The facts that a cheat can override.
#[derive(Clone, Copy, Debug, PartialEq, Eq, Structural, Hash)]
pub enum CheatKind {
    /// The caller that a contract sees.
    Caller,
    /// The block that a contract sees.
    BlockInfo,
    /// The class whose code runs at an address.
    Elect,
    /// The result of calling the entry point with this selector.
    MockCall(Selector),
}

/// The key of a cheat: what it overrides, and where.
#[derive(Clone, Copy, Debug, PartialEq, Eq, Structural, Hash)]
pub struct CheatKey {
    pub kind: CheatKind,
    pub scope: CheatScope,
}

impl View for CheatKey {
    type V = CheatKey;

    open spec fn view(&self) -> CheatKey {
        *self
    }
}

impl TableKey for CheatKey {
    fn same(&self, other: &Self) -> (r: bool) {
        let kinds = match (self.kind, other.kind) {
            (CheatKind::Caller, CheatKind::Caller) => true,
            (CheatKind::BlockInfo, CheatKind::BlockInfo) => true,
            (CheatKind::Elect, CheatKind::Elect) => true,
            (CheatKind::MockCall(a), CheatKind::MockCall(b)) => a.same(&b),
            _ => false,
        };
        let scopes = match (self.scope, other.scope) {
            (CheatScope::Target(a), CheatScope::Target(b)) => a.same(&b),
            (CheatScope::Global, CheatScope::Global) => true,
            _ => false,
        };
        kinds && scopes
    }

    fn duplicate(&self) -> (r: Self) {
        *self
    }
}

/// The block as a contract sees it.
#[derive(Clone, Copy, Debug, PartialEq, Eq)]
pub struct BlockInfo {
    pub timestamp: u64,
    pub block_number: u64,
    pub sequencer: ContractAddress,
}

/// The parts of the block that a cheat sets; a part that is not set shows the real
/// value.
#[derive(Clone, Copy, Debug, PartialEq, Eq)]
pub struct BlockInfoOverride {
    pub timestamp: Option<u64>,
    pub block_number: Option<u64>,
    pub sequencer: Option<ContractAddress>,
}

/// An override, with the value it puts in place of the real one.
#[derive(Clone, Debug, PartialEq, Eq)]
pub enum Cheat {
    Caller(ContractAddress),
    BlockInfo(BlockInfoOverride),
    Elect(ClassHash),
    MockCall { selector: Selector, return_data: Vec<Felt> },
}

/// What an override stands for.
pub enum CheatView {
    Caller(ContractAddress),
    BlockInfo(BlockInfoOverride),
    Elect(ClassHash),
    MockCall { selector: Selector, return_data: Seq<Felt> },
}

impl View for Cheat {
    type V = CheatView;

    open spec fn view(&self) -> CheatView {
        match self {
            Cheat::Caller(caller) => CheatView::Caller(*caller),
            Cheat::BlockInfo(info) => CheatView::BlockInfo(*info),
            Cheat::Elect(class_hash) => CheatView::Elect(*class_hash),
            Cheat::MockCall { selector, return_data } => CheatView::MockCall {
                selector: *selector,
                return_data: return_data@,
            },
        }
    }
}

/// The fact that an override is about.
pub open spec fn kind_of(cheat: CheatView) -> CheatKind {
    match cheat {
        CheatView::Caller(_) => CheatKind::Caller,
        CheatView::BlockInfo(_) => CheatKind::BlockInfo,
        CheatView::Elect(_) => CheatKind::Elect,
        CheatView::MockCall { selector, .. } => CheatKind::MockCall(selector),
    }
}

impl Cheat {
    /// The fact that the override is about.
    pub fn kind(&self) -> (r: CheatKind)
        ensures
            r == kind_of(self@),
    {
        match self {
            Cheat::Caller(_) => CheatKind::Caller,
            Cheat::BlockInfo(_) => CheatKind::BlockInfo,
            Cheat::Elect(_) => CheatKind::Elect,
            Cheat::MockCall { selector, .. } => CheatKind::MockCall(*selector),
        }
    }

    /// A copy of the override.
    pub fn duplicate(&self) -> (r: Self)
        ensures
            r@ == self@,
    {
        match self {
            Cheat::Caller(caller) => Cheat::Caller(*caller),
            Cheat::BlockInfo(info) => Cheat::BlockInfo(*info),
            Cheat::Elect(class_hash) => Cheat::Elect(*class_hash),
            Cheat::MockCall { selector, return_data } => Cheat::MockCall {
                selector: *selector,
                return_data: copy_felts(return_data),
            },
        }
    }
}

/// An override as the registry keeps it.
#[derive(Clone, Debug, PartialEq, Eq)]
pub struct CheatEntry {
    pub cheat: Cheat,
    pub span: CheatSpan,
}

/// What an entry stands for.
pub struct CheatEntryView {
    pub cheat: CheatView,
    pub span: CheatSpan,
}

impl View for CheatEntry {
    type V = CheatEntryView;

    open spec fn view(&self) -> CheatEntryView {
        CheatEntryView { cheat: self.cheat@, span: self.span }
    }
}

impl TableValue for CheatEntry {
    fn duplicate(&self) -> (r: Self) {
        CheatEntry { cheat: self.cheat.duplicate(), span: self.span }
    }
}

/// An event that a contract emitted.
#[derive(Clone, Debug, PartialEq, Eq)]
pub struct Event {
    pub from_address: ContractAddress,
    pub keys: Vec<Felt>,
    pub data: Vec<Felt>,
}

/// What an event stands for.
pub struct EventView {
    pub from_address: ContractAddress,
    pub keys: Seq<Felt>,
    pub data: Seq<Felt>,
}

impl View for Event {
    type V = EventView;

    open spec fn view(&self) -> EventView {
        EventView { from_address: self.from_address, keys: self.keys@, data: self.data@ }
    }
}

impl Event {
    /// A copy of the event.
    pub fn duplicate(&self) -> (r: Self)
        ensures
            r@ == self@,
    {
        Event {
            from_address: self.from_address,
            keys: copy_felts(&self.keys),
            data: copy_felts(&self.data),
        }
    }
}

/// A message between the two layers, waiting to be delivered.
#[derive(Clone, Debug, PartialEq, Eq)]
pub struct L1Message {
    pub from_address: ContractAddress,
    pub payload: Vec<Felt>,
}

/// What a message stands for.
pub struct L1MessageView {
    pub from_address: ContractAddress,
    pub payload: Seq<Felt>,
}

impl View for L1Message {
    type V = L1MessageView;

    open spec fn view(&self) -> L1MessageView {
        L1MessageView { from_address: self.from_address, payload: self.payload@ }
    }
}

impl L1Message {
    /// A copy of the message.
    pub fn duplicate(&self) -> (r: Self)
        ensures
            r@ == self@,
    {
        L1Message { from_address: self.from_address, payload: copy_felts(&self.payload) }
    }
}

/// Which events are captured.
#[derive(Clone, Copy, Debug, PartialEq, Eq, Structural, Hash)]
pub enum SpyMode {
    /// None: spying is not active.
    Off,
    /// The events of every contract.
    All,
    /// The events of one contract.
    From(ContractAddress),
}

/// What a list of events stands for.
pub open spec fn event_views(events: Seq<Event>) -> Seq<EventView> {
    Seq::new(events.len(), |i: int| events[i]@)
}

/// What a list of messages stands for.
pub open spec fn message_views(messages: Seq<L1Message>) -> Seq<L1MessageView> {
    Seq::new(messages.len(), |i: int| messages[i]@)
}

/// A copy of a list of events.
pub fn copy_events(events: &Vec<Event>) -> (r: Vec<Event>)
    ensures
        event_views(r@) == event_views(events@),
{
    let mut copy: Vec<Event> = Vec::new();
    let mut i: usize = 0;
    while i < events.len()
        invariant
            i <= events.len(),
            event_views(copy@) == event_views(events@).take(i as int),
        decreases events.len() - i,
    {
        let event = events[i].duplicate();
        proof {
            let whole = event_views(events@);
            assert(whole.take(i + 1) =~= whole.take(i as int).push(whole[i as int]));
        }
        copy.push(event);
        i += 1;
    }
    copy
}

/// A copy of a list of messages.
pub fn copy_messages(messages: &Vec<L1Message>) -> (r: Vec<L1Message>)
    ensures
        message_views(r@) == message_views(messages@),
{
    let mut copy: Vec<L1Message> = Vec::new();
    let mut i: usize = 0;
    while i < messages.len()
        invariant
            i <= messages.len(),
            message_views(copy@) == message_views(messages@).take(i as int),
        decreases messages.len() - i,
    {
        let message = messages[i].duplicate();
        proof {
            let whole = message_views(messages@);
            assert(whole.take(i + 1) =~= whole.take(i as int).push(whole[i as int]));
        }
        copy.push(message);
        i += 1;
    }
    copy
}

/// The overrides in force in one run, and what was captured in it.
#[derive(Debug)]
pub struct CheatRegistry {
    cheats: Table<CheatKey, CheatEntry>,
    spy: SpyMode,
    captured: Vec<Event>,
    collecting: bool,
    messages: Vec<L1Message>,
}

/// What a registry stands for.
pub struct CheatRegistryView {
    /// The overrides, by what they override and where.
    pub cheats: Map<CheatKey, CheatEntryView>,
    /// Which events are being captured.
    pub spy: SpyMode,
    /// The captured events, oldest first.
    pub captured: Seq<EventView>,
    /// Whether messages are being collected.
    pub collecting: bool,
    /// The collected messages that wait for delivery, oldest first.
    pub messages: Seq<L1MessageView>,
}

impl View for CheatRegistry {
    type V = CheatRegistryView;

    closed spec fn view(&self) -> CheatRegistryView {
        CheatRegistryView {
            cheats: self.cheats@,
            spy: self.spy,
            captured: event_views(self.captured@),
            collecting: self.collecting,
            messages: message_views(self.messages@),
        }
    }
}

/// The override of `kind` that applies while `executing` runs: the one installed for
/// that very contract, else the global one, else none.
pub open spec fn active_cheat(
    cheats: Map<CheatKey, CheatEntryView>,
    kind: CheatKind,
    executing: ContractAddress,
) -> Option<CheatView> {
    if cheats.contains_key(CheatKey { kind, scope: CheatScope::Target(executing) }) {
        Some(cheats[CheatKey { kind, scope: CheatScope::Target(executing) }].cheat)
    } else if cheats.contains_key(CheatKey { kind, scope: CheatScope::Global }) {
        Some(cheats[CheatKey { kind, scope: CheatScope::Global }].cheat)
    } else {
        None
    }
}

/// Whether an event of `from` is captured under the given mode.
pub open spec fn spied(spy: SpyMode, from: ContractAddress) -> bool {
    match spy {
        SpyMode::Off => false,
        SpyMode::All => true,
        SpyMode::From(address) => address == from,
    }
}

/// The registry with no override, that captures nothing.
pub open spec fn empty_registry() -> CheatRegistryView {
    CheatRegistryView {
        cheats: Map::empty(),
        spy: SpyMode::Off,
        captured: Seq::empty(),
        collecting: false,
        messages: Seq::empty(),
    }
}

impl CheatRegistry {
    /// A registry with no override, that captures nothing.
    pub fn new() -> (r: Self)
        ensures
            r@ == empty_registry(),
    {
        let registry = CheatRegistry {
            cheats: Table::new(),
            spy: SpyMode::Off,
            captured: Vec::new(),
            collecting: false,
            messages: Vec::new(),
        };
        assert(registry@.captured =~= Seq::empty());
        assert(registry@.messages =~= Seq::empty());
        registry
    }

    /// Installs an override, in place of any that is in force for the same fact and
    /// the same scope.
    pub fn apply_cheat(&mut self, scope: CheatScope, cheat: Cheat, span: CheatSpan)
        ensures
            final(self)@ == (CheatRegistryView {
                cheats: old(self)@.cheats.insert(
                    CheatKey { kind: kind_of(cheat@), scope },
                    CheatEntryView { cheat: cheat@, span },
                ),
                ..old(self)@
            }),
    {
        let key = CheatKey { kind: cheat.kind(), scope };
        self.cheats.set(key, CheatEntry { cheat, span });
    }

    /// Removes the override for the given fact and scope, if one is in force.
    pub fn cancel_cheat(&mut self, kind: CheatKind, scope: CheatScope)
        ensures
            final(self)@ == (CheatRegistryView {
                cheats: old(self)@.cheats.remove(CheatKey { kind, scope }),
                ..old(self)@
            }),
    {
        self.cheats.remove(&CheatKey { kind, scope });
    }

    /// The override of `kind` that applies while `executing` runs.
    pub fn lookup(&self, kind: CheatKind, executing: ContractAddress) -> (r: Option<&Cheat>)
        ensures
            match r {
                Some(cheat) => active_cheat(self@.cheats, kind, executing) == Some(cheat@),
                None => active_cheat(self@.cheats, kind, executing) is None,
            },
    {
        match self.cheats.get(&CheatKey { kind, scope: CheatScope::Target(executing) }) {
            Some(entry) => Some(&entry.cheat),
            None => match self.cheats.get(&CheatKey { kind, scope: CheatScope::Global }) {
                Some(entry) => Some(&entry.cheat),
                None => None,
            },
        }
    }

    /// Starts or stops the capture of events.
    pub fn set_spy(&mut self, spy: SpyMode)
        ensures
            final(self)@ == (CheatRegistryView { spy, ..old(self)@ }),
    {
        self.spy = spy;
    }

    /// Starts or stops the collection of messages.
    pub fn set_collecting(&mut self, collecting: bool)
        ensures
            final(self)@ == (CheatRegistryView { collecting, ..old(self)@ }),
    {
        self.collecting = collecting;
    }

    /// Takes note of an emitted event: a copy goes to the end of the captured events
    /// where the capture is active and takes in the emitting contract.
    pub fn observe_event(&mut self, event: &Event)
        ensures
            final(self)@ == (CheatRegistryView {
                captured: if spied(old(self)@.spy, event.from_address) {
                    old(self)@.captured.push(event@)
                } else {
                    old(self)@.captured
                },
                ..old(self)@
            }),
    {
        let capture = match self.spy {
            SpyMode::Off => false,
            SpyMode::All => true,
            SpyMode::From(address) => address.same(&event.from_address),
        };
        if capture {
            let copy = event.duplicate();
            proof {
                assert(event_views(self.captured@.push(copy)) =~= event_views(
                    self.captured@,
                ).push(event@));
            }
            self.captured.push(copy);
        }
    }

    /// Takes note of a sent message: a copy goes to the end of the waiting messages
    /// where the collection is active.
    pub fn observe_message(&mut self, message: &L1Message)
        ensures
            final(self)@ == (CheatRegistryView {
                messages: if old(self)@.collecting {
                    old(self)@.messages.push(message@)
                } else {
                    old(self)@.messages
                },
                ..old(self)@
            }),
    {
        if self.collecting {
            let copy = message.duplicate();
            proof {
                assert(message_views(self.messages@.push(copy)) =~= message_views(
                    self.messages@,
                ).push(message@));
            }
            self.messages.push(copy);
        }
    }

    /// Takes the message that has waited longest out of the queue.
    pub fn next_message(&mut self) -> (r: Option<L1Message>)
        ensures
            match r {
                Some(message) => {
                    &&& old(self)@.messages.len() > 0
                    &&& message@ == old(self)@.messages[0]
                    &&& final(self)@ == (CheatRegistryView {
                        messages: old(self)@.messages.drop_first(),
                        ..old(self)@
                    })
                },
                None => old(self)@.messages.len() == 0 && final(self)@ == old(self)@,
            },
    {
        if self.messages.len() == 0 {
            return None;
        }
        proof {
            assert(message_views(self.messages@.remove(0)) =~= message_views(
                self.messages@,
            ).drop_first());
        }
        let message = self.messages.remove(0);
        Some(message)
    }

    /// The captured events, oldest first.
    pub fn captured_events(&self) -> (r: Vec<Event>)
        ensures
            event_views(r@) == self@.captured,
    {
        copy_events(&self.captured)
    }

    /// A copy of the registry.
    pub fn duplicate(&self) -> (r: Self)
        ensures
            r@ == self@,
    {
        CheatRegistry {
            cheats: self.cheats.duplicate(),
            spy: self.spy,
            captured: copy_events(&self.captured),
            collecting: self.collecting,
            messages: copy_messages(&self.messages),
        }
    }
}

} // verus!
