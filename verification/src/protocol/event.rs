use vstd::prelude::*;

verus! {

/// The kinds of train events a plugin can subscribe to.
#[derive(Debug, Clone, Copy, PartialEq, Eq, Structural)]
pub enum EventType {
    /// The train enters the signal box area (`einfahrt`).
    ComingIn,
    /// The train arrives at a platform (`ankunft`).
    Arrival,
    /// The train departs from a platform (`abfahrt`).
    Departure,
    /// The train leaves the signal box area (`ausfahrt`).
    GoingOut,
    /// The train stops at a red signal (`rothalt`).
    RedStop,
    /// The signal in front of the train turned green (`wurdegruen`).
    TurnedGreen,
    /// The train is coupled (`kuppeln`).
    Couple,
    /// The train is split (`fluegeln`).
    Wing,
}

impl EventType {
    /// The name of the event type on the wire, as used in the `art` attribute.
    pub open spec fn wire_name(self) -> Seq<char> {
        match self {
            EventType::ComingIn => "einfahrt"@,
            EventType::Arrival => "ankunft"@,
            EventType::Departure => "abfahrt"@,
            EventType::GoingOut => "ausfahrt"@,
            EventType::RedStop => "rothalt"@,
            EventType::TurnedGreen => "wurdegruen"@,
            EventType::Couple => "kuppeln"@,
            EventType::Wing => "fluegeln"@,
        }
    }

    /// All event types, in declaration order.
    pub open spec fn spec_all() -> Seq<EventType> {
        seq![
            EventType::ComingIn,
            EventType::Arrival,
            EventType::Departure,
            EventType::GoingOut,
            EventType::RedStop,
            EventType::TurnedGreen,
            EventType::Couple,
            EventType::Wing,
        ]
    }

    /// Returns every event type, in declaration order.
    pub fn all() -> (r: Vec<EventType>)
        ensures
            r@ == Self::spec_all(),
    {
        vec![
            EventType::ComingIn,
            EventType::Arrival,
            EventType::Departure,
            EventType::GoingOut,
            EventType::RedStop,
            EventType::TurnedGreen,
            EventType::Couple,
            EventType::Wing,
        ]
    }

    /// The wire name of this event type, as it appears in the `art` attribute.
    pub fn name(&self) -> (r: &'static str)
        ensures
            r@ == self.wire_name(),
    {
        match self {
            EventType::ComingIn => "einfahrt",
            EventType::Arrival => "ankunft",
            EventType::Departure => "abfahrt",
            EventType::GoingOut => "ausfahrt",
            EventType::RedStop => "rothalt",
            EventType::TurnedGreen => "wurdegruen",
            EventType::Couple => "kuppeln",
            EventType::Wing => "fluegeln",
        }
    }
}

/// Every event type occurs in the list that `all` returns, and none occurs twice.
pub proof fn lemma_all_lists_each_type_once(t: EventType)
    ensures
        EventType::spec_all().contains(t),
        forall|i: int, j: int|
            0 <= i < j < EventType::spec_all().len() ==> EventType::spec_all()[i]
                != EventType::spec_all()[j],
{
    let all = EventType::spec_all();
    let k: int = match t {
        EventType::ComingIn => 0,
        EventType::Arrival => 1,
        EventType::Departure => 2,
        EventType::GoingOut => 3,
        EventType::RedStop => 4,
        EventType::TurnedGreen => 5,
        EventType::Couple => 6,
        EventType::Wing => 7,
    };
    assert(all[k] == t);
}

/// Distinct event types have distinct wire names, so the name identifies the type.
pub proof fn lemma_wire_names_distinct(a: EventType, b: EventType)
    ensures
        a != b ==> a.wire_name() != b.wire_name(),
{
    reveal_strlit("einfahrt");
    reveal_strlit("ankunft");
    reveal_strlit("abfahrt");
    reveal_strlit("ausfahrt");
    reveal_strlit("rothalt");
    reveal_strlit("wurdegruen");
    reveal_strlit("kuppeln");
    reveal_strlit("fluegeln");
    if a != b && a.wire_name() == b.wire_name() {
        assert(a.wire_name()[1] == b.wire_name()[1]);
        assert(a.wire_name()[2] == b.wire_name()[2]);
        assert(a.wire_name().len() == b.wire_name().len());
    }
}

/// A train event as StellwerkSim reports it (`<ereignis ... />`).
#[derive(Debug, Clone, PartialEq, Eq)]
pub struct Event {
    /// The train's id (`zid`).
    pub id: String,
    /// What happened (`art`).
    pub event_type: EventType,
    /// The train's name.
    pub name: String,
    /// The delay in minutes (`verspaetung`).
    pub delay: i32,
    /// The current platform (`gleis`).
    pub platform: String,
    /// The scheduled platform (`plangleis`).
    pub scheduled_platform: String,
    /// Where the train comes from (`von`).
    pub origin: String,
    /// Where the train goes (`nach`).
    pub destination: String,
    /// Whether the train is visible in the track diagram (`sichtbar`).
    pub visible: bool,
    /// Whether the train stands at its platform (`amgleis`).
    pub at_platform: bool,
    /// A text that a user attached to the train (`usertext`).
    pub user_text: Option<String>,
    /// Who sent the user text (`usertextsender`).
    pub user_text_sender: Option<String>,
    /// A notice about the train (`hinweistext`).
    pub notice_text: Option<String>,
}

} // verus!
