use vstd::prelude::*;
use vstd::string::*;

use crate::protocol::event::EventType;

verus! {

broadcast use vstd::string::group_string_axioms;

/// A request that a plugin sends to StellwerkSim.
#[derive(Debug, Clone, PartialEq, Eq)]
pub enum Request {
    /// Registers the plugin (`register`).
    Register { name: String, author: String, version: String, description: String },
    /// Asks for the in-game time (`simzeit`).
    SimulatorTime,
    /// Asks for information about the signal box (`anlageninfo`).
    SystemInfo,
    /// Asks for the list of platforms (`bahnsteigliste`).
    PlatformList,
    /// Asks for the list of trains (`zugliste`).
    TrainList,
    /// Asks for the details of one train (`zugdetails`).
    TrainDetails { train_id: String },
    /// Asks for the timetable of one train (`zugfahrplan`).
    TrainTimetable { train_id: String },
    /// Asks for the shapes and connections of the track diagram (`wege`).
    Ways,
    /// Subscribes to one kind of event of one train (`ereignis`).
    Subscribe { train_id: String, event: EventType },
}

/// The text of a `register` request.
pub open spec fn register_text(
    name: Seq<char>,
    author: Seq<char>,
    version: Seq<char>,
    description: Seq<char>,
) -> Seq<char> {
    "<register name='"@ + name + "' autor='"@ + author + "' version='"@ + version
        + "' protokoll='1' text='"@ + description + "' />"@
}

/// The text of a request about one train, `<element zid='train_id' />`.
pub open spec fn train_request_text(element: Seq<char>, train_id: Seq<char>) -> Seq<char> {
    "<"@ + element + " zid='"@ + train_id + "' />"@
}

/// The text of an `ereignis` subscription.
pub open spec fn subscribe_text(train_id: Seq<char>, event: EventType) -> Seq<char> {
    "<ereignis zid='"@ + train_id + "' art='"@ + event.wire_name() + "' />"@
}

impl Request {
    /// The name of the XML element that the request consists of.
    pub open spec fn element(&self) -> Seq<char> {
        match self {
            Request::Register { .. } => "register"@,
            Request::SimulatorTime => "simzeit"@,
            Request::SystemInfo => "anlageninfo"@,
            Request::PlatformList => "bahnsteigliste"@,
            Request::TrainList => "zugliste"@,
            Request::TrainDetails { .. } => "zugdetails"@,
            Request::TrainTimetable { .. } => "zugfahrplan"@,
            Request::Ways => "wege"@,
            Request::Subscribe { .. } => "ereignis"@,
        }
    }

    /// The line that is sent for the request.
    pub open spec fn text(&self) -> Seq<char> {
        match self {
            Request::Register { name, author, version, description } => register_text(
                name@,
                author@,
                version@,
                description@,
            ),
            Request::SimulatorTime => "<simzeit />"@,
            Request::SystemInfo => "<anlageninfo />"@,
            Request::PlatformList => "<bahnsteigliste />"@,
            Request::TrainList => "<zugliste />"@,
            Request::TrainDetails { train_id } => train_request_text("zugdetails"@, train_id@),
            Request::TrainTimetable { train_id } => train_request_text("zugfahrplan"@, train_id@),
            Request::Ways => "<wege />"@,
            Request::Subscribe { train_id, event } => subscribe_text(train_id@, *event),
        }
    }

    /// The line that ends a response of several lines, for requests whose response has
    /// more than one line; `None` where the response is a single line.
    pub open spec fn spec_ending_tag(&self) -> Option<Seq<char>> {
        match self {
            Request::PlatformList => Some("</bahnsteigliste>"@),
            Request::TrainList => Some("</zugliste>"@),
            Request::TrainTimetable { .. } => Some("</zugfahrplan>"@),
            Request::Ways => Some("</wege>"@),
            _ => None,
        }
    }

    /// Builds the line that is sent for the request.
    pub fn message(&self) -> (r: String)
        ensures
            r@ == self.text(),
            self matches Request::TrainDetails { train_id } ==> r@ == "<zugdetails zid='"@
                + train_id@ + "' />"@,
            self matches Request::TrainTimetable { train_id } ==> r@ == "<zugfahrplan zid='"@
                + train_id@ + "' />"@,
            self matches Request::Subscribe { train_id, event } ==> r@ == "<ereignis zid='"@
                + train_id@ + "' art='"@ + event.wire_name() + "' />"@,
    {
        let mut s = String::new();
        match self {
            Request::Register { name, author, version, description } => {
                s.append("<register name='");
                s.append(name.as_str());
                s.append("' autor='");
                s.append(author.as_str());
                s.append("' version='");
                s.append(version.as_str());
                s.append("' protokoll='1' text='");
                s.append(description.as_str());
                s.append("' />");
            },
            Request::SimulatorTime => {
                s.append("<simzeit />");
            },
            Request::SystemInfo => {
                s.append("<anlageninfo />");
            },
            Request::PlatformList => {
                s.append("<bahnsteigliste />");
            },
            Request::TrainList => {
                s.append("<zugliste />");
            },
            Request::TrainDetails { train_id } => {
                s.append("<");
                s.append("zugdetails");
                s.append(" zid='");
                s.append(train_id.as_str());
                s.append("' />");
            },
            Request::TrainTimetable { train_id } => {
                s.append("<");
                s.append("zugfahrplan");
                s.append(" zid='");
                s.append(train_id.as_str());
                s.append("' />");
            },
            Request::Ways => {
                s.append("<wege />");
            },
            Request::Subscribe { train_id, event } => {
                s.append("<ereignis zid='");
                s.append(train_id.as_str());
                s.append("' art='");
                s.append(event.name());
                s.append("' />");
            },
        }
        proof {
            assert(Seq::<char>::empty() + self.text() =~= self.text());
            lemma_train_lines(*self);
        }
        s
    }

    /// The line that ends the response to the request, where the response has several
    /// lines.
    pub fn ending_tag(&self) -> (r: Option<&'static str>)
        ensures
            match (r, self.spec_ending_tag()) {
                (Some(t), Some(u)) => t@ == u,
                (None, None) => true,
                _ => false,
            },
    {
        match self {
            Request::PlatformList => Some("</bahnsteigliste>"),
            Request::TrainList => Some("</zugliste>"),
            Request::TrainTimetable { .. } => Some("</zugfahrplan>"),
            Request::Ways => Some("</wege>"),
            _ => None,
        }
    }
}

/// The subscription lines for the given event types of one train, one per event type,
/// in the order of `events`.
pub fn subscription_messages(train_id: &str, events: &Vec<EventType>) -> (r: Vec<String>)
    ensures
        r.len() == events.len(),
        forall|i: int|
            0 <= i < events.len() ==> #[trigger] r[i]@ == subscribe_text(train_id@, events[i]),
        forall|i: int|
            0 <= i < events.len() ==> #[trigger] r[i]@ == "<ereignis zid='"@ + train_id@
                + "' art='"@ + events[i].wire_name() + "' />"@,
{
    let mut r: Vec<String> = Vec::new();
    let n = events.len();
    for i in 0..n
        invariant
            n == events.len(),
            r.len() == i,
            forall|k: int|
                0 <= k < i ==> #[trigger] r[k]@ == subscribe_text(train_id@, events[k]),
    {
        let req = Request::Subscribe { train_id: train_id.to_string(), event: events[i] };
        r.push(req.message());
    }
    r
}

/// Every request is one self-closing XML element: its line starts with `<`, the element's
/// name and a space, and ends with ` />`. Where the response has several lines, the line
/// that ends it is the closing tag of the element that the request names.
pub proof fn lemma_request_shape(r: Request)
    ensures
        r.text().len() >= r.element().len() + 4,
        r.text().subrange(0, r.element().len() + 2int) == "<"@ + r.element() + " "@,
        r.text().subrange(r.text().len() - 3, r.text().len() as int) == " />"@,
        r.spec_ending_tag() matches Some(t) ==> t == "</"@ + r.element() + ">"@,
{
    reveal_strlit("<");
    reveal_strlit(" ");
    reveal_strlit(" />");
    reveal_strlit("' />");
    reveal_strlit("</");
    reveal_strlit(">");
    reveal_strlit("<register name='");
    reveal_strlit("register");
    reveal_strlit("<simzeit />");
    reveal_strlit("simzeit");
    reveal_strlit("<anlageninfo />");
    reveal_strlit("anlageninfo");
    reveal_strlit("<bahnsteigliste />");
    reveal_strlit("bahnsteigliste");
    reveal_strlit("</bahnsteigliste>");
    reveal_strlit("<zugliste />");
    reveal_strlit("zugliste");
    reveal_strlit("</zugliste>");
    reveal_strlit("zugdetails");
    reveal_strlit("zugfahrplan");
    reveal_strlit("</zugfahrplan>");
    reveal_strlit(" zid='");
    reveal_strlit("<wege />");
    reveal_strlit("wege");
    reveal_strlit("</wege>");
    reveal_strlit("<ereignis zid='");
    reveal_strlit("ereignis");
    let t = r.text();
    let e = r.element();
    match r {
        Request::Register { name, author, version, description } => {
            assert(t =~= "<register name='"@ + (name@ + "' autor='"@ + author@ + "' version='"@
                + version@ + "' protokoll='1' text='"@ + description@ + "' />"@));
            assert(t.subrange(0, e.len() + 2int) =~= "<"@ + e + " "@);
            assert(t.subrange(t.len() - 3, t.len() as int) =~= " />"@);
        },
        Request::TrainDetails { train_id } => {
            assert(t.subrange(0, e.len() + 2int) =~= "<"@ + e + " "@);
            assert(t.subrange(t.len() - 3, t.len() as int) =~= " />"@);
        },
        Request::TrainTimetable { train_id } => {
            assert(t.subrange(0, e.len() + 2int) =~= "<"@ + e + " "@);
            assert(t.subrange(t.len() - 3, t.len() as int) =~= " />"@);
            assert(r.spec_ending_tag()->0 =~= "</"@ + e + ">"@);
        },
        Request::Subscribe { train_id, event } => {
            assert(t =~= "<ereignis zid='"@ + (train_id@ + "' art='"@ + event.wire_name()
                + "' />"@));
            assert(t.subrange(0, e.len() + 2int) =~= "<"@ + e + " "@);
            assert(t.subrange(t.len() - 3, t.len() as int) =~= " />"@);
        },
        Request::PlatformList => {
            assert(t.subrange(0, e.len() + 2int) =~= "<"@ + e + " "@);
            assert(t.subrange(t.len() - 3, t.len() as int) =~= " />"@);
            assert(r.spec_ending_tag()->0 =~= "</"@ + e + ">"@);
        },
        Request::TrainList => {
            assert(t.subrange(0, e.len() + 2int) =~= "<"@ + e + " "@);
            assert(t.subrange(t.len() - 3, t.len() as int) =~= " />"@);
            assert(r.spec_ending_tag()->0 =~= "</"@ + e + ">"@);
        },
        Request::Ways => {
            assert(t.subrange(0, e.len() + 2int) =~= "<"@ + e + " "@);
            assert(t.subrange(t.len() - 3, t.len() as int) =~= " />"@);
            assert(r.spec_ending_tag()->0 =~= "</"@ + e + ">"@);
        },
        _ => {
            assert(t.subrange(0, e.len() + 2int) =~= "<"@ + e + " "@);
            assert(t.subrange(t.len() - 3, t.len() as int) =~= " />"@);
        },
    }
}

/// A request about one train carries the train's id verbatim between `zid='` and `'`, and a
/// subscription carries the event type's wire name in its `art` attribute.
pub proof fn lemma_train_lines(r: Request)
    ensures
        r matches Request::TrainDetails { train_id } ==> r.text() == "<zugdetails zid='"@
            + train_id@ + "' />"@,
        r matches Request::TrainTimetable { train_id } ==> r.text() == "<zugfahrplan zid='"@
            + train_id@ + "' />"@,
        r matches Request::Subscribe { train_id, event } ==> r.text() == "<ereignis zid='"@
            + train_id@ + "' art='"@ + event.wire_name() + "' />"@,
{
    reveal_strlit("<");
    reveal_strlit("zugdetails");
    reveal_strlit("zugfahrplan");
    reveal_strlit(" zid='");
    reveal_strlit("<zugdetails zid='");
    reveal_strlit("<zugfahrplan zid='");
    match r {
        Request::TrainDetails { train_id } => {
            assert(r.text() =~= "<zugdetails zid='"@ + train_id@ + "' />"@);
        },
        Request::TrainTimetable { train_id } => {
            assert(r.text() =~= "<zugfahrplan zid='"@ + train_id@ + "' />"@);
        },
        _ => {},
    }
}

/// `p + x + q == p + y + q` only where `x == y`.
proof fn lemma_cancel_around(p: Seq<char>, x: Seq<char>, y: Seq<char>, q: Seq<char>)
    requires
        p + x + q == p + y + q,
    ensures
        x == y,
{
    let a = p + x + q;
    let b = p + y + q;
    assert(a.len() == b.len());
    assert(x =~= a.subrange(p.len() as int, (p.len() + x.len()) as int));
    assert(y =~= b.subrange(p.len() as int, (p.len() + y.len()) as int));
}

/// Two requests for train details, or for train timetables, have the same line only where
/// they ask about the same train: the line names exactly the train asked about.
pub proof fn lemma_train_lines_name_the_train(a: Request, b: Request)
    ensures
        a is TrainDetails && b is TrainDetails ==> (a.text() == b.text()
            <==> a->TrainDetails_train_id@ == b->TrainDetails_train_id@),
        a is TrainTimetable && b is TrainTimetable ==> (a.text() == b.text()
            <==> a->TrainTimetable_train_id@ == b->TrainTimetable_train_id@),
{
    lemma_train_lines(a);
    lemma_train_lines(b);
    if a is TrainDetails && b is TrainDetails && a.text() == b.text() {
        lemma_cancel_around("<zugdetails zid='"@, a->TrainDetails_train_id@, b->TrainDetails_train_id@, "' />"@);
    }
    if a is TrainTimetable && b is TrainTimetable && a.text() == b.text() {
        lemma_cancel_around("<zugfahrplan zid='"@, a->TrainTimetable_train_id@, b->TrainTimetable_train_id@, "' />"@);
    }
}

/// The subscriptions of one train to two event types have the same line only where the
/// event types are the same: each line subscribes to exactly the event type asked for.
pub proof fn lemma_subscription_lines_name_the_event(train_id: Seq<char>, e1: EventType, e2: EventType)
    ensures
        subscribe_text(train_id, e1) == subscribe_text(train_id, e2) <==> e1 == e2,
{
    if subscribe_text(train_id, e1) == subscribe_text(train_id, e2) {
        let p = "<ereignis zid='"@ + train_id + "' art='"@;
        let q = "' />"@;
        assert(subscribe_text(train_id, e1) =~= p + e1.wire_name() + q);
        assert(subscribe_text(train_id, e2) =~= p + e2.wire_name() + q);
        lemma_cancel_around(p, e1.wire_name(), e2.wire_name(), q);
        crate::protocol::event::lemma_wire_names_distinct(e1, e2);
    }
}

} // verus!
