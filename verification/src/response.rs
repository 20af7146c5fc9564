//! Incoming lines: routing them, and assembling the lines of one response.

use vstd::prelude::*;
use vstd::string::*;

use crate::error::Error;
use crate::text::{chars_of, trim, trimmed};

verus! {

broadcast use vstd::string::group_string_axioms;

/// Whether `p` is a prefix of `s`.
pub open spec fn is_prefix(p: Seq<char>, s: Seq<char>) -> bool {
    p.len() <= s.len() && s.subrange(0, p.len() as int) == p
}

/// Whether `s` starts with `p`.
pub fn starts_with(s: &str, p: &str) -> (r: bool)
    ensures
        r == is_prefix(p@, s@),
{
    let cs = chars_of(s);
    let ps = chars_of(p);
    if ps.len() > cs.len() {
        return false;
    }
    let n = ps.len();
    let mut i: usize = 0;
    while i < n
        invariant
            n == ps@.len() <= cs@.len(),
            cs@ == s@,
            ps@ == p@,
            i <= n,
            forall|k: int| 0 <= k < i ==> cs@[k] == ps@[k],
        decreases n - i,
    {
        if cs[i] != ps[i] {
            assert(s@.subrange(0, p@.len() as int)[i as int] != p@[i as int]);
            return false;
        }
        i = i + 1;
    }
    assert(s@.subrange(0, p@.len() as int) =~= p@);
    true
}

/// Whether a trimmed line is an event that StellwerkSim pushes on its own.
pub open spec fn is_event_line(trimmed_line: Seq<char>) -> bool {
    is_prefix("<ereignis"@, trimmed_line)
}

/// Where an incoming line goes: to the event subscribers, or to the reader of responses.
#[derive(Debug, Clone, PartialEq, Eq)]
pub enum Incoming {
    /// A pushed event; the line without surrounding white space.
    Event(String),
    /// A line of a response; the line without surrounding white space.
    Response(String),
}

/// Sorts an incoming line: trimmed, it is an event where it starts with `<ereignis`,
/// and otherwise a line of a response.
pub fn route_line(line: &str) -> (r: Incoming)
    ensures
        match r {
            Incoming::Event(m) => m@ == trim(line@) && is_event_line(trim(line@)),
            Incoming::Response(m) => m@ == trim(line@) && !is_event_line(trim(line@)),
        },
        (r is Event) <==> (trim(line@).len() >= "<ereignis"@.len() && trim(line@).subrange(
            0,
            "<ereignis"@.len() as int,
        ) == "<ereignis"@),
{
    let message = trimmed(line);
    if starts_with(message.as_str(), "<ereignis") {
        Incoming::Event(message)
    } else {
        Incoming::Response(message)
    }
}

/// The lines joined without separators.
pub open spec fn concat_lines(lines: Seq<Seq<char>>) -> Seq<char>
    decreases lines.len(),
{
    if lines.len() == 0 {
        Seq::empty()
    } else {
        concat_lines(lines.drop_last()) + lines.last()
    }
}

/// Whether `line` ends a response: every line does where the response is a single
/// line, and otherwise the line that, trimmed, is the ending tag.
pub open spec fn ends_response(line: Seq<char>, ending_tag: Option<Seq<char>>) -> bool {
    match ending_tag {
        None => true,
        Some(t) => trim(line) == t,
    }
}

/// Whether `lines` are the lines of one complete response: the last line ends it and no
/// line before does.
pub open spec fn is_complete_response(lines: Seq<Seq<char>>, ending_tag: Option<Seq<char>>) -> bool {
    &&& lines.len() > 0
    &&& ends_response(lines.last(), ending_tag)
    &&& forall|i: int| 0 <= i < lines.len() - 1 ==> !ends_response(#[trigger] lines[i], ending_tag)
}

/// Collects the lines of one response, as they come from the connection.
pub struct ResponseReader {
    ending_tag: Option<String>,
    text: String,
    complete: bool,
    lines: Ghost<Seq<Seq<char>>>,
}

/// The text of the error that a closed channel ends a response in.
pub open spec fn channel_closed_text() -> Seq<char> {
    "channel closed"@
}

impl ResponseReader {
    /// The ending tag the reader waits for, if any.
    pub closed spec fn spec_ending_tag(&self) -> Option<Seq<char>> {
        match self.ending_tag {
            Some(t) => Some(t@),
            None => None,
        }
    }

    /// The lines received so far, in order.
    pub closed spec fn received(&self) -> Seq<Seq<char>> {
        self.lines@
    }

    /// Whether the last line received ended the response.
    pub closed spec fn is_complete(&self) -> bool {
        self.complete
    }

    /// The reader's internal state agrees with the lines it received.
    pub closed spec fn wf(&self) -> bool {
        &&& self.text@ == concat_lines(self.lines@)
        &&& self.complete == (self.lines@.len() > 0 && ends_response(
            self.lines@.last(),
            self.spec_ending_tag(),
        ))
        &&& forall|i: int|
            0 <= i < self.lines@.len() - 1 ==> !ends_response(
                #[trigger] self.lines@[i],
                self.spec_ending_tag(),
            )
    }

    /// A reader for a response that ends with the line `ending_tag`, or that is a single
    /// line where `ending_tag` is `None`.
    pub fn new(ending_tag: Option<&str>) -> (r: ResponseReader)
        ensures
            r.wf(),
            r.received() == Seq::<Seq<char>>::empty(),
            !r.is_complete(),
            r.spec_ending_tag() == match ending_tag {
                Some(t) => Some(t@),
                None => None::<Seq<char>>,
            },
    {
        let tag = match ending_tag {
            Some(t) => Some(t.to_string()),
            None => None,
        };
        ResponseReader { ending_tag: tag, text: String::new(), complete: false, lines: Ghost(Seq::empty()) }
    }

    /// Takes the next line from the connection, or `None` where the connection's channel
    /// has closed. Returns whether the response is complete; a closed channel is an error.
    pub fn push(&mut self, line: Option<String>) -> (r: Result<bool, Error>)
        requires
            old(self).wf(),
            !old(self).is_complete(),
        ensures
            final(self).wf(),
            final(self).spec_ending_tag() == old(self).spec_ending_tag(),
            match line {
                None => {
                    &&& r matches Err(Error::ChannelError(m)) && m@ == channel_closed_text()
                    &&& final(self).received() == old(self).received()
                    &&& !final(self).is_complete()
                },
                Some(l) => {
                    &&& final(self).received() == old(self).received().push(l@)
                    &&& r == Ok::<bool, Error>(final(self).is_complete())
                    &&& final(self).is_complete() == ends_response(l@, old(self).spec_ending_tag())
                    &&& final(self).is_complete() == match old(self).spec_ending_tag() {
                        None => true,
                        Some(t) => trim(l@) == t,
                    }
                },
            },
    {
        match line {
            None => Err(Error::ChannelError("channel closed".to_string())),
            Some(l) => {
                let ends = match &self.ending_tag {
                    None => true,
                    Some(t) => trimmed(l.as_str()) == *t,
                };
                self.text.append(l.as_str());
                self.lines = Ghost(self.lines@.push(l@));
                self.complete = ends;
                proof {
                    assert(self.lines@.drop_last() =~= old(self).lines@);
                    assert forall|i: int| 0 <= i < self.lines@.len() - 1 implies !ends_response(
                        #[trigger] self.lines@[i],
                        self.spec_ending_tag(),
                    ) by {
                        assert(self.lines@[i] == old(self).lines@[i]);
                    }
                }
                Ok(ends)
            },
        }
    }

    /// The text of the complete response: its lines joined.
    pub fn into_text(self) -> (r: String)
        requires
            self.wf(),
            self.is_complete(),
        ensures
            r@ == concat_lines(self.received()),
            is_complete_response(self.received(), self.spec_ending_tag()),
    {
        self.text
    }
}

/// A trimmed line is an event exactly when it begins with `<ereignis`, whatever else it
/// holds and however long it is.
pub proof fn lemma_event_line_iff_prefix(trimmed_line: Seq<char>)
    ensures
        is_event_line(trimmed_line) <==> (trimmed_line.len() >= "<ereignis"@.len()
            && trimmed_line.subrange(0, "<ereignis"@.len() as int) == "<ereignis"@),
        is_event_line("<ereignis"@ + trimmed_line),
{
    let p = "<ereignis"@;
    assert((p + trimmed_line).subrange(0, p.len() as int) =~= p);
}

/// Where a response has an ending tag, a line ends it exactly when the line, trimmed, is
/// the tag; where it has none, every line ends it. In particular the tag itself, without
/// surrounding white space, ends the response, and so does the tag with white space around.
pub proof fn lemma_ending_line(line: Seq<char>, tag: Seq<char>)
    ensures
        ends_response(line, Some(tag)) <==> trim(line) == tag,
        ends_response(line, None),
        trim(tag) == tag ==> ends_response(tag, Some(tag)),
        trim(line) == tag ==> ends_response(line, Some(tag)),
{
}

} // verus!
