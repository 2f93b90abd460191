use vstd::prelude::*;
use crate::capabilities::{capabilities_announcement, capabilities_message};
use crate::dispatch::{handle_message, response_to};
use crate::json::text;
use crate::message::{Envelope, Message};
use crate::service::PlanetScaleService;

verus! {

/// What the input stream hands the server next.
pub enum Event {
    /// A line that decoded to a message.
    Line(Message),
    /// A line that did not decode, with what the decoder said of it.
    Malformed(String),
    /// The input stream closed.
    EndOfInput,
}

/// What the server does in answer to an event.
pub enum Action {
    /// Write this message as one line of the output stream.
    Reply(Message),
    /// Write this diagnostic to the error stream; nothing goes to the output stream.
    Report(String),
    /// Stop reading; the process ends with success.
    Stop,
}

/// The model of an event.
pub enum Input {
    Line(Envelope),
    Malformed(Seq<char>),
    EndOfInput,
}

/// The model of an action.
pub enum Output {
    Reply(Envelope),
    Report(Seq<char>),
    Stop,
}

impl Event {
    pub open spec fn view(&self) -> Input {
        match self {
            Event::Line(m) => Input::Line(m@),
            Event::Malformed(d) => Input::Malformed(d@),
            Event::EndOfInput => Input::EndOfInput,
        }
    }
}

impl Action {
    pub open spec fn view(&self) -> Output {
        match self {
            Action::Reply(m) => Output::Reply(m@),
            Action::Report(d) => Output::Report(d@),
            Action::Stop => Output::Stop,
        }
    }
}

/// One step of the server: from whether the input has ended and the next
/// event, to whether it has ended after it and what to do.
pub open spec fn next(ended: bool, event: Input) -> (bool, Output) {
    if ended {
        (true, Output::Stop)
    } else {
        match event {
            Input::Line(request) => (false, Output::Reply(response_to(request))),
            Input::Malformed(detail) => (false, Output::Report("Error parsing message: "@ + detail)),
            Input::EndOfInput => (true, Output::Stop),
        }
    }
}

/// The lines that the server writes to the output stream in answer to
/// `events`, starting in state `ended`.
pub open spec fn replies(ended: bool, events: Seq<Input>) -> Seq<Envelope>
    decreases events.len(),
{
    if events.len() == 0 {
        seq![]
    } else {
        let (after, action) = next(ended, events[0]);
        let rest = replies(after, events.drop_first());
        match action {
            Output::Reply(m) => seq![m] + rest,
            _ => rest,
        }
    }
}

/// The state after `events`, starting in state `ended`.
pub open spec fn state_after(ended: bool, events: Seq<Input>) -> bool
    decreases events.len(),
{
    if events.len() == 0 {
        ended
    } else {
        state_after(next(ended, events[0]).0, events.drop_first())
    }
}

/// Everything the server writes to the output stream over a run that reads
/// `events`: the announcement, then the replies.
pub open spec fn transcript(events: Seq<Input>) -> Seq<Envelope> {
    seq![capabilities_message()] + replies(false, events)
}

/// The server over one run of the input stream.
pub struct Session {
    ended: bool,
}

impl Session {
    /// Whether the input has ended.
    pub closed spec fn view(&self) -> bool {
        self.ended
    }

    /// Starts a run: the session, and the announcement to write before any
    /// line is read.
    pub fn open() -> (r: (Session, Message))
        ensures
            !r.0@,
            r.1@ == capabilities_message(),
    {
        (Session { ended: false }, capabilities_announcement())
    }

    /// Whether the input has ended.
    pub fn is_ended(&self) -> (r: bool)
        ensures
            r == self@,
    {
        self.ended
    }

    /// Decides what to do with the next event.
    pub fn step(&mut self, service: &PlanetScaleService, event: Event) -> (r: Action)
        ensures
            (final(self)@, r@) == next(old(self)@, event@),
    {
        if self.ended {
            return Action::Stop;
        }
        match event {
            Event::Line(request) => Action::Reply(handle_message(service, request)),
            Event::Malformed(detail) => Action::Report(
                text("Error parsing message: ").concat(detail.as_str()),
            ),
            Event::EndOfInput => {
                self.ended = true;
                Action::Stop
            },
        }
    }
}

/// Reading `a` then `b` writes the replies to `a`, then those to `b`.
pub proof fn lemma_replies_append(ended: bool, a: Seq<Input>, b: Seq<Input>)
    ensures
        replies(ended, a + b) == replies(ended, a) + replies(state_after(ended, a), b),
        state_after(ended, a + b) == state_after(state_after(ended, a), b),
    decreases a.len(),
{
    if a.len() == 0 {
        assert(a + b =~= b);
    } else {
        assert((a + b).drop_first() =~= a.drop_first() + b);
        lemma_replies_append(next(ended, a[0]).0, a.drop_first(), b);
        assert(replies(ended, a + b) =~= replies(ended, a) + replies(state_after(ended, a), b));
    }
}

/// Once the input has ended, nothing more is written.
pub proof fn lemma_ended_is_silent(events: Seq<Input>)
    ensures
        replies(true, events) == Seq::<Envelope>::empty(),
        state_after(true, events),
    decreases events.len(),
{
    if events.len() > 0 {
        lemma_ended_is_silent(events.drop_first());
    }
}

/// The first line of the output stream is the announcement, whatever the
/// input holds, even when it holds no request at all.
pub proof fn lemma_announcement_first(events: Seq<Input>)
    ensures
        transcript(events).len() >= 1,
        transcript(events)[0] == capabilities_message(),
{
}

/// A line that does not decode writes nothing to the output stream and does
/// not end the run: the transcript is the one without that line.
pub proof fn lemma_malformed_line_is_skipped(
    before: Seq<Input>,
    detail: Seq<char>,
    after: Seq<Input>,
)
    ensures
        transcript(before + seq![Input::Malformed(detail)] + after) == transcript(before + after),
{
    let middle = seq![Input::Malformed(detail)];
    lemma_replies_append(false, before, middle);
    lemma_replies_append(false, before + middle, after);
    lemma_replies_append(false, before, after);
    let s = state_after(false, before);
    assert(middle.drop_first() =~= Seq::<Input>::empty());
    assert(middle[0] == Input::Malformed(detail));
    assert(replies(next(s, middle[0]).0, middle.drop_first()) =~= Seq::<Envelope>::empty());
    assert(state_after(next(s, middle[0]).0, middle.drop_first()) == next(s, middle[0]).0);
    assert(replies(s, middle) =~= Seq::<Envelope>::empty());
    assert(state_after(s, middle) == s);
    assert(replies(false, before + middle) =~= replies(false, before));
}

/// The end of the input stops the run: nothing is written after it, whatever
/// would have followed.
pub proof fn lemma_end_of_input_stops(before: Seq<Input>, after: Seq<Input>)
    ensures
        transcript(before + seq![Input::EndOfInput] + after) == transcript(before),
        next(state_after(false, before), Input::EndOfInput) == (true, Output::Stop),
{
    let end = seq![Input::EndOfInput];
    lemma_replies_append(false, before, end);
    lemma_replies_append(false, before + end, after);
    let s = state_after(false, before);
    assert(end.drop_first() =~= Seq::<Input>::empty());
    assert(end[0] == Input::EndOfInput);
    assert(replies(next(s, end[0]).0, end.drop_first()) =~= Seq::<Envelope>::empty());
    assert(state_after(next(s, end[0]).0, end.drop_first()) == next(s, end[0]).0);
    assert(replies(s, end) =~= Seq::<Envelope>::empty());
    assert(state_after(s, end));
    lemma_ended_is_silent(after);
    assert(replies(false, before + end + after) =~= replies(false, before));
}

} // verus!
