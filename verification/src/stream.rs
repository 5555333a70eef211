//! The decoder of streamed responses.
//!
//! A streamed response body is a sequence of lines. A line may be blank, may
//! hold the sentinel that ends the stream, or may hold one JSON fragment,
//! with or without the prefix `data:`. [`decode_line`] tells these apart.
//! [`StreamDecoder`] is the state machine of one streamed call: it says, for
//! each thing that happens to the call, what the caller does next and which
//! item, if any, the stream yields.

use vstd::prelude::*;
use vstd::string::StrSliceExecFns;
use vstd::string::StringExecFns;

use crate::error::{ErrorModel, OpenAIError};
use crate::http::HttpStatus;
use crate::text::{
    chars_of, contains, contains_in, leading_run_in, occurs_in_at, trailing_run_in, trim,
    trim_start, CharClass,
};

verus! {

/// The sentinel: a line that contains it ends the stream.
pub const SENTINEL: &'static str = "[DONE]";

/// The prefix that a line with a fragment may start with.
pub const DATA_PREFIX: &'static str = "data:";

/// What one line of a streamed body holds.
#[derive(Debug)]
pub enum LineOutcome {
    /// Nothing: the line is blank.
    Skip,
    /// The sentinel: the stream ends here.
    End,
    /// A fragment to decode as JSON.
    Payload(String),
}

/// The mathematical model of a [`LineOutcome`].
pub enum LineModel {
    /// Nothing.
    Skip,
    /// The sentinel.
    End,
    /// A fragment, as its characters.
    Payload(Seq<char>),
}

impl View for LineOutcome {
    type V = LineModel;

    open spec fn view(&self) -> LineModel {
        match self {
            LineOutcome::Skip => LineModel::Skip,
            LineOutcome::End => LineModel::End,
            LineOutcome::Payload(text) => LineModel::Payload(text@),
        }
    }
}

/// What a line holds. The line is trimmed of surrounding whitespace. An empty
/// line holds nothing. A line that contains the sentinel ends the stream.
/// Any other line holds a fragment: the line itself, or, where it starts with
/// the prefix `data:`, what follows that prefix and the whitespace after it.
pub open spec fn line_outcome(line: Seq<char>) -> LineModel {
    let trimmed = trim(line);
    if trimmed.len() == 0 {
        LineModel::Skip
    } else if contains(trimmed, SENTINEL@) {
        LineModel::End
    } else if DATA_PREFIX@.is_prefix_of(trimmed) {
        LineModel::Payload(trim_start(trimmed.skip(DATA_PREFIX@.len() as int)))
    } else {
        LineModel::Payload(trimmed)
    }
}

/// Tells what one line of a streamed body holds.
pub fn decode_line(line: &str) -> (outcome: LineOutcome)
    ensures
        outcome@ == line_outcome(line@),
{
    let chars = chars_of(line);
    let n = chars.len();
    let lead = leading_run_in(&chars, 0, n, CharClass::Whitespace);
    proof {
        assert(chars@.subrange(0, n as int) =~= line@);
        assert(trim_start(line@) =~= chars@.subrange(lead as int, n as int));
    }
    let trail = trailing_run_in(&chars, lead, n, CharClass::Whitespace);
    let start = lead;
    let end = n - trail;
    let ghost trimmed = chars@.subrange(start as int, end as int);
    proof {
        assert(trim(line@) =~= trimmed);
    }
    if start == end {
        return LineOutcome::Skip;
    }
    let sentinel = chars_of(SENTINEL);
    if contains_in(&chars, start, end, &sentinel) {
        return LineOutcome::End;
    }
    let prefix = chars_of(DATA_PREFIX);
    if occurs_in_at(&chars, start, end, &prefix, 0) {
        let after = start + prefix.len();
        let gap = leading_run_in(&chars, after, end, CharClass::Whitespace);
        proof {
            assert(trimmed.skip(prefix.len() as int) =~= chars@.subrange(after as int, end as int));
            assert(trim_start(trimmed.skip(prefix.len() as int)) =~= line@.subrange(
                after + gap,
                end as int,
            ));
        }
        LineOutcome::Payload(String::from_str(line.substring_char(after + gap, end)))
    } else {
        proof {
            assert(trimmed =~= line@.subrange(start as int, end as int));
        }
        LineOutcome::Payload(String::from_str(line.substring_char(start, end)))
    }
}

/// The state of one streamed call.
#[derive(Clone, Copy, Debug, PartialEq, Eq, Structural)]
pub enum StreamState {
    /// The request was sent; the status of the response is awaited.
    AwaitingHeaders,
    /// The response had a success status; its lines are being read.
    StreamingLines,
    /// The stream has ended, at the sentinel or at the end of the body.
    Done,
    /// The call has failed.
    Errored,
}

impl StreamState {
    /// Whether nothing more happens in this state.
    pub open spec fn terminal(self) -> bool {
        self is Done || self is Errored
    }
}

/// What the caller of a streamed call does next.
#[derive(Debug)]
pub enum StreamAction {
    /// Read the next line of the body.
    ReadLine,
    /// Read the whole body and interpret it as an error.
    ReadErrorBody,
    /// Decode this fragment as JSON.
    Decode(String),
    /// Stop: nothing more is read.
    Stop,
}

/// The mathematical model of a [`StreamAction`].
pub enum ActionModel {
    /// Read the next line.
    ReadLine,
    /// Read the body as an error.
    ReadErrorBody,
    /// Decode a fragment.
    Decode(Seq<char>),
    /// Stop.
    Stop,
}

impl View for StreamAction {
    type V = ActionModel;

    open spec fn view(&self) -> ActionModel {
        match self {
            StreamAction::ReadLine => ActionModel::ReadLine,
            StreamAction::ReadErrorBody => ActionModel::ReadErrorBody,
            StreamAction::Decode(text) => ActionModel::Decode(text@),
            StreamAction::Stop => ActionModel::Stop,
        }
    }
}

/// What the stream yields for one decoded fragment or one failed read.
#[derive(Debug)]
pub enum Emission<R> {
    /// The next item of the stream.
    Item(Result<R, OpenAIError>),
    /// No item: the fragment did not decode, for the cause given. The stream
    /// goes on.
    Skipped(serde_json::Error),
    /// No item.
    Nothing,
}

/// The state after the status of the response has arrived.
pub open spec fn state_after_response(state: StreamState, status: HttpStatus) -> StreamState {
    if state is AwaitingHeaders {
        if status.success() {
            StreamState::StreamingLines
        } else {
            StreamState::Errored
        }
    } else {
        state
    }
}

/// The action after the status of the response has arrived.
pub open spec fn action_after_response(state: StreamState, status: HttpStatus) -> ActionModel {
    if state is AwaitingHeaders {
        if status.success() {
            ActionModel::ReadLine
        } else {
            ActionModel::ReadErrorBody
        }
    } else {
        ActionModel::Stop
    }
}

/// The state after a line has been read.
pub open spec fn state_after_line(state: StreamState, line: Seq<char>) -> StreamState {
    if state is StreamingLines && line_outcome(line) is End {
        StreamState::Done
    } else {
        state
    }
}

/// The action after a line has been read.
pub open spec fn action_after_line(state: StreamState, line: Seq<char>) -> ActionModel {
    if state is StreamingLines {
        match line_outcome(line) {
            LineModel::Skip => ActionModel::ReadLine,
            LineModel::End => ActionModel::Stop,
            LineModel::Payload(text) => ActionModel::Decode(text),
        }
    } else {
        ActionModel::Stop
    }
}

/// The state after the body has ended.
pub open spec fn state_after_end(state: StreamState) -> StreamState {
    if state is StreamingLines {
        StreamState::Done
    } else {
        state
    }
}

/// The state after reading a line has failed.
pub open spec fn state_after_read_failure(state: StreamState) -> StreamState {
    if state is StreamingLines {
        StreamState::Errored
    } else {
        state
    }
}

/// The state after sending the request has failed.
pub open spec fn state_after_send_failure(state: StreamState) -> StreamState {
    if state is AwaitingHeaders {
        StreamState::Errored
    } else {
        state
    }
}

/// The state after a sequence of lines has been read.
pub open spec fn state_after_lines(state: StreamState, lines: Seq<Seq<char>>) -> StreamState {
    if state is StreamingLines && reaches_end(lines) {
        StreamState::Done
    } else {
        state
    }
}

/// The fragments that a sequence of lines holds, in order, up to the first
/// line that ends the stream.
pub open spec fn payloads(lines: Seq<Seq<char>>) -> Seq<Seq<char>>
    decreases lines.len(),
{
    if lines.len() == 0 {
        Seq::empty()
    } else {
        match line_outcome(lines.first()) {
            LineModel::Skip => payloads(lines.drop_first()),
            LineModel::End => Seq::empty(),
            LineModel::Payload(text) => seq![text] + payloads(lines.drop_first()),
        }
    }
}

/// Whether one of the lines ends the stream.
pub open spec fn reaches_end(lines: Seq<Seq<char>>) -> bool {
    exists|i: int| 0 <= i < lines.len() && #[trigger] line_outcome(lines[i]) is End
}

/// The characters of each text.
pub open spec fn texts(lines: Seq<String>) -> Seq<Seq<char>> {
    lines.map_values(|line: String| line@)
}

/// The state machine of one streamed call.
#[derive(Debug)]
pub struct StreamDecoder {
    state: StreamState,
}

impl StreamDecoder {
    /// The state of the call.
    pub closed spec fn spec_state(&self) -> StreamState {
        self.state
    }

    /// The decoder of a call whose request has been sent.
    pub fn new() -> (decoder: Self)
        ensures
            decoder.spec_state() is AwaitingHeaders,
    {
        StreamDecoder { state: StreamState::AwaitingHeaders }
    }

    /// The state of the call.
    pub fn state(&self) -> (state: StreamState)
        ensures
            state == self.spec_state(),
    {
        self.state
    }

    /// The status of the response has arrived. While headers are awaited, a
    /// success status starts the reading of lines, and any other status fails
    /// the call: the caller reads the body and interprets it as an error. In
    /// any other state nothing changes, and the caller stops.
    pub fn on_response(&mut self, status: HttpStatus) -> (action: StreamAction)
        ensures
            final(self).spec_state() == state_after_response(old(self).spec_state(), status),
            action@ == action_after_response(old(self).spec_state(), status),
    {
        match self.state {
            StreamState::AwaitingHeaders => {
                if status.is_success() {
                    self.state = StreamState::StreamingLines;
                    StreamAction::ReadLine
                } else {
                    self.state = StreamState::Errored;
                    StreamAction::ReadErrorBody
                }
            },
            _ => StreamAction::Stop,
        }
    }

    /// The request could not be sent, or no response arrived. While headers
    /// are awaited the call fails. The result is the transport error with
    /// the cause.
    pub fn on_send_failure(&mut self, cause: reqwest::Error) -> (error: OpenAIError)
        ensures
            final(self).spec_state() == state_after_send_failure(old(self).spec_state()),
            error@ == ErrorModel::Transport(cause),
    {
        match self.state {
            StreamState::AwaitingHeaders => {
                self.state = StreamState::Errored;
            },
            _ => {},
        }
        OpenAIError::from(cause)
    }

    /// A line of the body has been read. While lines are read, a blank line
    /// is passed over, a line with the sentinel ends the stream, and any
    /// other line gives a fragment to decode. In any other state nothing
    /// changes, and the caller stops.
    pub fn on_line(&mut self, line: &str) -> (action: StreamAction)
        ensures
            final(self).spec_state() == state_after_line(old(self).spec_state(), line@),
            action@ == action_after_line(old(self).spec_state(), line@),
    {
        match self.state {
            StreamState::StreamingLines => match decode_line(line) {
                LineOutcome::Skip => StreamAction::ReadLine,
                LineOutcome::End => {
                    self.state = StreamState::Done;
                    StreamAction::Stop
                },
                LineOutcome::Payload(text) => StreamAction::Decode(text),
            },
            _ => StreamAction::Stop,
        }
    }

    /// A fragment has been decoded. While lines are read, a decoded value is
    /// the next item of the stream; a fragment that did not decode yields no
    /// item and does not end the stream. In any other state nothing is
    /// yielded. The state does not change.
    pub fn on_decoded<R>(&self, decoded: Result<R, serde_json::Error>) -> (emission: Emission<R>)
        ensures
            emission == (if self.spec_state() is StreamingLines {
                match decoded {
                    Ok(value) => Emission::Item(Ok(value)),
                    Err(cause) => Emission::Skipped(cause),
                }
            } else {
                Emission::Nothing
            }),
    {
        match self.state {
            StreamState::StreamingLines => match decoded {
                Ok(value) => Emission::Item(Ok(value)),
                Err(cause) => Emission::Skipped(cause),
            },
            _ => Emission::Nothing,
        }
    }

    /// Reading a line has failed. While lines are read, the stream yields a
    /// transport error with the cause as its last item, and the call fails.
    /// In any other state nothing is yielded and nothing changes.
    pub fn on_read_failure<R>(&mut self, cause: reqwest::Error) -> (emission: Emission<R>)
        ensures
            final(self).spec_state() == state_after_read_failure(old(self).spec_state()),
            old(self).spec_state() is StreamingLines ==> emission is Item && emission->Item_0 is Err
                && emission->Item_0->Err_0@ == ErrorModel::Transport(cause),
            !(old(self).spec_state() is StreamingLines) ==> emission is Nothing,
    {
        match self.state {
            StreamState::StreamingLines => {
                self.state = StreamState::Errored;
                Emission::Item(Err(OpenAIError::from(cause)))
            },
            _ => Emission::Nothing,
        }
    }

    /// The body has ended. While lines are read, the stream ends. In any
    /// other state nothing changes.
    pub fn on_end(&mut self)
        ensures
            final(self).spec_state() == state_after_end(old(self).spec_state()),
    {
        match self.state {
            StreamState::StreamingLines => {
                self.state = StreamState::Done;
            },
            _ => {},
        }
    }

    /// Feeds the decoder the given lines, in order, and collects the
    /// fragments to decode. While lines are read, the result holds the
    /// fragments of the lines up to the first one that ends the stream, and
    /// the stream has ended if there was such a line. In any other state the
    /// result is empty and nothing changes.
    pub fn decode_lines(&mut self, lines: &Vec<String>) -> (found: Vec<String>)
        ensures
            final(self).spec_state() == state_after_lines(old(self).spec_state(), texts(lines@)),
            old(self).spec_state() is StreamingLines ==> texts(found@) == payloads(texts(lines@)),
            !(old(self).spec_state() is StreamingLines) ==> found@.len() == 0,
    {
        let mut found: Vec<String> = Vec::new();
        if self.state != StreamState::StreamingLines {
            return found;
        }
        let ghost all = texts(lines@);
        let mut i: usize = 0;
        proof {
            assert(all.skip(0) =~= all);
            assert(texts(found@) =~= Seq::<Seq<char>>::empty());
        }
        while i < lines.len()
            invariant
                0 <= i <= lines.len(),
                all == texts(lines@),
                old(self).spec_state() is StreamingLines,
                self.spec_state() is StreamingLines,
                payloads(all) == texts(found@) + payloads(all.skip(i as int)),
                forall|k: int| 0 <= k < i ==> !(#[trigger] line_outcome(all[k]) is End),
            decreases lines.len() - i,
        {
            let ghost rest = all.skip(i as int);
            let ghost before = texts(found@);
            proof {
                assert(rest.first() == lines@[i as int]@);
                assert(rest.drop_first() =~= all.skip(i + 1));
            }
            match self.on_line(lines[i].as_str()) {
                StreamAction::Decode(text) => {
                    found.push(text);
                    proof {
                        assert(texts(found@) =~= before + seq![text@]);
                        assert(payloads(all) =~= texts(found@) + payloads(all.skip(i + 1)));
                    }
                },
                StreamAction::ReadLine => {},
                _ => {
                    proof {
                        assert(line_outcome(all[i as int]) is End);
                        assert(payloads(all) =~= texts(found@));
                    }
                    return found;
                },
            }
            i = i + 1;
        }
        proof {
            assert(all.skip(i as int) =~= Seq::<Seq<char>>::empty());
            assert(payloads(all) =~= texts(found@));
        }
        found
    }
}

/// Whether a call may pass from one state to another in one step: from
/// awaiting headers to streaming lines or to failure, from streaming lines to
/// the end or to failure, and from any state to itself.
pub open spec fn may_follow(from: StreamState, to: StreamState) -> bool {
    ||| to == from
    ||| from is AwaitingHeaders && (to is StreamingLines || to is Errored)
    ||| from is StreamingLines && (to is Done || to is Errored)
}

/// Every step of a call follows the state machine, whatever happens to the
/// call.
pub proof fn lemma_steps_follow_the_state_machine(
    state: StreamState,
    status: HttpStatus,
    line: Seq<char>,
    lines: Seq<Seq<char>>,
)
    ensures
        may_follow(state, state_after_response(state, status)),
        may_follow(state, state_after_send_failure(state)),
        may_follow(state, state_after_line(state, line)),
        may_follow(state, state_after_lines(state, lines)),
        may_follow(state, state_after_read_failure(state)),
        may_follow(state, state_after_end(state)),
{
}

/// Once a call is done or has failed, nothing more happens: the status of a
/// response or a line changes no state, and the caller stops.
pub proof fn lemma_terminal_states_absorb(state: StreamState, status: HttpStatus, line: Seq<char>)
    requires
        state.terminal(),
    ensures
        state_after_response(state, status) == state,
        action_after_response(state, status) is Stop,
        state_after_line(state, line) == state,
        action_after_line(state, line) is Stop,
        state_after_end(state) == state,
        state_after_read_failure(state) == state,
        state_after_send_failure(state) == state,
        forall|lines: Seq<Seq<char>>| #[trigger] state_after_lines(state, lines) == state,
{
}

/// Fragments come in the order of their lines: the fragments of a sequence
/// of lines are those of its first part, followed by those of the rest
/// unless the first part ends the stream.
pub proof fn lemma_payloads_in_order(first: Seq<Seq<char>>, rest: Seq<Seq<char>>)
    ensures
        payloads(first + rest) == (if reaches_end(first) {
            payloads(first)
        } else {
            payloads(first) + payloads(rest)
        }),
    decreases first.len(),
{
    if first.len() == 0 {
        assert(first + rest =~= rest);
        assert(payloads(first) =~= Seq::<Seq<char>>::empty());
        assert(payloads(first) + payloads(rest) =~= payloads(rest));
    } else {
        let all = first + rest;
        let tail = first.drop_first();
        assert(all.first() == first.first());
        assert(all.drop_first() =~= tail + rest);
        lemma_payloads_in_order(tail, rest);
        match line_outcome(first.first()) {
            LineModel::End => {
                assert(line_outcome(first[0]) is End);
            },
            _ => {
                if reaches_end(tail) {
                    let i = choose|i: int| 0 <= i < tail.len() && #[trigger] line_outcome(tail[i]) is End;
                    assert(line_outcome(first[i + 1]) is End);
                } else if reaches_end(first) {
                    let i = choose|i: int| 0 <= i < first.len() && #[trigger] line_outcome(first[i]) is End;
                    assert(i > 0);
                    assert(line_outcome(tail[i - 1]) is End);
                }
                match line_outcome(first.first()) {
                    LineModel::Payload(text) => {
                        assert(payloads(all) =~= seq![text] + payloads(tail + rest));
                        if !reaches_end(first) {
                            assert(seq![text] + (payloads(tail) + payloads(rest)) =~= (seq![text]
                                + payloads(tail)) + payloads(rest));
                        }
                    },
                    _ => {},
                }
            },
        }
    }
}

/// A line that holds nothing adds no fragment.
pub proof fn lemma_blank_line_adds_nothing(line: Seq<char>, rest: Seq<Seq<char>>)
    requires
        line_outcome(line) is Skip,
    ensures
        payloads(seq![line] + rest) == payloads(rest),
{
    let all = seq![line] + rest;
    assert(all.first() == line);
    assert(all.drop_first() =~= rest);
}

} // verus!
