//! Summaries over a streamed answer.
//!
//! The service answers a summary request with a stream of chunks. A chunk is
//! text framed by a leading `data:` marker; what is left is decoded on its
//! own into an event, and a chunk that decodes to no event is skipped. Each
//! event carries text fragments, which are joined in the order in which they
//! arrive, up to and including the first event that names a finish reason.

use crate::error::{ClientError, ClientErrorView, ConfigurationFault};
use crate::number::{Float64, ONE_FIFTH_BITS, SEVEN_TENTHS_BITS};
use crate::text::{string_from_utf8, trim_start_matches, without_leading};
use crate::transport::{authorization, bearer, header, token_usable};
use crate::transport::{Header, HeaderView, HttpRequest, HttpRequestView, Method};
use vstd::prelude::*;
use vstd::string::*;
use vstd::utf8::{decode_utf8, valid_utf8};

verus! {

/// Where summaries are requested.
pub const SUMMARY_URL: &'static str =
    "https://api.nvcf.nvidia.com/v2/nvcf/pexec/functions/7b3e3361-4266-41c8-b312-f5e33c81fc92";

/// The marker that frames each chunk of the stream.
pub const DATA_PREFIX: &'static str = "data:";

/// What is reported for a chunk that is not text.
pub const NOT_TEXT: &'static str = "stream chunk is not valid UTF-8";

/// The most tokens a summary may have.
pub const SUMMARY_MAX_TOKENS: u32 = 1024;

/// The seed summaries are generated with.
pub const SUMMARY_SEED: u32 = 42;

/// One message of a conversation.
#[derive(Debug, Clone, PartialEq, Eq)]
pub struct Message {
    pub content: String,
    pub role: String,
}

/// The body of a summary request.
#[derive(Debug, Clone, PartialEq, Eq)]
pub struct RequestBody {
    pub messages: Vec<Message>,
    pub temperature: Float64,
    pub top_p: Float64,
    pub max_tokens: u32,
    pub seed: u32,
    pub stream: bool,
}

/// The increment that one choice of an event carries.
#[derive(Debug, Clone, PartialEq, Eq)]
pub struct Delta {
    pub role: String,
    pub content: String,
}

/// One choice of an event.
#[derive(Debug, Clone, PartialEq, Eq)]
pub struct Choice {
    pub index: u32,
    pub delta: Delta,
    pub finish_reason: Option<String>,
}

/// One event of the stream.
#[derive(Debug, Clone, PartialEq, Eq)]
pub struct ResponseData {
    pub id: String,
    pub choices: Vec<Choice>,
}

/// The headers of a summary request.
pub open spec fn summary_headers(token: Seq<char>) -> Seq<HeaderView> {
    seq![
        HeaderView { name: "Authorization"@, value: bearer(token) },
        HeaderView { name: "Accept"@, value: "text/event-stream"@ },
        HeaderView { name: "Content-Type"@, value: "application/json"@ },
    ]
}

/// Builds the request that asks for a streamed summary.
pub fn summary_request(token: &str) -> (r: Result<HttpRequest, ClientError>)
    ensures
        token_usable(token@) ==> (r matches Ok(req) && req@ == (HttpRequestView {
            method: Method::Post,
            url: SUMMARY_URL@,
            headers: summary_headers(token@),
        })),
        !token_usable(token@) ==> (r matches Err(e) && e@ == (ClientErrorView::Configuration {
            reason: ConfigurationFault::UnusableToken,
        })),
{
    match authorization(token) {
        Ok(auth) => {
            let mut headers: Vec<Header> = Vec::new();
            headers.push(auth);
            headers.push(header("Accept", "text/event-stream"));
            headers.push(header("Content-Type", "application/json"));
            let req = HttpRequest {
                method: Method::Post,
                url: String::from_str(SUMMARY_URL),
                headers,
            };
            assert(req@.headers =~= summary_headers(token@));
            Ok(req)
        },
        Err(e) => Err(e),
    }
}

/// The body that asks for a summary of `input`: one message from the user,
/// sampled at temperature 0.2 and nucleus mass 0.7, streamed.
pub fn summary_body(input: String) -> (body: RequestBody)
    ensures
        body.messages@.len() == 1,
        body.messages@[0].content == input,
        body.messages@[0].role@ == "user"@,
        body.temperature.bits == ONE_FIFTH_BITS,
        body.top_p.bits == SEVEN_TENTHS_BITS,
        body.max_tokens == SUMMARY_MAX_TOKENS,
        body.seed == SUMMARY_SEED,
        body.stream,
{
    let mut messages: Vec<Message> = Vec::new();
    messages.push(Message { content: input, role: String::from_str("user") });
    RequestBody {
        messages,
        temperature: Float64::from_bits(ONE_FIFTH_BITS),
        top_p: Float64::from_bits(SEVEN_TENTHS_BITS),
        max_tokens: SUMMARY_MAX_TOKENS,
        seed: SUMMARY_SEED,
        stream: true,
    }
}

/// Removes the framing of one chunk: the chunk must be text, and every
/// leading `data:` marker is taken off. What is left is the payload to
/// decode.
pub fn unframe(chunk: Vec<u8>) -> (r: Result<String, ClientError>)
    ensures
        valid_utf8(chunk@) ==> (r matches Ok(payload) && payload@ == without_leading(
            decode_utf8(chunk@),
            DATA_PREFIX@,
        )),
        !valid_utf8(chunk@) ==> (r matches Err(e) && e@ == (ClientErrorView::Transport {
            detail: NOT_TEXT@,
        })),
{
    match string_from_utf8(chunk) {
        Some(text) => {
            proof {
                reveal_strlit("data:");
            }
            let payload = trim_start_matches(text.as_str(), DATA_PREFIX);
            Ok(String::from_str(payload))
        },
        None => Err(ClientError::Transport { detail: String::from_str(NOT_TEXT) }),
    }
}

/// The fragments of `choices`, joined in order.
pub open spec fn contents(choices: Seq<Choice>) -> Seq<char>
    decreases choices.len(),
{
    if choices.len() == 0 {
        Seq::empty()
    } else {
        contents(choices.drop_last()) + choices.last().delta.content@
    }
}

/// Whether one of `choices` names a finish reason.
pub open spec fn any_finished(choices: Seq<Choice>) -> bool {
    exists|i: int| 0 <= i < choices.len() && (#[trigger] choices[i]).finish_reason is Some
}

/// The summary that a stream of chunks amounts to. A chunk that decoded to no
/// event is `None`. The fragments of every event are kept, up to and
/// including the first event that names a finish reason; what follows it is
/// not looked at.
pub open spec fn summary_of(events: Seq<Option<ResponseData>>) -> Seq<char>
    decreases events.len(),
{
    if events.len() == 0 {
        Seq::empty()
    } else {
        match events[0] {
            None => summary_of(events.drop_first()),
            Some(data) => {
                if any_finished(data.choices@) {
                    contents(data.choices@)
                } else {
                    contents(data.choices@) + summary_of(events.drop_first())
                }
            },
        }
    }
}

/// The text gathered from a stream so far, and whether the stream has named
/// a finish reason.
#[derive(Debug, Clone, PartialEq, Eq)]
pub struct SummaryStream {
    text: String,
    finished: bool,
}

impl SummaryStream {
    /// The text gathered so far.
    pub closed spec fn spec_text(&self) -> Seq<char> {
        self.text@
    }

    /// Whether an event has named a finish reason.
    pub closed spec fn spec_finished(&self) -> bool {
        self.finished
    }

    /// A stream of which nothing has arrived.
    pub fn new() -> (stream: SummaryStream)
        ensures
            stream.spec_text() == Seq::<char>::empty(),
            !stream.spec_finished(),
    {
        SummaryStream { text: String::new(), finished: false }
    }

    /// Whether an event has named a finish reason.
    pub fn is_finished(&self) -> (finished: bool)
        ensures
            finished == self.spec_finished(),
    {
        self.finished
    }

    /// Takes in one event. All of its fragments are appended, in order, and
    /// the stream is finished if one of its choices names a finish reason. A
    /// finished stream takes in nothing more.
    pub fn absorb(&mut self, event: &ResponseData)
        ensures
            old(self).spec_finished() ==> *final(self) == *old(self),
            !old(self).spec_finished() ==> final(self).spec_text() == old(self).spec_text()
                + contents(event.choices@) && final(self).spec_finished() == any_finished(
                event.choices@,
            ),
    {
        if self.finished {
            return ;
        }
        let ghost before = self.text@;
        let mut finished = false;
        let mut i: usize = 0;
        while i < event.choices.len()
            invariant
                i <= event.choices.len(),
                !self.finished,
                self.text@ == before + contents(event.choices@.take(i as int)),
                finished == any_finished(event.choices@.take(i as int)),
            decreases event.choices.len() - i,
        {
            let ghost seen = event.choices@.take(i as int);
            let ghost more = event.choices@.take(i + 1);
            let choice = &event.choices[i];
            assert(more.drop_last() =~= seen);
            assert(more.last() == *choice);
            proof {
                if any_finished(seen) {
                    let k = choose|k: int| 0 <= k < seen.len() && (#[trigger] seen[k]).finish_reason is Some;
                    assert(more[k].finish_reason is Some);
                }
                if any_finished(more) && choice.finish_reason is None {
                    let k = choose|k: int| 0 <= k < more.len() && (#[trigger] more[k]).finish_reason is Some;
                    assert(seen[k].finish_reason is Some);
                }
                if choice.finish_reason is Some {
                    assert(more[i as int].finish_reason is Some);
                }
            }
            if choice.finish_reason.is_some() {
                finished = true;
            }
            self.text.append(choice.delta.content.as_str());
            assert(self.text@ =~= before + contents(more));
            i += 1;
        }
        assert(event.choices@.take(i as int) =~= event.choices@);
        self.finished = finished;
    }

    /// The text gathered, as one string.
    pub fn into_text(self) -> (text: String)
        ensures
            text@ == self.spec_text(),
    {
        self.text
    }
}

/// Gathers the summary of a whole stream of chunks, each given as the event
/// it decoded to, or `None` where it decoded to none.
pub fn summarize(events: &Vec<Option<ResponseData>>) -> (text: String)
    ensures
        text@ == summary_of(events@),
{
    let mut stream = SummaryStream::new();
    let mut i: usize = 0;
    assert(events@.skip(0) =~= events@);
    assert(Seq::<char>::empty() + summary_of(events@) =~= summary_of(events@));
    while i < events.len() && !stream.is_finished()
        invariant
            i <= events.len(),
            !stream.spec_finished() ==> stream.spec_text() + summary_of(events@.skip(i as int))
                == summary_of(events@),
            stream.spec_finished() ==> stream.spec_text() == summary_of(events@),
        decreases events.len() - i,
    {
        let ghost rest = events@.skip(i as int);
        let ghost so_far = stream.spec_text();
        assert(rest[0] == events@[i as int]);
        assert(rest.drop_first() =~= events@.skip(i + 1));
        match &events[i] {
            Some(event) => {
                stream.absorb(event);
                proof {
                    let piece = contents(event.choices@);
                    let tail = summary_of(events@.skip(i + 1));
                    assert((so_far + piece) + tail =~= so_far + (piece + tail));
                }
            },
            None => {},
        }
        i += 1;
    }
    proof {
        if !stream.spec_finished() {
            assert(events@.skip(i as int).len() == 0);
            assert(stream.spec_text() + Seq::<char>::empty() =~= stream.spec_text());
        }
    }
    stream.into_text()
}

/// Whether the event a chunk decoded to, if any, names a finish reason.
pub open spec fn finishes(event: Option<ResponseData>) -> bool {
    event matches Some(data) && any_finished(data.choices@)
}

/// Fragments are joined in the order of arrival: as long as no event of the
/// first part of a stream names a finish reason, the summary of the whole is
/// the summary of the first part followed by that of the rest.
pub proof fn law_fragments_keep_arrival_order(
    first: Seq<Option<ResponseData>>,
    rest: Seq<Option<ResponseData>>,
)
    requires
        forall|i: int| 0 <= i < first.len() ==> !finishes(#[trigger] first[i]),
    ensures
        summary_of(first + rest) == summary_of(first) + summary_of(rest),
    decreases first.len(),
{
    if first.len() == 0 {
        assert(first + rest =~= rest);
        assert(Seq::<char>::empty() + summary_of(rest) =~= summary_of(rest));
    } else {
        assert(!finishes(first[0]));
        assert((first + rest)[0] == first[0]);
        assert((first + rest).drop_first() =~= first.drop_first() + rest);
        assert forall|i: int| 0 <= i < first.drop_first().len() implies !finishes(
            #[trigger] first.drop_first()[i],
        ) by {
            assert(first.drop_first()[i] == first[i + 1]);
        }
        law_fragments_keep_arrival_order(first.drop_first(), rest);
        if let Some(data) = first[0] {
            let piece = contents(data.choices@);
            assert(piece + (summary_of(first.drop_first()) + summary_of(rest)) =~= (piece
                + summary_of(first.drop_first())) + summary_of(rest));
        }
    }
}

/// Nothing that arrives after the first event with a finish reason changes
/// the summary.
pub proof fn law_summary_stops_at_finish(
    before: Seq<Option<ResponseData>>,
    last: ResponseData,
    after: Seq<Option<ResponseData>>,
)
    requires
        forall|i: int| 0 <= i < before.len() ==> !finishes(#[trigger] before[i]),
        any_finished(last.choices@),
    ensures
        summary_of(before + seq![Some(last)] + after) == summary_of(before) + contents(
            last.choices@,
        ),
{
    let tail = seq![Some(last)] + after;
    assert(before + seq![Some(last)] + after =~= before + tail);
    law_fragments_keep_arrival_order(before, tail);
    assert(tail[0] == Some(last));
}

} // verus!
