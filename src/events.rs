//! The relay's wire events, the synthetic trailer events, and the decoder
//! that turns the lines of a response body into a finite event sequence.
use vstd::prelude::*;

use crate::errors::CompletionError;

verus! {

/// The request quota of a plan.
#[derive(Clone, Copy, Debug, PartialEq, Eq, Structural)]
pub enum UsageLimit {
    Limited(u32),
    Unlimited,
}

/// Request accounting reported by the relay: requests used and the quota.
#[derive(Clone, Copy, Debug, PartialEq, Eq, Structural)]
pub struct ModelRequestUsage {
    pub amount: u32,
    pub limit: UsageLimit,
}

/// A non-content signal of a completion stream.
#[derive(Debug, PartialEq)]
pub enum CompletionRequestStatus {
    Queued { position: usize },
    Started,
    Failed { code: String, message: String },
    UsageUpdated { amount: usize, limit: UsageLimit },
    ToolUseLimitReached,
}

/// One element of a relay stream: a status signal or a provider-native event.
#[derive(Debug, PartialEq)]
pub enum CompletionEvent<T> {
    Status(CompletionRequestStatus),
    Event(T),
}

/// One line of the body as decoded: in status-wrapped mode a whole
/// `CompletionEvent`, in plain mode a bare provider event, or a line that did
/// not decode (with the decoder's message).
#[derive(Debug, PartialEq)]
pub enum ParsedLine<T> {
    Wrapped(CompletionEvent<T>),
    Bare(T),
    Malformed(String),
}

/// The outcome of reading one line of the body.
#[derive(Debug, PartialEq)]
pub enum LineRead<T> {
    Line(ParsedLine<T>),
    /// A read of zero bytes: the body is exhausted.
    End,
    /// The transport failed, with its message.
    Failed(String),
}

/// The usage trailer, present only where usage was captured.
pub open spec fn usage_trailer<T>(usage: Option<ModelRequestUsage>) -> Seq<CompletionEvent<T>> {
    match usage {
        Some(u) => seq![
            CompletionEvent::Status(
                CompletionRequestStatus::UsageUpdated { amount: u.amount as usize, limit: u.limit },
            ),
        ],
        None => Seq::empty(),
    }
}

/// The tool-use-limit trailer, present only where the flag is set.
pub open spec fn tool_limit_trailer<T>(tool_use_limit_reached: bool) -> Seq<CompletionEvent<T>> {
    if tool_use_limit_reached {
        seq![CompletionEvent::Status(CompletionRequestStatus::ToolUseLimitReached)]
    } else {
        Seq::empty()
    }
}

/// The synthetic events appended after the last line: usage, then tool limit.
pub open spec fn trailers<T>(usage: Option<ModelRequestUsage>, tool_use_limit_reached: bool) -> Seq<
    Result<CompletionEvent<T>, CompletionError>,
> {
    (usage_trailer(usage) + tool_limit_trailer(tool_use_limit_reached)).map_values(
        |e: CompletionEvent<T>| Ok(e),
    )
}

/// What one decoded line contributes: a bare event is wrapped as `Event`; a
/// line that did not decode is an error.
pub open spec fn line_event<T>(line: ParsedLine<T>) -> Result<CompletionEvent<T>, CompletionError> {
    match line {
        ParsedLine::Wrapped(e) => Ok(e),
        ParsedLine::Bare(t) => Ok(CompletionEvent::Event(t)),
        ParsedLine::Malformed(m) => Err(CompletionError::Transport { message: m }),
    }
}

/// What one read contributes to the output, and whether the sequence ends.
pub open spec fn read_output<T>(
    read: LineRead<T>,
    usage: Option<ModelRequestUsage>,
    tool_use_limit_reached: bool,
) -> Seq<Result<CompletionEvent<T>, CompletionError>> {
    match read {
        LineRead::Line(l) => seq![line_event(l)],
        LineRead::End => trailers(usage, tool_use_limit_reached),
        LineRead::Failed(m) => seq![Err(CompletionError::Transport { message: m })],
    }
}

/// A read after which nothing more is produced.
pub open spec fn ends_stream<T>(read: LineRead<T>) -> bool {
    match read {
        LineRead::Line(l) => line_event(l) is Err,
        _ => true,
    }
}

/// The output for the reads `reads`, in order: each line's event until the
/// end of the body, then the trailers; a failure ends the sequence with its
/// error. Reads after the end are never made.
pub open spec fn decoded<T>(
    reads: Seq<LineRead<T>>,
    usage: Option<ModelRequestUsage>,
    tool_use_limit_reached: bool,
) -> Seq<Result<CompletionEvent<T>, CompletionError>>
    decreases reads.len(),
{
    if reads.len() == 0 {
        Seq::empty()
    } else if ends_stream(reads[0]) {
        read_output(reads[0], usage, tool_use_limit_reached)
    } else {
        read_output(reads[0], usage, tool_use_limit_reached) + decoded(
            reads.drop_first(),
            usage,
            tool_use_limit_reached,
        )
    }
}

/// The usage trailer for `usage`, if any.
pub fn usage_updated_event<T>(usage: Option<ModelRequestUsage>) -> (r: Option<CompletionEvent<T>>)
    ensures
        match r {
            Some(e) => usage_trailer::<T>(usage) == seq![e],
            None => usage_trailer::<T>(usage) == Seq::<CompletionEvent<T>>::empty(),
        },
{
    match usage {
        Some(u) => Some(
            CompletionEvent::Status(
                CompletionRequestStatus::UsageUpdated { amount: u.amount as usize, limit: u.limit },
            ),
        ),
        None => None,
    }
}

/// The tool-use-limit trailer, if the flag is set.
pub fn tool_use_limit_reached_event<T>(tool_use_limit_reached: bool) -> (r: Option<
    CompletionEvent<T>,
>)
    ensures
        match r {
            Some(e) => tool_limit_trailer::<T>(tool_use_limit_reached) == seq![e],
            None => tool_limit_trailer::<T>(tool_use_limit_reached) == Seq::<
                CompletionEvent<T>,
            >::empty(),
        },
{
    if tool_use_limit_reached {
        Some(CompletionEvent::Status(CompletionRequestStatus::ToolUseLimitReached))
    } else {
        None
    }
}

/// The event of one decoded line.
pub fn decode_line<T>(line: ParsedLine<T>) -> (r: Result<CompletionEvent<T>, CompletionError>)
    ensures
        r == line_event(line),
{
    match line {
        ParsedLine::Wrapped(e) => Ok(e),
        ParsedLine::Bare(t) => Ok(CompletionEvent::Event(t)),
        ParsedLine::Malformed(m) => Err(CompletionError::Transport { message: m }),
    }
}

/// Lazy decoder of one response body. The caller reads a line while
/// `is_finished` is false and hands each read to `on_read`, yielding what it
/// returns; the body is read no further once the decoder has finished.
pub struct EventDecoder {
    pub includes_status_messages: bool,
    pub usage: Option<ModelRequestUsage>,
    pub tool_use_limit_reached: bool,
    pub finished: bool,
}

impl EventDecoder {
    /// A decoder for a body in the given mode, with the trailer data captured
    /// from the response headers.
    pub fn new(
        includes_status_messages: bool,
        usage: Option<ModelRequestUsage>,
        tool_use_limit_reached: bool,
    ) -> (r: EventDecoder)
        ensures
            r.includes_status_messages == includes_status_messages,
            r.usage == usage,
            r.tool_use_limit_reached == tool_use_limit_reached,
            !r.finished,
    {
        EventDecoder { includes_status_messages, usage, tool_use_limit_reached, finished: false }
    }

    /// Whether the sequence has ended, so that no more lines are read.
    pub fn is_finished(&self) -> (r: bool)
        ensures
            r == self.finished,
    {
        self.finished
    }

    /// Consumes one read of the body and returns what it adds to the sequence.
    pub fn on_read<T>(&mut self, read: LineRead<T>) -> (r: Vec<Result<CompletionEvent<T>, CompletionError>>)
        requires
            !old(self).finished,
        ensures
            r@ == read_output(read, old(self).usage, old(self).tool_use_limit_reached),
            final(self).finished == ends_stream(read),
            final(self).usage == old(self).usage,
            final(self).tool_use_limit_reached == old(self).tool_use_limit_reached,
            final(self).includes_status_messages == old(self).includes_status_messages,
    {
        let mut out: Vec<Result<CompletionEvent<T>, CompletionError>> = Vec::new();
        match read {
            LineRead::Line(l) => {
                let e = decode_line(l);
                if e.is_err() {
                    self.finished = true;
                }
                out.push(e);
            },
            LineRead::End => {
                self.finished = true;
                if let Some(e) = usage_updated_event(self.usage) {
                    out.push(Ok(e));
                }
                if let Some(e) = tool_use_limit_reached_event(self.tool_use_limit_reached) {
                    out.push(Ok(e));
                }
                proof {
                    assert(out@ =~= trailers::<T>(self.usage, self.tool_use_limit_reached));
                }
            },
            LineRead::Failed(m) => {
                self.finished = true;
                out.push(Err(CompletionError::Transport { message: m }));
            },
        }
        proof {
            if !(read is End) {
                assert(out@ =~= read_output(read, old(self).usage, old(self).tool_use_limit_reached));
            }
        }
        out
    }
}

/// Decodes a whole body given as the sequence of its reads (the lines already
/// decoded in the body's mode).
pub fn decode_all<T>(
    reads: Vec<LineRead<T>>,
    usage: Option<ModelRequestUsage>,
    tool_use_limit_reached: bool,
) -> (r: Vec<Result<CompletionEvent<T>, CompletionError>>)
    ensures
        r@ == decoded(reads@, usage, tool_use_limit_reached),
{
    let mut decoder = EventDecoder::new(false, usage, tool_use_limit_reached);
    let mut rest = reads;
    let mut out: Vec<Result<CompletionEvent<T>, CompletionError>> = Vec::new();
    while rest.len() > 0 && !decoder.is_finished()
        invariant
            decoder.usage == usage,
            decoder.tool_use_limit_reached == tool_use_limit_reached,
            out@ + (if decoder.finished {
                Seq::empty()
            } else {
                decoded(rest@, usage, tool_use_limit_reached)
            }) == decoded(reads@, usage, tool_use_limit_reached),
        decreases rest.len(),
    {
        let ghost before = rest@;
        let read = rest.remove(0);
        proof {
            assert(before.drop_first() =~= rest@);
        }
        let mut produced = decoder.on_read(read);
        out.append(&mut produced);
    }
    proof {
        assert(out@ =~= decoded(reads@, usage, tool_use_limit_reached));
    }
    out
}

/// Well-formed lines followed by the end of the body decode to one event per
/// line, in order, then the usage trailer, then the tool-use-limit trailer.
pub proof fn lemma_lines_then_trailers<T>(lines: Seq<ParsedLine<T>>, usage: ModelRequestUsage)
    requires
        forall|i: int| 0 <= i < lines.len() ==> line_event(#[trigger] lines[i]) is Ok,
    ensures
        decoded(
            lines.map_values(|l: ParsedLine<T>| LineRead::Line(l)).push(LineRead::End),
            Some(usage),
            true,
        ) == lines.map_values(|l: ParsedLine<T>| line_event(l)) + seq![
            Ok(
                CompletionEvent::Status(
                    CompletionRequestStatus::UsageUpdated {
                        amount: usage.amount as usize,
                        limit: usage.limit,
                    },
                ),
            ),
            Ok(CompletionEvent::Status(CompletionRequestStatus::ToolUseLimitReached)),
        ],
    decreases lines.len(),
{
    let reads = lines.map_values(|l: ParsedLine<T>| LineRead::Line(l)).push(LineRead::End);
    let tail = seq![
        Ok::<CompletionEvent<T>, CompletionError>(
            CompletionEvent::Status(
                CompletionRequestStatus::UsageUpdated {
                    amount: usage.amount as usize,
                    limit: usage.limit,
                },
            ),
        ),
        Ok(CompletionEvent::Status(CompletionRequestStatus::ToolUseLimitReached)),
    ];
    if lines.len() == 0 {
        assert(reads =~= seq![LineRead::End]);
        assert(trailers::<T>(Some(usage), true) =~= tail);
        assert(lines.map_values(|l: ParsedLine<T>| line_event(l)) =~= Seq::empty());
    } else {
        let rest = lines.drop_first();
        assert forall|i: int| 0 <= i < rest.len() implies line_event(#[trigger] rest[i]) is Ok by {
            assert(rest[i] == lines[i + 1]);
        }
        lemma_lines_then_trailers(rest, usage);
        assert(reads.drop_first() =~= rest.map_values(|l: ParsedLine<T>| LineRead::Line(l)).push(
            LineRead::End,
        ));
        assert(lines.map_values(|l: ParsedLine<T>| line_event(l)) =~= seq![line_event(lines[0])]
            + rest.map_values(|l: ParsedLine<T>| line_event(l)));
        assert(reads[0] == LineRead::Line(lines[0]));
        assert(line_event(lines[0]) is Ok);
    }
}

} // verus!
