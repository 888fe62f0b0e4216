//! The caller-facing event vocabulary and the assembly of a decoded relay
//! stream into it.
use vstd::prelude::*;

use crate::errors::CompletionError;
use crate::events::{
    decoded, lemma_lines_then_trailers, line_event, CompletionEvent, CompletionRequestStatus,
    LineRead, ModelRequestUsage, ParsedLine,
};

verus! {

/// Why the model stopped.
#[derive(Clone, Copy, Debug, PartialEq, Eq, Structural)]
pub enum StopReason {
    EndTurn,
    MaxTokens,
    ToolUse,
    Refusal,
}

/// Token accounting of one completion.
#[derive(Clone, Copy, Debug, PartialEq, Eq, Structural)]
pub struct TokenUsage {
    pub input_tokens: u64,
    pub output_tokens: u64,
    pub cache_creation_input_tokens: u64,
    pub cache_read_input_tokens: u64,
}

/// One event of the unified completion stream that callers consume.
#[derive(Debug, PartialEq)]
pub enum LanguageModelCompletionEvent {
    StatusUpdate(CompletionRequestStatus),
    StartMessage { message_id: String },
    Text(String),
    Thinking { text: String, signature: Option<String> },
    ToolUse { id: String, name: String, raw_input: String },
    Stop(StopReason),
    UsageUpdate(TokenUsage),
}

/// An element of the unified stream.
pub type UnifiedItem = Result<LanguageModelCompletionEvent, CompletionError>;

/// Converts the provider-native events of one stream into unified events.
/// One mapper serves one stream and may keep state across its events (partial
/// tool-call arguments, partial thinking text).
pub trait EventMapper<T>: Sized {
    /// Mapping `event` in state `self` may leave state `next` and give `out`.
    /// A mapper that states nothing of itself keeps this default, which
    /// allows any outcome.
    open spec fn maps(&self, event: T, next: Self, out: Seq<UnifiedItem>) -> bool {
        true
    }

    fn map_event(&mut self, event: T) -> (r: Vec<UnifiedItem>)
        ensures
            old(self).maps(event, *final(self), r@),
    ;
}

/// What a decoded element becomes without the mapper: an error passes through
/// unchanged and a status becomes a status update. A provider event is the
/// mapper's to expand (`None`).
pub open spec fn direct_items<T>(item: Result<CompletionEvent<T>, CompletionError>) -> Option<
    Seq<UnifiedItem>,
> {
    match item {
        Err(e) => Some(seq![Err(e)]),
        Ok(CompletionEvent::Status(s)) => Some(seq![Ok(LanguageModelCompletionEvent::StatusUpdate(s))]),
        Ok(CompletionEvent::Event(_)) => None,
    }
}

/// The unified items of one decoded element; provider events go through
/// `mapper`, which may expand one event into several items.
pub fn map_cloud_completion_event<T, M: EventMapper<T>>(
    item: Result<CompletionEvent<T>, CompletionError>,
    mapper: &mut M,
) -> (r: Vec<UnifiedItem>)
    ensures
        direct_items(item) is Some ==> r@ == direct_items(item)->0 && *final(mapper) == *old(
            mapper,
        ),
        item matches Ok(CompletionEvent::Event(t)) ==> old(mapper).maps(t, *final(mapper), r@),
{
    match item {
        Err(e) => vec![Err(e)],
        Ok(CompletionEvent::Status(s)) => vec![Ok(LanguageModelCompletionEvent::StatusUpdate(s))],
        Ok(CompletionEvent::Event(t)) => mapper.map_event(t),
    }
}

/// The output is made of one run of items per input element, in input order:
/// elements are expanded in place, never reordered. `states` are the mapper's
/// states between elements: each provider event is mapped once, in order,
/// from the state that the previous elements left, and its run is what the
/// mapper gave for it; errors and status items leave the mapper untouched.
pub open spec fn assembled_from<T, M: EventMapper<T>>(
    items: Seq<Result<CompletionEvent<T>, CompletionError>>,
    out: Seq<UnifiedItem>,
    pieces: Seq<Seq<UnifiedItem>>,
    states: Seq<M>,
) -> bool {
    &&& pieces.len() == items.len()
    &&& states.len() == items.len() + 1
    &&& out == pieces.flatten()
    &&& forall|i: int|
        0 <= i < items.len() ==> match #[trigger] items[i] {
            Ok(CompletionEvent::Event(t)) => states[i].maps(t, states[i + 1], pieces[i]),
            _ => pieces[i] == direct_items(items[i])->0 && states[i + 1] == states[i],
        }
}

/// Assembles a decoded stream into the unified stream.
pub fn map_cloud_completion_events<T, M: EventMapper<T>>(
    items: Vec<Result<CompletionEvent<T>, CompletionError>>,
    mapper: &mut M,
) -> (r: Vec<UnifiedItem>)
    ensures
        exists|pieces: Seq<Seq<UnifiedItem>>, states: Seq<M>|
            assembled_from(items@, r@, pieces, states) && states[0] == *old(mapper)
                && states.last() == *final(mapper),
{
    let ghost all = items@;
    let ghost start = *mapper;
    let ghost mut pieces: Seq<Seq<UnifiedItem>> = Seq::empty();
    let ghost mut states: Seq<M> = seq![*mapper];
    let mut rest = items;
    let mut out: Vec<UnifiedItem> = Vec::new();
    while rest.len() > 0
        invariant
            pieces.len() + rest@.len() == all.len(),
            rest@ == all.subrange(pieces.len() as int, all.len() as int),
            assembled_from(all.subrange(0, pieces.len() as int), out@, pieces, states),
            states[0] == start,
            states.last() == *mapper,
        decreases rest.len(),
    {
        let ghost before = rest@;
        let item = rest.remove(0);
        proof {
            assert(item == all[pieces.len() as int]);
            assert(before.drop_first() =~= rest@);
        }
        let ghost prior = *mapper;
        let mut produced = map_cloud_completion_event(item, mapper);
        proof {
            pieces.lemma_flatten_push(produced@);
        }
        let ghost done = pieces.len();
        let ghost old_pieces = pieces;
        let ghost old_states = states;
        let ghost piece = produced@;
        out.append(&mut produced);
        proof {
            pieces = pieces.push(piece);
            states = states.push(*mapper);
            assert(rest@ =~= all.subrange(pieces.len() as int, all.len() as int));
            let prefix = all.subrange(0, pieces.len() as int);
            assert forall|i: int| 0 <= i < prefix.len() implies match #[trigger] prefix[i] {
                Ok(CompletionEvent::Event(t)) => states[i].maps(t, states[i + 1], pieces[i]),
                _ => pieces[i] == direct_items(prefix[i])->0 && states[i + 1] == states[i],
            } by {
                if i < done {
                    assert(prefix[i] == all.subrange(0, done as int)[i]);
                    assert(pieces[i] == old_pieces[i]);
                    assert(states[i] == old_states[i]);
                    assert(states[i + 1] == old_states[i + 1]);
                } else {
                    assert(prefix[i] == item);
                    assert(pieces[i] == piece);
                    assert(states[i] == prior);
                }
            }
        }
    }
    proof {
        assert(all.subrange(0, pieces.len() as int) =~= all);
    }
    out
}

/// A body of well-formed lines followed by its end, with usage captured and
/// the tool-use limit reached, assembles to the mapper's output for each line
/// in order, then one usage update, then one tool-use-limit update.
pub proof fn lemma_assembled_lines_then_trailers<T, M: EventMapper<T>>(
    lines: Seq<ParsedLine<T>>,
    usage: ModelRequestUsage,
    out: Seq<UnifiedItem>,
    pieces: Seq<Seq<UnifiedItem>>,
    states: Seq<M>,
)
    requires
        forall|i: int| 0 <= i < lines.len() ==> line_event(#[trigger] lines[i]) is Ok,
        assembled_from(
            decoded(
                lines.map_values(|l: ParsedLine<T>| LineRead::Line(l)).push(LineRead::End),
                Some(usage),
                true,
            ),
            out,
            pieces,
            states,
        ),
    ensures
        pieces.len() == lines.len() + 2,
        out == pieces.subrange(0, lines.len() as int).flatten() + seq![
            Ok(
                LanguageModelCompletionEvent::StatusUpdate(
                    CompletionRequestStatus::UsageUpdated {
                        amount: usage.amount as usize,
                        limit: usage.limit,
                    },
                ),
            ),
            Ok(
                LanguageModelCompletionEvent::StatusUpdate(
                    CompletionRequestStatus::ToolUseLimitReached,
                ),
            ),
        ],
        forall|i: int|
            0 <= i < lines.len() ==> match line_event(#[trigger] lines[i]) {
                Ok(CompletionEvent::Event(t)) => states[i].maps(t, states[i + 1], pieces[i]),
                Ok(CompletionEvent::Status(s)) => pieces[i] == seq![
                    Ok::<LanguageModelCompletionEvent, CompletionError>(
                        LanguageModelCompletionEvent::StatusUpdate(s),
                    ),
                ],
                Err(_) => false,
            },
{
    lemma_lines_then_trailers(lines, usage);
    let n = lines.len() as int;
    let items = decoded(
        lines.map_values(|l: ParsedLine<T>| LineRead::Line(l)).push(LineRead::End),
        Some(usage),
        true,
    );
    assert(items[n] == Ok::<CompletionEvent<T>, CompletionError>(
        CompletionEvent::Status(
            CompletionRequestStatus::UsageUpdated { amount: usage.amount as usize, limit: usage.limit },
        ),
    ));
    assert(items[n + 1] == Ok::<CompletionEvent<T>, CompletionError>(
        CompletionEvent::Status(CompletionRequestStatus::ToolUseLimitReached),
    ));
    let head = pieces.subrange(0, n);
    assert(pieces =~= head.push(pieces[n]).push(pieces[n + 1]));
    head.lemma_flatten_push(pieces[n]);
    head.push(pieces[n]).lemma_flatten_push(pieces[n + 1]);
    assert forall|i: int| 0 <= i < lines.len() implies match line_event(#[trigger] lines[i]) {
        Ok(CompletionEvent::Event(t)) => states[i].maps(t, states[i + 1], pieces[i]),
        Ok(CompletionEvent::Status(s)) => pieces[i] == seq![
            Ok::<LanguageModelCompletionEvent, CompletionError>(
                LanguageModelCompletionEvent::StatusUpdate(s),
            ),
        ],
        Err(_) => false,
    } by {
        assert(items[i] == line_event(lines[i]));
    }
}

} // verus!
