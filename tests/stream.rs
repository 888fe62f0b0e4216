use cloud_completion::assembly::{
    map_cloud_completion_event, map_cloud_completion_events, EventMapper,
    LanguageModelCompletionEvent, StopReason, UnifiedItem,
};
use cloud_completion::errors::CompletionError;
use cloud_completion::events::{
    decode_all, decode_line, tool_use_limit_reached_event, usage_updated_event, CompletionEvent,
    CompletionRequestStatus, EventDecoder, LineRead, ModelRequestUsage, ParsedLine, UsageLimit,
};

fn usage() -> ModelRequestUsage {
    ModelRequestUsage { amount: 7, limit: UsageLimit::Limited(50) }
}

fn usage_event<T>() -> CompletionEvent<T> {
    CompletionEvent::Status(CompletionRequestStatus::UsageUpdated {
        amount: 7,
        limit: UsageLimit::Limited(50),
    })
}

#[test]
fn lines_then_usage_then_tool_limit() {
    let reads = vec![
        LineRead::Line(ParsedLine::Bare(1u32)),
        LineRead::Line(ParsedLine::Bare(2u32)),
        LineRead::Line(ParsedLine::Bare(3u32)),
        LineRead::End,
    ];
    let out = decode_all(reads, Some(usage()), true);
    assert_eq!(
        out,
        vec![
            Ok(CompletionEvent::Event(1)),
            Ok(CompletionEvent::Event(2)),
            Ok(CompletionEvent::Event(3)),
            Ok(usage_event()),
            Ok(CompletionEvent::Status(CompletionRequestStatus::ToolUseLimitReached)),
        ]
    );
}

#[test]
fn wrapped_lines_pass_as_they_are() {
    let reads = vec![
        LineRead::Line(ParsedLine::Wrapped(CompletionEvent::Status(
            CompletionRequestStatus::Queued { position: 2 },
        ))),
        LineRead::Line(ParsedLine::Wrapped(CompletionEvent::Event("a"))),
        LineRead::End,
    ];
    let out = decode_all(reads, None, false);
    assert_eq!(
        out,
        vec![
            Ok(CompletionEvent::Status(CompletionRequestStatus::Queued { position: 2 })),
            Ok(CompletionEvent::Event("a")),
        ]
    );
}

#[test]
fn empty_body_yields_only_trailers() {
    let out = decode_all::<u8>(vec![LineRead::End], None, true);
    assert_eq!(out, vec![Ok(CompletionEvent::Status(CompletionRequestStatus::ToolUseLimitReached))]);
    let out = decode_all::<u8>(vec![LineRead::End], None, false);
    assert!(out.is_empty());
}

#[test]
fn malformed_line_ends_the_stream() {
    let reads = vec![
        LineRead::Line(ParsedLine::Bare(1u8)),
        LineRead::Line(ParsedLine::Malformed("expected value".to_string())),
        LineRead::Line(ParsedLine::Bare(2u8)),
        LineRead::End,
    ];
    let out = decode_all(reads, Some(usage()), true);
    assert_eq!(
        out,
        vec![
            Ok(CompletionEvent::Event(1)),
            Err(CompletionError::Transport { message: "expected value".to_string() }),
        ]
    );
}

#[test]
fn read_failure_ends_the_stream() {
    let reads = vec![LineRead::Failed("reset".to_string()), LineRead::Line(ParsedLine::Bare(1u8))];
    let out = decode_all(reads, None, true);
    assert_eq!(out, vec![Err(CompletionError::Transport { message: "reset".to_string() })]);
}

#[test]
fn decoder_stops_reading_after_end() {
    let mut decoder = EventDecoder::new(false, Some(usage()), false);
    assert!(!decoder.is_finished());
    let first = decoder.on_read(LineRead::Line(ParsedLine::Bare(9u8)));
    assert_eq!(first, vec![Ok(CompletionEvent::Event(9))]);
    assert!(!decoder.is_finished());
    let last = decoder.on_read::<u8>(LineRead::End);
    assert_eq!(last, vec![Ok(usage_event())]);
    assert!(decoder.is_finished());
}

#[test]
fn trailer_events() {
    assert_eq!(usage_updated_event::<u8>(Some(usage())), Some(usage_event()));
    assert_eq!(usage_updated_event::<u8>(None), None);
    assert_eq!(
        tool_use_limit_reached_event::<u8>(true),
        Some(CompletionEvent::Status(CompletionRequestStatus::ToolUseLimitReached))
    );
    assert_eq!(tool_use_limit_reached_event::<u8>(false), None);
}

#[test]
fn bare_line_is_wrapped_as_event() {
    assert_eq!(decode_line(ParsedLine::Bare(5u8)), Ok(CompletionEvent::Event(5)));
}

/// Expands each number `n` into `n` text items, then a stop.
struct Expand;

impl EventMapper<u8> for Expand {
    fn map_event(&mut self, event: u8) -> Vec<UnifiedItem> {
        let mut out: Vec<UnifiedItem> = (0..event)
            .map(|i| Ok(LanguageModelCompletionEvent::Text(i.to_string())))
            .collect();
        out.push(Ok(LanguageModelCompletionEvent::Stop(StopReason::EndTurn)));
        out
    }
}

#[test]
fn assembly_expands_in_place() {
    let items = vec![
        Ok(CompletionEvent::Status(CompletionRequestStatus::Started)),
        Ok(CompletionEvent::Event(2u8)),
        Err(CompletionError::Transport { message: "x".to_string() }),
        Ok(CompletionEvent::Event(0u8)),
    ];
    let out = map_cloud_completion_events(items, &mut Expand);
    assert_eq!(
        out,
        vec![
            Ok(LanguageModelCompletionEvent::StatusUpdate(CompletionRequestStatus::Started)),
            Ok(LanguageModelCompletionEvent::Text("0".to_string())),
            Ok(LanguageModelCompletionEvent::Text("1".to_string())),
            Ok(LanguageModelCompletionEvent::Stop(StopReason::EndTurn)),
            Err(CompletionError::Transport { message: "x".to_string() }),
            Ok(LanguageModelCompletionEvent::Stop(StopReason::EndTurn)),
        ]
    );
}

#[test]
fn status_becomes_status_update() {
    let out = map_cloud_completion_event(
        Ok(CompletionEvent::<u8>::Status(CompletionRequestStatus::ToolUseLimitReached)),
        &mut Expand,
    );
    assert_eq!(
        out,
        vec![Ok(LanguageModelCompletionEvent::StatusUpdate(
            CompletionRequestStatus::ToolUseLimitReached
        ))]
    );
}
