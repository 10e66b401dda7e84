use speed_reader::error::ReaderError;
use speed_reader::ingest::{Ingestion, LoadProgress, LoadReport, LoadTicket};
use speed_reader::loader::parse_text;
use speed_reader::strings::same_text;

fn report(ticket: LoadTicket, progress: LoadProgress) -> LoadReport {
    LoadReport { ticket, progress }
}

fn progress_of(parsed: Result<String, ReaderError>) -> LoadProgress {
    match parsed {
        Ok(text) => LoadProgress::Loaded(text),
        Err(_) => LoadProgress::Failed,
    }
}

#[test]
fn parse_text_decodes_utf8() {
    assert_eq!(parse_text("a.txt", b"a b\nc".to_vec()), Ok("a b\nc".to_string()));
}

#[test]
fn parse_text_decodes_characters_of_several_bytes() {
    let bytes = vec![0xd0, 0x92, 0xd1, 0x8b, 0x20, 0xe6, 0x96, 0x87, 0x20, 0xf0, 0x9f, 0x93, 0x96];
    let text = parse_text("b.txt", bytes).unwrap();
    assert_eq!(text, "Вы 文 📖");
    assert_eq!(text.chars().count(), 6);
}

#[test]
fn parse_text_of_no_bytes_is_the_empty_text() {
    assert_eq!(parse_text("empty.txt", Vec::new()), Ok(String::new()));
}

#[test]
fn parse_text_rejects_bytes_that_are_not_utf8() {
    assert_eq!(parse_text("bad.txt", vec![0x61, 0xff, 0x62]), Err(ReaderError::DecodeError));
}

#[test]
fn parse_text_rejects_a_truncated_character() {
    assert_eq!(parse_text("cut.txt", vec![0xd0]), Err(ReaderError::DecodeError));
}

#[test]
fn parse_text_rejects_an_overlong_encoding() {
    assert_eq!(parse_text("long.txt", vec![0xc0, 0xaf]), Err(ReaderError::DecodeError));
}

#[test]
fn parse_text_rejects_a_surrogate() {
    assert_eq!(parse_text("pair.txt", vec![0xed, 0xa0, 0x80]), Err(ReaderError::DecodeError));
}

#[test]
fn parse_text_does_not_look_at_the_name() {
    assert_eq!(parse_text("", b"x".to_vec()), parse_text("picture.png", b"x".to_vec()));
}

#[test]
fn same_text_compares_characters() {
    assert!(same_text("", ""));
    assert!(same_text("text/plain", "text/plain"));
    assert!(same_text("файл", "файл"));
    assert!(!same_text("text/plain", "text/plain "));
    assert!(!same_text("text/plain", "text/plaim"));
    assert!(!same_text("text/plain", "Text/Plain"));
    assert!(!same_text("", "a"));
}

#[test]
fn new_controller_waits_for_nothing() {
    let controller = Ingestion::new();
    assert_eq!(controller.drag_count(), 0);
    assert_eq!(controller.pending(), None);
}

#[test]
fn drag_enters_count_up_and_leave_resets() {
    let mut controller = Ingestion::new();
    let mut seen = Vec::new();
    controller.on_drag_enter();
    seen.push(controller.drag_count());
    controller.on_drag_enter();
    seen.push(controller.drag_count());
    controller.on_drag_leave();
    seen.push(controller.drag_count());
    assert_eq!(seen, vec![1, 2, 0]);
}

#[test]
fn leave_resets_after_any_number_of_enters() {
    for enters in [0usize, 1, 2, 7, 100] {
        let mut controller = Ingestion::new();
        for _ in 0..enters {
            controller.on_drag_enter();
        }
        assert_eq!(controller.drag_count(), enters);
        controller.on_drag_leave();
        assert_eq!(controller.drag_count(), 0);
    }
}

#[test]
fn leave_without_a_drag_changes_nothing() {
    let mut controller = Ingestion::new();
    controller.on_drag_leave();
    assert_eq!(controller.drag_count(), 0);
    assert_eq!(controller.pending(), None);
}

#[test]
fn drop_of_plain_text_requests_a_load() {
    let mut controller = Ingestion::new();
    controller.on_drag_enter();
    let ticket = controller.on_drop("text/plain").unwrap();
    assert_eq!(ticket, LoadTicket { id: 1 });
    assert_eq!(controller.pending(), Some(ticket));
    assert_eq!(controller.drag_count(), 0);
}

#[test]
fn drop_of_another_type_is_ignored() {
    let mut controller = Ingestion::new();
    controller.on_drag_enter();
    controller.on_drag_enter();
    assert_eq!(controller.on_drop("application/pdf"), Err(ReaderError::UnsupportedMime));
    assert_eq!(controller.pending(), None);
    assert_eq!(controller.drag_count(), 0);
}

#[test]
fn content_type_is_matched_exactly() {
    let others =
        ["", "text", "text/plain; charset=utf-8", "TEXT/PLAIN", " text/plain", "text/html"];
    for mime in others {
        let mut controller = Ingestion::new();
        assert_eq!(controller.on_drop(mime), Err(ReaderError::UnsupportedMime));
        assert_eq!(controller.pending(), None);
    }
}

#[test]
fn ignored_drop_keeps_the_load_that_is_waited_for() {
    let mut controller = Ingestion::new();
    let ticket = controller.on_drop("text/plain").unwrap();
    assert_eq!(controller.on_drop("image/png"), Err(ReaderError::UnsupportedMime));
    assert_eq!(controller.pending(), Some(ticket));
}

#[test]
fn tickets_are_numbered_in_order() {
    let mut controller = Ingestion::new();
    let first = controller.on_drop("text/plain").unwrap();
    let second = controller.on_drop("text/plain").unwrap();
    let third = controller.on_drop("text/plain").unwrap();
    assert_eq!((first.id, second.id, third.id), (1, 2, 3));
    assert_eq!(controller.pending(), Some(third));
}

#[test]
fn load_in_flight_is_still_waited_for() {
    let mut controller = Ingestion::new();
    let ticket = controller.on_drop("text/plain").unwrap();
    assert_eq!(controller.poll_completed_load(report(ticket, LoadProgress::InFlight)), Ok(None));
    assert_eq!(controller.pending(), Some(ticket));
}

#[test]
fn finished_load_gives_its_text_once() {
    let mut controller = Ingestion::new();
    let ticket = controller.on_drop("text/plain").unwrap();
    let loaded = LoadProgress::Loaded("a b\nc".to_string());
    assert_eq!(
        controller.poll_completed_load(report(ticket, loaded.clone())),
        Ok(Some("a b\nc".to_string()))
    );
    assert_eq!(controller.pending(), None);
    assert_eq!(controller.poll_completed_load(report(ticket, loaded)), Ok(None));
}

#[test]
fn failed_load_reports_a_decode_error_and_is_cleared() {
    let mut controller = Ingestion::new();
    let ticket = controller.on_drop("text/plain").unwrap();
    let progress = progress_of(parse_text("bad.txt", vec![0xff, 0xfe, 0xfd]));
    assert_eq!(progress, LoadProgress::Failed);
    assert_eq!(
        controller.poll_completed_load(report(ticket, progress)),
        Err(ReaderError::DecodeError)
    );
    assert_eq!(controller.pending(), None);
}

#[test]
fn report_without_a_load_is_passed_over() {
    let mut controller = Ingestion::new();
    let stray = LoadTicket { id: 0 };
    assert_eq!(
        controller.poll_completed_load(report(stray, LoadProgress::Loaded("x".to_string()))),
        Ok(None)
    );
    assert_eq!(controller.poll_completed_load(report(stray, LoadProgress::Failed)), Ok(None));
    assert_eq!(controller.pending(), None);
}

#[test]
fn new_drop_replaces_the_load_that_was_waited_for() {
    let mut controller = Ingestion::new();
    let first = controller.on_drop("text/plain").unwrap();
    let second = controller.on_drop("text/plain").unwrap();
    assert_ne!(first, second);
    assert_eq!(
        controller.poll_completed_load(report(first, LoadProgress::Loaded("old".to_string()))),
        Ok(None)
    );
    assert_eq!(controller.poll_completed_load(report(first, LoadProgress::Failed)), Ok(None));
    assert_eq!(controller.pending(), Some(second));
    assert_eq!(
        controller.poll_completed_load(report(second, LoadProgress::Loaded("new".to_string()))),
        Ok(Some("new".to_string()))
    );
    assert_eq!(controller.pending(), None);
}

#[test]
fn polling_leaves_the_drag_counter_alone() {
    let mut controller = Ingestion::new();
    let ticket = controller.on_drop("text/plain").unwrap();
    controller.on_drag_enter();
    let _ = controller.poll_completed_load(report(ticket, LoadProgress::Failed));
    assert_eq!(controller.drag_count(), 1);
}
