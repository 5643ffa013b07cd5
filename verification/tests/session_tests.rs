use photopack::message::{ChatMessage, PhotoVariant};
use photopack::pipeline::{stop_outcome, StopOutcome};
use photopack::session::NameOutcome;
use photopack::store::SessionStore;

fn photo_msg(file_id: &str, w: u32, h: u32) -> ChatMessage {
    ChatMessage {
        text: None,
        photos: vec![PhotoVariant { width: w, height: h, file_id: file_id.as_bytes().to_vec() }],
    }
}

fn text_msg(text: &str) -> ChatMessage {
    ChatMessage { text: Some(text.as_bytes().to_vec()), photos: Vec::new() }
}

#[test]
fn stop_without_start_reports_not_collecting() {
    let mut store = SessionStore::new();
    let batch = store.stop(7);
    assert!(batch.is_none());
    assert!(matches!(stop_outcome(batch), StopOutcome::NotCollecting));
}

#[test]
fn stop_right_after_start_is_no_content() {
    let mut store = SessionStore::new();
    store.start_collecting(7);
    let batch = store.stop(7);
    let b = batch.as_ref().expect("collecting, so a batch is owed");
    assert_eq!(b.messages.len(), 0);
    assert!(matches!(stop_outcome(batch), StopOutcome::NoMessages));
}

#[test]
fn appends_while_idle_are_discarded() {
    let mut store = SessionStore::new();
    store.append_if_collecting(7, photo_msg("a", 1, 1));
    store.append_if_collecting(7, photo_msg("b", 2, 2));
    store.append_if_collecting(7, text_msg("hello"));
    store.start_collecting(7);
    let batch = store.stop(7).expect("collecting");
    assert_eq!(batch.messages.len(), 0);
}

#[test]
fn restart_clears_prior_buffer() {
    let mut store = SessionStore::new();
    store.start_collecting(7);
    store.append_if_collecting(7, photo_msg("old", 1, 1));
    store.append_if_collecting(7, photo_msg("older", 1, 1));
    store.start_collecting(7);
    let batch = store.stop(7).expect("collecting");
    assert_eq!(batch.messages.len(), 0);
}

#[test]
fn append_after_stop_lands_in_next_batch_only() {
    let mut store = SessionStore::new();
    store.start_collecting(7);
    store.append_if_collecting(7, photo_msg("first", 1, 1));
    let batch1 = store.stop(7).expect("collecting");
    assert_eq!(batch1.messages.len(), 1);
    assert_eq!(batch1.messages[0].photos[0].file_id, b"first".to_vec());

    store.start_collecting(7);
    store.append_if_collecting(7, photo_msg("second", 1, 1));
    assert_eq!(batch1.messages.len(), 1, "the handed-off batch must not grow");
    let batch2 = store.stop(7).expect("collecting");
    assert_eq!(batch2.messages.len(), 1);
    assert_eq!(batch2.messages[0].photos[0].file_id, b"second".to_vec());
}

#[test]
fn conversations_do_not_interfere() {
    let mut store = SessionStore::new();
    store.start_collecting(1);
    store.append_if_collecting(1, photo_msg("one", 1, 1));
    store.append_if_collecting(2, photo_msg("two", 1, 1));
    let batch1 = store.stop(1).expect("collecting");
    assert_eq!(batch1.messages.len(), 1);
    assert!(store.stop(2).is_none());
}

#[test]
fn blank_file_name_is_rejected_and_name_unchanged() {
    let mut store = SessionStore::new();
    store.request_name(7);
    let r = store.receive_name(7, b" \t\r\n ".to_vec());
    assert!(matches!(r, NameOutcome::Rejected));
    store.start_collecting(7);
    let batch = store.stop(7).expect("collecting");
    assert!(batch.archive_name.is_none(), "archive_name must stay unset");
}

#[test]
fn file_name_reply_is_stored_once() {
    let mut store = SessionStore::new();
    store.request_name(7);
    let r = store.receive_name(7, b"holiday".to_vec());
    assert!(matches!(r, NameOutcome::Accepted));
    let r2 = store.receive_name(7, b"ignored".to_vec());
    assert!(matches!(r2, NameOutcome::NotAwaiting));
    store.start_collecting(7);
    let batch = store.stop(7).expect("collecting");
    assert_eq!(batch.archive_name, Some(b"holiday".to_vec()));
    store.start_collecting(7);
    let batch2 = store.stop(7).expect("collecting");
    assert!(batch2.archive_name.is_none(), "the name is consumed by the stop that uses it");
}

#[test]
fn reply_without_request_is_ignored() {
    let mut store = SessionStore::new();
    let r = store.receive_name(7, b"name".to_vec());
    assert!(matches!(r, NameOutcome::NotAwaiting));
}
