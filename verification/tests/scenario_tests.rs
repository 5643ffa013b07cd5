use std::io::Read;

use photopack::archive::build_archive;
use photopack::classify::{classify, Command};
use photopack::message::{ChatMessage, PhotoVariant};
use photopack::names::processed_text;
use photopack::pipeline::{stop_outcome, StopOutcome};
use photopack::session::NameOutcome;
use photopack::store::{ContentOutcome, SessionStore};

const CHAT: i64 = 424242;

fn photo_msg(file_id: &str) -> ChatMessage {
    ChatMessage {
        text: None,
        photos: vec![PhotoVariant { width: 640, height: 480, file_id: file_id.as_bytes().to_vec() }],
    }
}

fn cmd(text: &str) -> Option<Command> {
    classify(&text.as_bytes().to_vec(), &b"photobot".to_vec())
}

#[test]
fn two_photos_then_stopcollect_gives_one_archive_with_two_named_entries() {
    let mut store = SessionStore::new();

    assert_eq!(cmd("/startcollect"), Some(Command::StartCollect));
    store.start_collecting(CHAT);

    assert_eq!(cmd("just a photo"), None);
    assert!(matches!(store.handle_content(CHAT, photo_msg("ref-a")), ContentOutcome::Buffered));
    assert!(matches!(store.handle_content(CHAT, photo_msg("ref-b")), ContentOutcome::Buffered));

    assert_eq!(cmd("/stopcollect"), Some(Command::StopCollect));
    let batch = store.stop(CHAT);

    let refs = match stop_outcome(batch) {
        StopOutcome::Proceed { refs, archive_name } => {
            assert!(archive_name.is_none());
            refs
        },
        _ => panic!("two photo messages must proceed to the pipeline"),
    };
    assert_eq!(refs, vec![b"ref-a".to_vec(), b"ref-b".to_vec()]);

    // Stand in for the fetches: one blob per resolved reference, in order.
    let blobs: Vec<Vec<u8>> = refs.iter().map(|r| r.clone()).collect();
    let archive = build_archive(&blobs).expect("in-memory archiving succeeds");

    let mut zip = zip::ZipArchive::new(std::io::Cursor::new(archive)).expect("valid archive");
    assert_eq!(zip.len(), 2);
    let mut names = Vec::new();
    for i in 0..zip.len() {
        let mut entry = zip.by_index(i).expect("entry");
        let mut data = Vec::new();
        entry.read_to_end(&mut data).expect("entry bytes");
        names.push(entry.name().to_string());
        assert_eq!(data, blobs[i]);
    }
    assert_eq!(names, vec!["image_1.jpg".to_string(), "image_2.jpg".to_string()]);

    let confirmation = String::from_utf8(processed_text(blobs.len() as u64)).unwrap();
    assert!(confirmation.contains('2'), "the confirmation cites the photo count");
}

#[test]
fn filename_then_blank_reply_is_rejected_and_name_stays_unset() {
    let mut store = SessionStore::new();

    assert_eq!(cmd("/filename"), Some(Command::FileName));
    store.request_name(CHAT);

    let reply = ChatMessage { text: Some(b"   ".to_vec()), photos: Vec::new() };
    match store.handle_content(CHAT, reply) {
        ContentOutcome::Name(NameOutcome::Rejected) => {},
        _ => panic!("a blank name must be rejected"),
    }

    store.start_collecting(CHAT);
    store.append_if_collecting(CHAT, photo_msg("ref"));
    let batch = store.stop(CHAT).expect("collecting");
    assert!(batch.archive_name.is_none(), "archive_name must still be unset");
}

#[test]
fn content_with_no_active_mode_is_ignored() {
    let mut store = SessionStore::new();
    let msg = ChatMessage { text: Some(b"hello".to_vec()), photos: Vec::new() };
    assert!(matches!(store.handle_content(CHAT, msg), ContentOutcome::Ignored));
}
