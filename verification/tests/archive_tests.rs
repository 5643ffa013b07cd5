use std::io::Read;

use photopack::archive::build_archive;
use photopack::names::{
    archive_file_name, download_url, entry_name, fresh_scratch_dir_name, processed_text,
    push_dec_int, scratch_dir_name,
};

fn read_back(bytes: Vec<u8>) -> Vec<(String, Vec<u8>)> {
    let cursor = std::io::Cursor::new(bytes);
    let mut archive = zip::ZipArchive::new(cursor).expect("a valid archive");
    let mut entries = Vec::new();
    for i in 0..archive.len() {
        let mut file = archive.by_index(i).expect("entry");
        let mut data = Vec::new();
        file.read_to_end(&mut data).expect("entry bytes");
        entries.push((file.name().to_string(), data));
    }
    entries
}

#[test]
fn round_trip_preserves_count_names_and_bytes() {
    let blobs = vec![b"first blob".to_vec(), vec![0u8, 255, 1, 254, 2], Vec::new()];
    let bytes = build_archive(&blobs).expect("archiving in memory succeeds");
    let entries = read_back(bytes);
    assert_eq!(entries.len(), 3);
    for (i, blob) in blobs.iter().enumerate() {
        assert_eq!(entries[i].0, format!("image_{}.jpg", i + 1), "index matches original order");
        assert_eq!(&entries[i].1, blob);
    }
}

#[test]
fn two_photo_scenario_yields_two_entries_and_a_count_of_two() {
    let blobs = vec![b"photo one".to_vec(), b"photo two".to_vec()];
    let bytes = build_archive(&blobs).expect("archiving in memory succeeds");
    let entries = read_back(bytes);
    assert_eq!(entries.len(), 2);
    assert_eq!(entries[0].0, "image_1.jpg");
    assert_eq!(entries[1].0, "image_2.jpg");
    let confirmation = String::from_utf8(processed_text(2)).unwrap();
    assert_eq!(confirmation, "Processed 2 photos, sending the archive...");
    assert!(confirmation.contains('2'));
}

#[test]
fn empty_blob_list_gives_empty_archive() {
    let bytes = build_archive(&Vec::new()).expect("archiving in memory succeeds");
    assert_eq!(read_back(bytes).len(), 0);
}

#[test]
fn archive_is_reproducible() {
    let blobs = vec![b"same".to_vec(), b"bytes".to_vec()];
    let a = build_archive(&blobs).expect("archiving succeeds");
    let b = build_archive(&blobs).expect("archiving succeeds");
    assert_eq!(a, b);
}

#[test]
fn entry_names_follow_the_convention() {
    assert_eq!(entry_name(0), b"image_1.jpg".to_vec());
    assert_eq!(entry_name(1), b"image_2.jpg".to_vec());
    assert_eq!(entry_name(41), b"image_42.jpg".to_vec());
}

#[test]
fn decimal_rendering_handles_signs() {
    let mut out = Vec::new();
    push_dec_int(&mut out, 0);
    assert_eq!(out, b"0".to_vec());
    let mut out = Vec::new();
    push_dec_int(&mut out, 1234567890);
    assert_eq!(out, b"1234567890".to_vec());
    let mut out = Vec::new();
    push_dec_int(&mut out, -42);
    assert_eq!(out, b"-42".to_vec());
    let mut out = Vec::new();
    push_dec_int(&mut out, i64::MIN);
    assert_eq!(out, b"-9223372036854775808".to_vec());
}

#[test]
fn scratch_name_combines_chat_and_token() {
    let name = scratch_dir_name(-100123, &b"token".to_vec());
    assert_eq!(name, b"temp_-100123_token".to_vec());
}

#[test]
fn fresh_scratch_names_are_unique_per_run() {
    let a = fresh_scratch_dir_name(5);
    let b = fresh_scratch_dir_name(5);
    assert!(a.starts_with(b"temp_5_"));
    assert_eq!(a.len(), "temp_5_".len() + 36);
    assert_ne!(a, b, "two runs must not collide");
}

#[test]
fn archive_file_name_prefers_the_user_name() {
    let named = archive_file_name(&Some(b"holiday".to_vec()), &b"ts".to_vec(), 9);
    assert_eq!(named, b"holiday.zip".to_vec());
    let synthesized = archive_file_name(&None, &b"2024-05-01:10:30".to_vec(), 9);
    assert_eq!(synthesized, b"images_2024-05-01:10:30_9.zip".to_vec());
}

#[test]
fn download_url_is_exact() {
    let url = download_url(&b"TOKEN".to_vec(), &b"photos/file_1.jpg".to_vec());
    assert_eq!(url, b"https://api.telegram.org/file/botTOKEN/photos/file_1.jpg".to_vec());
}
