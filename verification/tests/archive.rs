use std::io::Cursor;
use std::io::Read;

use emote_archiver::archive::{archive_file_name, create_archive, resolve_entry_paths, ArchiveError};
use emote_archiver::items::{DownloadedItem, ItemType};

fn item(name: &str, ext: &str, data: &[u8], item_type: ItemType) -> DownloadedItem {
    DownloadedItem {
        name: name.to_string(),
        extension: ext.to_string(),
        data: data.to_vec(),
        item_type,
    }
}

fn entries_of(bytes: Vec<u8>) -> Vec<(String, Vec<u8>)> {
    let mut archive = zip::ZipArchive::new(Cursor::new(bytes)).expect("readable container");
    let mut out = Vec::new();
    for i in 0..archive.len() {
        let mut file = archive.by_index(i).expect("entry by index");
        let mut data = Vec::new();
        file.read_to_end(&mut data).expect("entry content");
        out.push((file.name().to_string(), data));
    }
    out
}

#[test]
fn archive_file_name_exact() {
    assert_eq!(archive_file_name("My_Guild"), "Emotes_Stickers_My_Guild.zip");
}

#[test]
fn empty_build_yields_valid_empty_container() {
    let (name, bytes) = create_archive("g", &vec![]).expect("empty build succeeds");
    assert_eq!(name, "Emotes_Stickers_g.zip");
    assert_eq!(entries_of(bytes).len(), 0);
}

#[test]
fn gif_emote_goes_to_animated_folder() {
    let items = vec![item("smile", ".gif", b"GIF89a-data", ItemType::Emote)];
    let (_, bytes) = create_archive("g", &items).expect("build succeeds");
    let entries = entries_of(bytes);
    assert_eq!(entries.len(), 1);
    assert_eq!(entries[0].0, "animated_emotes/smile.gif");
    assert_eq!(entries[0].1, b"GIF89a-data".to_vec());
}

#[test]
fn png_emote_goes_to_static_folder() {
    let items = vec![item("wave", ".png", b"png-bytes", ItemType::Emote)];
    let (_, bytes) = create_archive("g", &items).expect("build succeeds");
    let entries = entries_of(bytes);
    assert_eq!(entries.len(), 1);
    assert_eq!(entries[0].0, "static_emotes/wave.png");
}

#[test]
fn sticker_goes_to_stickers_folder() {
    let items = vec![item("hug", ".png", b"sticker-bytes", ItemType::Sticker)];
    let (_, bytes) = create_archive("g", &items).expect("build succeeds");
    let entries = entries_of(bytes);
    assert_eq!(entries.len(), 1);
    assert_eq!(entries[0].0, "stickers/hug.png");
}

#[test]
fn triple_collision_gets_tilde_suffixes_in_order() {
    let items = vec![
        item("foo", ".png", b"first", ItemType::Emote),
        item("foo", ".png", b"second", ItemType::Emote),
        item("foo", ".png", b"third", ItemType::Emote),
    ];
    let (_, bytes) = create_archive("g", &items).expect("build succeeds");
    let entries = entries_of(bytes);
    assert_eq!(entries.len(), 3);
    assert_eq!(entries[0].0, "static_emotes/foo.png");
    assert_eq!(entries[0].1, b"first".to_vec());
    assert_eq!(entries[1].0, "static_emotes/foo~2.png");
    assert_eq!(entries[1].1, b"second".to_vec());
    assert_eq!(entries[2].0, "static_emotes/foo~3.png");
    assert_eq!(entries[2].1, b"third".to_vec());
}

#[test]
fn resolve_entry_paths_matches_collision_policy() {
    let items = vec![
        item("foo", ".png", b"", ItemType::Emote),
        item("bar", ".gif", b"", ItemType::Emote),
        item("foo", ".png", b"", ItemType::Emote),
        item("foo", ".png", b"", ItemType::Sticker),
        item("foo", ".png", b"", ItemType::Emote),
    ];
    let paths = resolve_entry_paths(&items);
    assert_eq!(
        paths,
        vec![
            "static_emotes/foo.png".to_string(),
            "animated_emotes/bar.gif".to_string(),
            "static_emotes/foo~2.png".to_string(),
            "stickers/foo.png".to_string(),
            "static_emotes/foo~3.png".to_string(),
        ]
    );
}

#[test]
fn entry_names_are_not_sanitized() {
    let items = vec![item("a b", ".png", b"x", ItemType::Emote)];
    let paths = resolve_entry_paths(&items);
    assert_eq!(paths, vec!["static_emotes/a b.png".to_string()]);
}

#[test]
fn zero_length_payload_gives_zero_length_entry() {
    let items = vec![item("empty", ".png", b"", ItemType::Emote)];
    let (_, bytes) = create_archive("g", &items).expect("build succeeds");
    let entries = entries_of(bytes);
    assert_eq!(entries.len(), 1);
    assert_eq!(entries[0].0, "static_emotes/empty.png");
    assert_eq!(entries[0].1, Vec::<u8>::new());
}

#[test]
fn rebuilding_replaces_old_entries_entirely() {
    let first = vec![item("old", ".png", b"old-bytes", ItemType::Emote)];
    let second = vec![item("new", ".png", b"new-bytes", ItemType::Emote)];
    let (name1, _) = create_archive("g", &first).expect("first build succeeds");
    let (name2, bytes2) = create_archive("g", &second).expect("second build succeeds");
    assert_eq!(name1, name2);
    let entries = entries_of(bytes2);
    assert_eq!(entries.len(), 1);
    assert_eq!(entries[0].0, "static_emotes/new.png");
    assert_eq!(entries[0].1, b"new-bytes".to_vec());
}

#[test]
fn same_input_builds_identical_bytes() {
    let items = vec![
        item("a", ".png", b"one", ItemType::Emote),
        item("b", ".json", b"two", ItemType::Sticker),
    ];
    let (_, bytes1) = create_archive("g", &items).expect("first build succeeds");
    let (_, bytes2) = create_archive("g", &items).expect("second build succeeds");
    assert_eq!(bytes1, bytes2);
}

#[test]
fn duplicate_resolution_can_still_collide_and_then_errors() {
    // Inherited edge of the policy: a literal "foo~2" name followed by two
    // "foo" names resolves to the same path twice, which the container
    // writer rejects.
    let items = vec![
        item("foo~2", ".png", b"a", ItemType::Emote),
        item("foo", ".png", b"b", ItemType::Emote),
        item("foo", ".png", b"c", ItemType::Emote),
    ];
    let paths = resolve_entry_paths(&items);
    assert_eq!(paths[0], "static_emotes/foo~2.png");
    assert_eq!(paths[1], "static_emotes/foo.png");
    assert_eq!(paths[2], "static_emotes/foo~2.png");
    let err = create_archive("g", &items).expect_err("duplicate path must be refused");
    assert!(matches!(err, ArchiveError::EntryWriteFailed(_)));
}
