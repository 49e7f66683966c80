//! The archive builder: packs downloaded items into an in-memory zip
//! container, choosing each entry's folder by category and resolving
//! duplicate entry names deterministically.
//!
//! An item is placed under `animated_emotes/` (an emote with the exact
//! extension `.gif`), `static_emotes/` (any other emote) or `stickers/`.
//! When an item's candidate path repeats an earlier item's candidate,
//! the number of earlier items with that same candidate, plus one, is
//! inserted as `~N` before the extension. The check and the count are
//! always taken against fresh, unsuffixed candidates, never against a
//! suffixed name, so repeated candidates get `~2`, `~3`, ... in order.

use vstd::prelude::*;
use crate::items::{DownloadedItem, ItemModel, ItemType};
use crate::text::{append_chars, append_decimal, chars_eq, chars_to_string, decimal_digits,
    str_to_chars};
use crate::zipio::{zip_bytes_of, zip_entries, zip_entry_open, zip_error_message, zip_finish,
    zip_start_entry, zip_write_data, zip_writer_new, zip_writer_plain};
use vstd::string::StringSliceAdditionalSpecFns;
use vstd::utf8::encode_utf8;

verus! {

/// Why a build failed; each variant wraps a description of the
/// underlying cause. The archive content itself is returned in memory;
/// the two directory- and file-related variants are for the caller
/// that puts it on disk.
#[derive(Debug, Clone, PartialEq, Eq)]
pub enum ArchiveError {
    /// The destination directory is missing or unwritable.
    DirectoryUnavailable(String),
    /// The output file could not be created.
    ContainerCreateFailed(String),
    /// An entry's name or bytes could not be written.
    EntryWriteFailed(String),
    /// The container could not be closed and flushed.
    FinalizeFailed(String),
}

/// Whether a sequence of items is within the container format's means:
/// the resolved entry paths are pairwise distinct, each path's UTF-8
/// encoding fits the format's 16-bit name-length field, and each
/// payload stays under the 32-bit size threshold (entries are written
/// without the large-file option). [`create_archive`] succeeds on every
/// such sequence.
pub open spec fn archive_fits(items: Seq<ItemModel>) -> bool {
    let paths = entry_paths(items);
    &&& forall|i: int, j: int| 0 <= i < j < paths.len() ==> paths[i] != paths[j]
    &&& forall|i: int| 0 <= i < paths.len() ==> encode_utf8(#[trigger] paths[i]).len() <= 65535
    &&& forall|i: int| 0 <= i < items.len() ==> (#[trigger] items[i].data).len() <= 0xFFFF_FFFF
}

/// The folder an item is placed under: by category, and for emotes by
/// whether the extension is exactly `.gif`.
pub open spec fn folder_of(it: ItemModel) -> Seq<char> {
    match it.item_type {
        ItemType::Emote => if it.extension == ".gif"@ {
            "animated_emotes"@
        } else {
            "static_emotes"@
        },
        ItemType::Sticker => "stickers"@,
    }
}

/// The candidate entry path before any duplicate resolution:
/// `<folder>/<name><extension>`.
pub open spec fn candidate_path(it: ItemModel) -> Seq<char> {
    folder_of(it) + "/"@ + it.name + it.extension
}

/// The entry path with the collision counter `n` inserted between the
/// name and the extension: `<folder>/<name>~<n><extension>`.
pub open spec fn suffixed_path(it: ItemModel, n: nat) -> Seq<char> {
    folder_of(it) + "/"@ + it.name + "~"@ + decimal_digits(n) + it.extension
}

/// How many entries of `written` are exactly `p`.
pub open spec fn count_matches(written: Seq<Seq<char>>, p: Seq<char>) -> nat
    decreases written.len(),
{
    if written.len() == 0 {
        0
    } else {
        count_matches(written.drop_last(), p) + if written.last() == p {
            1nat
        } else {
            0nat
        }
    }
}

/// The candidate path of every item, in input order.
pub open spec fn candidate_paths(items: Seq<ItemModel>) -> Seq<Seq<char>> {
    items.map_values(|it: ItemModel| candidate_path(it))
}

/// The path an item is written under, given the candidate paths of the
/// items already written: the candidate itself if no earlier item had
/// the same candidate, else the candidate with `~N` inserted, where
/// `N` is one more than the number of earlier items with that
/// unsuffixed candidate.
pub open spec fn resolved_path(prior: Seq<Seq<char>>, it: ItemModel) -> Seq<char> {
    let cand = candidate_path(it);
    let count = count_matches(prior, cand);
    if count == 0 {
        cand
    } else {
        suffixed_path(it, count + 1)
    }
}

/// The entry paths a sequence of items produces, in input order.
pub open spec fn entry_paths(items: Seq<ItemModel>) -> Seq<Seq<char>>
    decreases items.len(),
{
    if items.len() == 0 {
        Seq::empty()
    } else {
        entry_paths(items.drop_last()).push(
            resolved_path(candidate_paths(items.drop_last()), items.last()),
        )
    }
}

/// The archive's entries: each item's resolved path with that item's
/// own bytes, in input order.
pub open spec fn planned_entries(items: Seq<ItemModel>) -> Seq<(Seq<char>, Seq<u8>)> {
    Seq::new(items.len(), |i: int| (entry_paths(items)[i], items[i].data))
}

/// The models of a sequence of items.
pub open spec fn views_of(items: Seq<DownloadedItem>) -> Seq<ItemModel> {
    items.map_values(|it: DownloadedItem| it@)
}

/// The archive's file name for a collection:
/// `Emotes_Stickers_<collection_name>.zip`.
pub open spec fn archive_name(collection_name: Seq<char>) -> Seq<char> {
    "Emotes_Stickers_"@ + collection_name + ".zip"@
}

/// At most every entry matches.
proof fn lemma_count_matches_le_len(written: Seq<Seq<char>>, p: Seq<char>)
    ensures
        count_matches(written, p) <= written.len(),
    decreases written.len(),
{
    if written.len() > 0 {
        lemma_count_matches_le_len(written.drop_last(), p);
    }
}

/// Every item contributes exactly one entry path.
proof fn lemma_entry_paths_len(items: Seq<ItemModel>)
    ensures
        entry_paths(items).len() == items.len(),
    decreases items.len(),
{
    if items.len() > 0 {
        lemma_entry_paths_len(items.drop_last());
    }
}

fn folder_chars(item: &DownloadedItem) -> (v: Vec<char>)
    ensures
        v@ == folder_of(item@),
{
    match item.item_type {
        ItemType::Emote => {
            let gif = str_to_chars(".gif");
            let ext = str_to_chars(item.extension.as_str());
            if chars_eq(&ext, &gif) {
                str_to_chars("animated_emotes")
            } else {
                str_to_chars("static_emotes")
            }
        },
        ItemType::Sticker => str_to_chars("stickers"),
    }
}

fn candidate_chars(item: &DownloadedItem) -> (v: Vec<char>)
    ensures
        v@ == candidate_path(item@),
{
    let mut v = folder_chars(item);
    let slash = str_to_chars("/");
    append_chars(&mut v, &slash);
    let name = str_to_chars(item.name.as_str());
    append_chars(&mut v, &name);
    let ext = str_to_chars(item.extension.as_str());
    append_chars(&mut v, &ext);
    proof {
        assert(v@ =~= candidate_path(item@));
    }
    v
}

fn suffixed_chars(item: &DownloadedItem, n: usize) -> (v: Vec<char>)
    ensures
        v@ == suffixed_path(item@, n as nat),
{
    let mut v = folder_chars(item);
    let slash = str_to_chars("/");
    append_chars(&mut v, &slash);
    let name = str_to_chars(item.name.as_str());
    append_chars(&mut v, &name);
    let tilde = str_to_chars("~");
    append_chars(&mut v, &tilde);
    append_decimal(&mut v, n);
    let ext = str_to_chars(item.extension.as_str());
    append_chars(&mut v, &ext);
    proof {
        assert(v@ =~= suffixed_path(item@, n as nat));
    }
    v
}

fn count_path_matches(written: &Vec<Vec<char>>, cand: &Vec<char>) -> (n: usize)
    ensures
        n == count_matches(written@.map_values(|v: Vec<char>| v@), cand@),
{
    let ghost m = written@.map_values(|v: Vec<char>| v@);
    let mut n: usize = 0;
    let len = written.len();
    for i in 0..len
        invariant
            len == written@.len(),
            m == written@.map_values(|v: Vec<char>| v@),
            n == count_matches(m.take(i as int), cand@),
            n <= i,
    {
        proof {
            assert(m.take(i + 1).drop_last() =~= m.take(i as int));
            assert(m.take(i + 1).last() == m[i as int]);
        }
        if chars_eq(&written[i], cand) {
            n = n + 1;
        }
    }
    proof {
        assert(m.take(len as int) =~= m);
    }
    n
}

/// Resolves the entry path of every item, in input order: the paths
/// returned are exactly [`entry_paths`] of the items' models.
pub fn resolve_entry_paths(items: &Vec<DownloadedItem>) -> (paths: Vec<String>)
    ensures
        paths@.map_values(|s: String| s@) == entry_paths(views_of(items@)),
        paths@.len() == items@.len(),
{
    let mut written: Vec<Vec<char>> = Vec::new();
    let mut out: Vec<String> = Vec::new();
    let len = items.len();
    for i in 0..len
        invariant
            len == items@.len(),
            written@.len() == i,
            out@.len() == i,
            written@.map_values(|v: Vec<char>| v@) == candidate_paths(
                views_of(items@.take(i as int)),
            ),
            out@.map_values(|s: String| s@) == entry_paths(views_of(items@.take(i as int))),
    {
        let ghost prior = candidate_paths(views_of(items@.take(i as int)));
        let ghost prev = entry_paths(views_of(items@.take(i as int)));
        let item = &items[i];
        let cand = candidate_chars(item);
        let n = count_path_matches(&written, &cand);
        proof {
            lemma_count_matches_le_len(prior, cand@);
        }
        let path_string: String = if n == 0 {
            chars_to_string(&cand)
        } else {
            let sfx = suffixed_chars(item, n + 1);
            chars_to_string(&sfx)
        };
        proof {
            assert(path_string@ == resolved_path(prior, items@[i as int]@));
            assert(views_of(items@.take(i + 1)).drop_last() =~= views_of(items@.take(i as int)));
            assert(views_of(items@.take(i + 1)).last() == items@[i as int]@);
            assert(entry_paths(views_of(items@.take(i + 1))) == prev.push(path_string@));
        }
        out.push(path_string);
        written.push(cand);
        proof {
            assert(views_of(items@.take(i + 1)) =~= views_of(items@.take(i as int)).push(
                items@[i as int]@,
            ));
            assert(candidate_paths(views_of(items@.take(i + 1))) =~= prior.push(cand@));
            assert(written@.map_values(|v: Vec<char>| v@) =~= prior.push(cand@));
            assert(out@.map_values(|s: String| s@) =~= prev.push(out@.last()@));
        }
    }
    proof {
        assert(items@.take(len as int) =~= items@);
    }
    out
}

/// Builds the archive file name for a collection:
/// `Emotes_Stickers_<collection_name>.zip`.
pub fn archive_file_name(collection_name: &str) -> (r: String)
    ensures
        r@ == archive_name(collection_name@),
{
    let mut v = str_to_chars("Emotes_Stickers_");
    let name = str_to_chars(collection_name);
    append_chars(&mut v, &name);
    let ext = str_to_chars(".zip");
    append_chars(&mut v, &ext);
    proof {
        assert(v@ =~= archive_name(collection_name@));
    }
    chars_to_string(&v)
}

/// Packs the items, in input order, into a zip container held in
/// memory, each entry stored uncompressed under its resolved path with
/// exactly its item's bytes. On success the result holds the file name
/// the archive is meant for (`Emotes_Stickers_<collection_name>.zip`)
/// and the container's bytes. Success is owed whenever the items fit
/// the format ([`archive_fits`]): in particular, an empty sequence and
/// any items with distinct, reasonably short resolved paths build
/// without error, zero-length payloads included. An error can only
/// report a failed entry write (a repeated resolved path, an oversized
/// name or payload) or a failed finalization, and wraps the container
/// writer's description of the cause. Writing the file, and the
/// directory it goes in, are the caller's business.
pub fn create_archive(collection_name: &str, items: &Vec<DownloadedItem>) -> (r: Result<
    (String, Vec<u8>),
    ArchiveError,
>)
    ensures
        r matches Ok(out) ==> {
            &&& out.0@ == archive_name(collection_name@)
            &&& out.1@ == zip_bytes_of(planned_entries(views_of(items@)))
        },
        archive_fits(views_of(items@)) ==> r is Ok,
        r matches Err(e) ==> (e matches ArchiveError::EntryWriteFailed(_) || e
            matches ArchiveError::FinalizeFailed(_)),
{
    let paths = resolve_entry_paths(items);
    let ghost models = views_of(items@);
    let mut writer = zip_writer_new();
    let len = items.len();
    for i in 0..len
        invariant
            len == items@.len(),
            paths@.len() == items@.len(),
            paths@.map_values(|s: String| s@) == entry_paths(models),
            models == views_of(items@),
            zip_writer_plain(writer),
            zip_entries(writer) == planned_entries(models).take(i as int),
    {
        proof {
            lemma_entry_paths_len(models);
        }
        let ghost ep = entry_paths(models);
        match zip_start_entry(&mut writer, paths[i].as_str()) {
            Ok(()) => {},
            Err(e) => {
                proof {
                    if archive_fits(models) {
                        assert(forall|j: int|
                            0 <= j < i ==> #[trigger] planned_entries(models).take(i as int)[j].0
                                == ep[j]);
                        assert(forall|j: int| 0 <= j < i ==> ep[j] != ep[i as int]);
                        assert(encode_utf8(ep[i as int]).len() <= 65535);
                        assert(false);
                    }
                }
                let msg = zip_error_message(&e);
                return Err(ArchiveError::EntryWriteFailed(msg));
            },
        }
        proof {
            assert(zip_entries(writer).len() == i + 1);
        }
        match zip_write_data(&mut writer, items[i].data.as_slice()) {
            Ok(()) => {},
            Err(e) => {
                proof {
                    if archive_fits(models) {
                        assert(models[i as int].data == items@[i as int].data@);
                        assert(false);
                    }
                }
                let msg = zip_error_message(&e);
                return Err(ArchiveError::EntryWriteFailed(msg));
            },
        }
        proof {
            assert(zip_entries(writer) =~= planned_entries(models).take(i + 1));
        }
    }
    proof {
        assert(planned_entries(models).take(len as int) =~= planned_entries(models));
    }
    let name = archive_file_name(collection_name);
    match zip_finish(writer) {
        Ok(bytes) => Ok((name, bytes)),
        Err(e) => {
            proof {
                assert(false);
            }
            let msg = zip_error_message(&e);
            Err(ArchiveError::FinalizeFailed(msg))
        },
    }
}

} // verus!
