//! The item model: one downloadable asset (an emote or a sticker)
//! together with the metadata records the chat platform's API returns.

use vstd::prelude::*;

verus! {

/// Emote metadata as the platform's API lists it for a guild.
#[derive(Debug, Clone)]
pub struct Emote {
    pub id: String,
    pub name: String,
    pub animated: bool,
}

/// Sticker metadata as the platform's API lists it for a guild.
///
/// `format_type` encodes the asset's format: `1` and `2` are static
/// images, `3` is a lottie/JSON sticker, `4` is an animated GIF.
#[derive(Debug, Clone)]
pub struct Sticker {
    pub id: String,
    pub name: String,
    pub format_type: u8,
}

/// The category of a downloaded item, which picks the folder the
/// archive builder places it in.
#[derive(Debug, Clone, Copy, PartialEq, Eq, Structural)]
pub enum ItemType {
    Emote,
    Sticker,
}

/// One fully downloaded asset: its display name, file extension
/// (including the leading dot), raw bytes, and category.
#[derive(Debug, Clone)]
pub struct DownloadedItem {
    pub name: String,
    pub extension: String,
    pub data: Vec<u8>,
    pub item_type: ItemType,
}

/// The mathematical model of a [`DownloadedItem`]: its strings as
/// character sequences and its payload as a byte sequence.
pub struct ItemModel {
    pub name: Seq<char>,
    pub extension: Seq<char>,
    pub data: Seq<u8>,
    pub item_type: ItemType,
}

impl View for DownloadedItem {
    type V = ItemModel;

    open spec fn view(&self) -> ItemModel {
        ItemModel {
            name: self.name@,
            extension: self.extension@,
            data: self.data@,
            item_type: self.item_type,
        }
    }
}

} // verus!
