//! The decision half of downloading: which file extension an asset
//! gets and which URL its bytes live at, as functions of the metadata
//! alone. The HTTP fetch itself stays outside the library; the caller
//! requests the returned URL and pairs the bytes with the returned
//! extension.

use vstd::prelude::*;
use crate::items::{Emote, Sticker};
use crate::text::{append_chars, chars_to_string, str_to_chars};

verus! {

/// The content delivery host most assets are fetched from.
pub open spec fn cdn_base() -> Seq<char> {
    "https://cdn.discordapp.com/"@
}

/// An animated emote is a GIF; a static one is a PNG.
pub open spec fn emote_extension(animated: bool) -> Seq<char> {
    if animated {
        ".gif"@
    } else {
        ".png"@
    }
}

/// Where an emote's bytes live: `<cdn>emojis/<id><extension>`.
pub open spec fn emote_url(id: Seq<char>, animated: bool) -> Seq<char> {
    cdn_base() + "emojis/"@ + id + emote_extension(animated)
}

/// A sticker's extension by its format type: `3` is lottie/JSON, `4`
/// is an animated GIF, everything else is a PNG.
pub open spec fn sticker_extension(format_type: u8) -> Seq<char> {
    if format_type == 3 {
        ".json"@
    } else if format_type == 4 {
        ".gif"@
    } else {
        ".png"@
    }
}

/// Where a sticker's bytes live: GIF stickers sit on the media host,
/// everything else on the CDN under `stickers/`.
pub open spec fn sticker_url(id: Seq<char>, format_type: u8) -> Seq<char> {
    if format_type == 4 {
        "https://media.discordapp.net/stickers/"@ + id + ".gif"@
    } else {
        cdn_base() + "stickers/"@ + id + sticker_extension(format_type)
    }
}

/// The extension and download URL for an emote's bytes.
pub fn emote_download_parts(emote: &Emote) -> (r: (String, String))
    ensures
        r.0@ == emote_extension(emote.animated),
        r.1@ == emote_url(emote.id@, emote.animated),
{
    let ext = if emote.animated {
        str_to_chars(".gif")
    } else {
        str_to_chars(".png")
    };
    let mut url = str_to_chars("https://cdn.discordapp.com/");
    let route = str_to_chars("emojis/");
    append_chars(&mut url, &route);
    let id = str_to_chars(emote.id.as_str());
    append_chars(&mut url, &id);
    append_chars(&mut url, &ext);
    proof {
        assert(url@ =~= emote_url(emote.id@, emote.animated));
    }
    (chars_to_string(&ext), chars_to_string(&url))
}

/// The extension and download URL for a sticker's bytes.
pub fn sticker_download_parts(sticker: &Sticker) -> (r: (String, String))
    ensures
        r.0@ == sticker_extension(sticker.format_type),
        r.1@ == sticker_url(sticker.id@, sticker.format_type),
{
    let ext = if sticker.format_type == 3 {
        str_to_chars(".json")
    } else if sticker.format_type == 4 {
        str_to_chars(".gif")
    } else {
        str_to_chars(".png")
    };
    let id = str_to_chars(sticker.id.as_str());
    let mut url: Vec<char>;
    if sticker.format_type == 4 {
        url = str_to_chars("https://media.discordapp.net/stickers/");
        append_chars(&mut url, &id);
        append_chars(&mut url, &ext);
    } else {
        url = str_to_chars("https://cdn.discordapp.com/");
        let route = str_to_chars("stickers/");
        append_chars(&mut url, &route);
        append_chars(&mut url, &id);
        append_chars(&mut url, &ext);
    }
    proof {
        assert(url@ =~= sticker_url(sticker.id@, sticker.format_type));
    }
    (chars_to_string(&ext), chars_to_string(&url))
}

} // verus!
