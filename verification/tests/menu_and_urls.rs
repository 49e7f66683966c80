use emote_archiver::download::{emote_download_parts, sticker_download_parts};
use emote_archiver::items::{Emote, Sticker};
use emote_archiver::menu::{parse_menu_choice, MenuChoice};

#[test]
fn letter_commands_are_recognised() {
    assert_eq!(parse_menu_choice("a", 3), MenuChoice::DumpAll);
    assert_eq!(parse_menu_choice("r", 3), MenuChoice::ShowList);
    assert_eq!(parse_menu_choice("q", 3), MenuChoice::Quit);
}

#[test]
fn in_range_index_picks_a_guild() {
    assert_eq!(parse_menu_choice("1", 3), MenuChoice::DumpGuild(1));
    assert_eq!(parse_menu_choice("3", 3), MenuChoice::DumpGuild(3));
    assert_eq!(parse_menu_choice("+2", 3), MenuChoice::DumpGuild(2));
    assert_eq!(parse_menu_choice("007", 9), MenuChoice::DumpGuild(7));
}

#[test]
fn out_of_range_or_malformed_input_does_nothing() {
    assert_eq!(parse_menu_choice("0", 3), MenuChoice::Invalid);
    assert_eq!(parse_menu_choice("4", 3), MenuChoice::Invalid);
    assert_eq!(parse_menu_choice("", 3), MenuChoice::Invalid);
    assert_eq!(parse_menu_choice("+", 3), MenuChoice::Invalid);
    assert_eq!(parse_menu_choice("-2", 3), MenuChoice::Invalid);
    assert_eq!(parse_menu_choice("2x", 3), MenuChoice::Invalid);
    assert_eq!(parse_menu_choice("x", 3), MenuChoice::Invalid);
    assert_eq!(parse_menu_choice("99999999999999999999999999", 3), MenuChoice::Invalid);
}

#[test]
fn emote_urls_and_extensions() {
    let animated = Emote { id: "123".to_string(), name: "dance".to_string(), animated: true };
    let (ext, url) = emote_download_parts(&animated);
    assert_eq!(ext, ".gif");
    assert_eq!(url, "https://cdn.discordapp.com/emojis/123.gif");

    let still = Emote { id: "456".to_string(), name: "wave".to_string(), animated: false };
    let (ext, url) = emote_download_parts(&still);
    assert_eq!(ext, ".png");
    assert_eq!(url, "https://cdn.discordapp.com/emojis/456.png");
}

#[test]
fn sticker_urls_and_extensions_by_format_type() {
    let png = Sticker { id: "1".to_string(), name: "s".to_string(), format_type: 1 };
    let (ext, url) = sticker_download_parts(&png);
    assert_eq!(ext, ".png");
    assert_eq!(url, "https://cdn.discordapp.com/stickers/1.png");

    let apng = Sticker { id: "2".to_string(), name: "s".to_string(), format_type: 2 };
    let (ext, url) = sticker_download_parts(&apng);
    assert_eq!(ext, ".png");
    assert_eq!(url, "https://cdn.discordapp.com/stickers/2.png");

    let lottie = Sticker { id: "3".to_string(), name: "s".to_string(), format_type: 3 };
    let (ext, url) = sticker_download_parts(&lottie);
    assert_eq!(ext, ".json");
    assert_eq!(url, "https://cdn.discordapp.com/stickers/3.json");

    let gif = Sticker { id: "4".to_string(), name: "s".to_string(), format_type: 4 };
    let (ext, url) = sticker_download_parts(&gif);
    assert_eq!(ext, ".gif");
    assert_eq!(url, "https://media.discordapp.net/stickers/4.gif");

    let unknown = Sticker { id: "9".to_string(), name: "s".to_string(), format_type: 9 };
    let (ext, url) = sticker_download_parts(&unknown);
    assert_eq!(ext, ".png");
    assert_eq!(url, "https://cdn.discordapp.com/stickers/9.png");
}
