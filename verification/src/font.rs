//! The glyph tables for the big digital display: fixed-height character
//! blocks for the digits and the colon, and the paused banner.
use vstd::prelude::*;

verus! {

/// The rows of one rendered glyph.
pub type CharMap = Vec<&'static str>;

/// The height in rows of every glyph in the font.
pub fn char_height() -> (h: usize)
    ensures
        h == 6,
{
    6
}

/// The glyph table: the colon and each digit, paired with its six rows,
/// exactly the blocks the display draws.
pub fn get_font() -> (font: Vec<(char, CharMap)>)
    ensures
        font@.len() == 11,
        forall|i: int| 0 <= i < font@.len() ==> (#[trigger] font@[i]).1@.len() == 6,
        font@[0].0 == ':' && font@[0].1@ =~= seq![
            "   ",
            "██╗",
            "╚═╝",
            "██╗",
            "╚═╝",
            "   ",
        ],
        font@[1].0 == '0' && font@[1].1@ =~= seq![
            " ██████╗ ",
            "██╔═████╗",
            "██║██╔██║",
            "████╔╝██║",
            "╚██████╔╝",
            " ╚═════╝ ",
        ],
        font@[2].0 == '1' && font@[2].1@ =~= seq![
            " ██╗",
            "███║",
            "╚██║",
            " ██║",
            " ██║",
            " ╚═╝",
        ],
        font@[3].0 == '2' && font@[3].1@ =~= seq![
            "██████╗ ",
            "╚════██╗",
            " █████╔╝",
            "██╔═══╝ ",
            "███████╗",
            "╚══════╝",
        ],
        font@[4].0 == '3' && font@[4].1@ =~= seq![
            "██████╗ ",
            "╚════██╗",
            " █████╔╝",
            " ╚═══██╗",
            "██████╔╝",
            "╚═════╝ ",
        ],
        font@[5].0 == '4' && font@[5].1@ =~= seq![
            "██╗  ██╗",
            "██║  ██║",
            "███████║",
            "╚════██║",
            "     ██║",
            "     ╚═╝",
        ],
        font@[6].0 == '5' && font@[6].1@ =~= seq![
            "███████╗",
            "██╔════╝",
            "███████╗",
            "╚════██║",
            "███████║",
            "╚══════╝",
        ],
        font@[7].0 == '6' && font@[7].1@ =~= seq![
            " ██████╗ ",
            "██╔════╝ ",
            "███████╗ ",
            "██╔═══██╗",
            "╚██████╔╝",
            " ╚═════╝ ",
        ],
        font@[8].0 == '7' && font@[8].1@ =~= seq![
            "███████╗",
            "╚════██║",
            "    ██╔╝",
            "   ██╔╝ ",
            "   ██║  ",
            "   ╚═╝  ",
        ],
        font@[9].0 == '8' && font@[9].1@ =~= seq![
            " █████╗ ",
            "██╔══██╗",
            "╚█████╔╝",
            "██╔══██╗",
            "╚█████╔╝",
            " ╚════╝ ",
        ],
        font@[10].0 == '9' && font@[10].1@ =~= seq![
            " █████╗ ",
            "██╔══██╗",
            "╚██████║",
            " ╚═══██║",
            " █████╔╝",
            " ╚════╝ ",
        ],
{
    let mut font: Vec<(char, CharMap)> = Vec::new();
    font.push((':', vec![
        "   ",
        "██╗",
        "╚═╝",
        "██╗",
        "╚═╝",
        "   ",
    ]));
    font.push(('0', vec![
        " ██████╗ ",
        "██╔═████╗",
        "██║██╔██║",
        "████╔╝██║",
        "╚██████╔╝",
        " ╚═════╝ ",
    ]));
    font.push(('1', vec![
        " ██╗",
        "███║",
        "╚██║",
        " ██║",
        " ██║",
        " ╚═╝",
    ]));
    font.push(('2', vec![
        "██████╗ ",
        "╚════██╗",
        " █████╔╝",
        "██╔═══╝ ",
        "███████╗",
        "╚══════╝",
    ]));
    font.push(('3', vec![
        "██████╗ ",
        "╚════██╗",
        " █████╔╝",
        " ╚═══██╗",
        "██████╔╝",
        "╚═════╝ ",
    ]));
    font.push(('4', vec![
        "██╗  ██╗",
        "██║  ██║",
        "███████║",
        "╚════██║",
        "     ██║",
        "     ╚═╝",
    ]));
    font.push(('5', vec![
        "███████╗",
        "██╔════╝",
        "███████╗",
        "╚════██║",
        "███████║",
        "╚══════╝",
    ]));
    font.push(('6', vec![
        " ██████╗ ",
        "██╔════╝ ",
        "███████╗ ",
        "██╔═══██╗",
        "╚██████╔╝",
        " ╚═════╝ ",
    ]));
    font.push(('7', vec![
        "███████╗",
        "╚════██║",
        "    ██╔╝",
        "   ██╔╝ ",
        "   ██║  ",
        "   ╚═╝  ",
    ]));
    font.push(('8', vec![
        " █████╗ ",
        "██╔══██╗",
        "╚█████╔╝",
        "██╔══██╗",
        "╚█████╔╝",
        " ╚════╝ ",
    ]));
    font.push(('9', vec![
        " █████╗ ",
        "██╔══██╗",
        "╚██████║",
        " ╚═══██║",
        " █████╔╝",
        " ╚════╝ ",
    ]));
    font
}

/// The banner shown while the session is paused, one row per entry.
pub fn get_paused_text() -> (t: CharMap)
    ensures
        t@.len() == 2,
        t@[0] == "█▀▄ ▄▀▄ █ █ ▄▀▀ ██▀ █▀▄",
        t@[1] == "█▀  █▀█ ▀▄█ ▄██ █▄▄ █▄▀",
{
    vec!["█▀▄ ▄▀▄ █ █ ▄▀▀ ██▀ █▀▄", "█▀  █▀█ ▀▄█ ▄██ █▄▄ █▄▀"]
}

/// The banner's width in character cells.
pub fn paused_text_width() -> (w: usize)
    ensures
        w == "█▀▄ ▄▀▄ █ █ ▄▀▀ ██▀ █▀▄"@.len(),
{
    let t = get_paused_text();
    let row: &str = t[0];
    row.unicode_len()
}

/// The banner's height in rows.
pub fn paused_text_height() -> (h: usize)
    ensures
        h == 2,
{
    let t = get_paused_text();
    t.len()
}

} // verus!
