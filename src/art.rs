use vstd::prelude::*;

use crate::block::{fit_to_width, normalize, normalized, padded, effective_width_spec};
use crate::config::AsciiConfig;
use crate::release::{get_os_release_id, os_release_id};
use crate::text::{lines_view, split_lines, text_lines, lower_of, lowercase, same_text};

verus! {

/// The built-in logos.
#[derive(Debug, Clone, Copy, PartialEq, Eq, Structural)]
pub enum ArtKind {
    Arch,
    ArchMini,
    Apple,
    Fallback,
}

/// The logo drawn for a lower-case distribution id.
pub open spec fn art_kind_of(id: Seq<char>) -> ArtKind {
    if id == "arch"@ || id == "endeavouros"@ {
        ArtKind::Arch
    } else if id == "arch-mini"@ {
        ArtKind::ArchMini
    } else if id == "apple"@ || id == "macos"@ || id == "macbook"@ || id == "yablocoder"@ {
        ArtKind::Apple
    } else {
        ArtKind::Fallback
    }
}

/// Picks the built-in logo for a lower-case distribution id.
pub fn art_kind(id: &str) -> (r: ArtKind)
    ensures
        r == art_kind_of(id@),
{
    if same_text(id, "arch") || same_text(id, "endeavouros") {
        ArtKind::Arch
    } else if same_text(id, "arch-mini") {
        ArtKind::ArchMini
    } else if same_text(id, "apple") || same_text(id, "macos") || same_text(id, "macbook")
        || same_text(id, "yablocoder") {
        ArtKind::Apple
    } else {
        ArtKind::Fallback
    }
}

/// The lines of each built-in logo, as drawn.
pub open spec fn art_text(kind: ArtKind) -> Seq<Seq<char>> {
    match kind {
        ArtKind::Arch => seq![
            "                                     "@,
            "                  -`                 "@,
            "                 .o+`                "@,
            "                `oooo.                "@,
            "               `+oooo:               "@,
            "              `+oooooo:              "@,
            "              -+oooooo+:             "@,
            "            `/:-:++oooo+:            "@,
            "           `/++++/+++++++:           "@,
            "          `/++++++++++++++:          "@,
            "         `/+++rustooooooooo\\`        "@,
            "        ./ooosssso++osssssso+`       "@,
            "       .oossssso-````/ossssss+`      "@,
            "      -osssssso.      :ssssssso.     "@,
            "     :osssssss/        osssso+++.    "@,
            "    /ossssssss/        +ssssooo/-    "@,
            "  `/ossssso+/:-        -:/+osssso+-  "@,
            " `+sso+:-`                 `.-/+oso: "@,
            "`++:.                           `-/+/"@,
            ".`                                 ` "@,
            "                                     "@,
        ],
        ArtKind::ArchMini => seq![
            "                  "@,
            "        /\\        "@,
            "       /  \\       "@,
            "      /    \\      "@,
            "     _\\     \\     "@,
            "    /        \\    "@,
            "   /          \\   "@,
            "  /     __   \\_\\  "@,
            " /     /  \\     \\ "@,
            "/__,--'    '--,__\\"@,
            "                   "@,
        ],
        ArtKind::Apple => seq![
            "                              "@,
            "                    c.'       "@,
            "                 ,xNMM.       "@,
            "               .OMMMMo        "@,
            "               lMM\"           "@,
            "     .;loddo:.  .olloddol;.   "@,
            "   cKMMMMMMMMMMNWMMMMMMMMMM0: "@,
            " .KMMMMMMMMMMMMMMMMMMMMMMMWd. "@,
            " XMMMMMMMMMMMMMMMMMMMMMMMX.   "@,
            ";MMMMMMMMMMMMMMMMMMMMMMMM:    "@,
            ":MMMMMMMMMMMMMMMMMMMMMMMM:    "@,
            ".MMMMMMMMMMMMMMMMMMMMMMMMX.   "@,
            " kMMMMMMMMMMMMMMMMMMMMMMMMWd. "@,
            " 'XMMMMMMMMMMMMMMMMMMMMMMMMMMk"@,
            "  'XMMMMMMMMMMMMMMMMMMMMMMMMK."@,
            "    kMMMMMMMMMMMMMMMMMMMMMMd  "@,
            "     ;KMMMMMMMWXXWMMMMMMMk.   "@,
            "       \"cooc*\"    \"*coo'\"     "@,
            "                              "@,
        ],
        ArtKind::Fallback => seq![
            "                           "@,
            "                           "@,
            "                           "@,
            " ⠀⠀⠀⠰⡿⠿⠛⠛⠻⠿⣷           "@,
            "⠀⠀⠀⠀⠀⠀⣀⣄⡀⠀⠀⠀⠀⢀⣀⣀⣤⣄⣀⡀ "@,
            "⠀⠀⠀⠀⠀⢸⣿⣿⣷⠀⠀⠀⠀⠛⠛⣿⣿⣿⡛⠿⠷"@,
            "⠀⠀⠀⠀⠀⠘⠿⠿⠋⠀⠀⠀⠀⠀⠀⣿⣿⣿⠇   "@,
            "⠀⠀⠀⠀⠀⠀⠀⠀⠀⠀⠀⠀⠀⠀⠀⠈⠉⠁    "@,
            "⠀⠀⠀⠀⣿⣷⣄⠀⢶⣶⣷⣶⣶⣤⣀        "@,
            "⠀⠀⠀⠀⣿⣿⣿⠀⠀⠀⠀⠀⠈⠙⠻⠗       "@,
            "⠀⠀⠀⣰⣿⣿⣿⠀⠀⠀⠀⢀⣀⣠⣤⣴⣶⡄     "@,
            "⠀⣠⣾⣿⣿⣿⣥⣶⣶⣿⣿⣿⣿⣿⠿⠿⠛⠃     "@,
            "⢰⣿⣿⣿⣿⣿⣿⣿⣿⣿⣿⣿⡄           "@,
            "⢸⣿⣿⣿⣿⣿⣿⣿⣿⣿⣿⣿⡁           "@,
            "⠈⢿⣿⣿⣿⣿⣿⣿⣿⣿⣿⣿⠁           "@,
            "⠀⠀⠛⢿⣿⣿⣿⣿⣿⣿⡿⠟            "@,
            "⠀⠀⠀⠀⠀⠉⠉⠉                 "@,
            "                           "@,
            "                           "@,
            "   why do I need Linux?    "@,
        ],
    }
}

fn push_line(v: &mut Vec<String>, line: &str)
    ensures
        lines_view(final(v)@) == lines_view(old(v)@).push(line@),
{
    let ghost before = v@;
    v.push(String::from_str(line));
    assert(lines_view(v@) =~= lines_view(before).push(line@));
}

fn arch_art() -> (r: Vec<String>)
    ensures
        lines_view(r@) == art_text(ArtKind::Arch),
{
    let mut v: Vec<String> = Vec::new();
    push_line(&mut v, "                                     ");
    push_line(&mut v, "                  -`                 ");
    push_line(&mut v, "                 .o+`                ");
    push_line(&mut v, "                `oooo.                ");
    push_line(&mut v, "               `+oooo:               ");
    push_line(&mut v, "              `+oooooo:              ");
    push_line(&mut v, "              -+oooooo+:             ");
    push_line(&mut v, "            `/:-:++oooo+:            ");
    push_line(&mut v, "           `/++++/+++++++:           ");
    push_line(&mut v, "          `/++++++++++++++:          ");
    push_line(&mut v, "         `/+++rustooooooooo\\`        ");
    push_line(&mut v, "        ./ooosssso++osssssso+`       ");
    push_line(&mut v, "       .oossssso-````/ossssss+`      ");
    push_line(&mut v, "      -osssssso.      :ssssssso.     ");
    push_line(&mut v, "     :osssssss/        osssso+++.    ");
    push_line(&mut v, "    /ossssssss/        +ssssooo/-    ");
    push_line(&mut v, "  `/ossssso+/:-        -:/+osssso+-  ");
    push_line(&mut v, " `+sso+:-`                 `.-/+oso: ");
    push_line(&mut v, "`++:.                           `-/+/");
    push_line(&mut v, ".`                                 ` ");
    push_line(&mut v, "                                     ");
    assert(lines_view(v@) =~= art_text(ArtKind::Arch));
    v
}

fn arch_mini_art() -> (r: Vec<String>)
    ensures
        lines_view(r@) == art_text(ArtKind::ArchMini),
{
    let mut v: Vec<String> = Vec::new();
    push_line(&mut v, "                  ");
    push_line(&mut v, "        /\\        ");
    push_line(&mut v, "       /  \\       ");
    push_line(&mut v, "      /    \\      ");
    push_line(&mut v, "     _\\     \\     ");
    push_line(&mut v, "    /        \\    ");
    push_line(&mut v, "   /          \\   ");
    push_line(&mut v, "  /     __   \\_\\  ");
    push_line(&mut v, " /     /  \\     \\ ");
    push_line(&mut v, "/__,--'    '--,__\\");
    push_line(&mut v, "                   ");
    assert(lines_view(v@) =~= art_text(ArtKind::ArchMini));
    v
}

fn apple_art() -> (r: Vec<String>)
    ensures
        lines_view(r@) == art_text(ArtKind::Apple),
{
    let mut v: Vec<String> = Vec::new();
    push_line(&mut v, "                              ");
    push_line(&mut v, "                    c.'       ");
    push_line(&mut v, "                 ,xNMM.       ");
    push_line(&mut v, "               .OMMMMo        ");
    push_line(&mut v, "               lMM\"           ");
    push_line(&mut v, "     .;loddo:.  .olloddol;.   ");
    push_line(&mut v, "   cKMMMMMMMMMMNWMMMMMMMMMM0: ");
    push_line(&mut v, " .KMMMMMMMMMMMMMMMMMMMMMMMWd. ");
    push_line(&mut v, " XMMMMMMMMMMMMMMMMMMMMMMMX.   ");
    push_line(&mut v, ";MMMMMMMMMMMMMMMMMMMMMMMM:    ");
    push_line(&mut v, ":MMMMMMMMMMMMMMMMMMMMMMMM:    ");
    push_line(&mut v, ".MMMMMMMMMMMMMMMMMMMMMMMMX.   ");
    push_line(&mut v, " kMMMMMMMMMMMMMMMMMMMMMMMMWd. ");
    push_line(&mut v, " 'XMMMMMMMMMMMMMMMMMMMMMMMMMMk");
    push_line(&mut v, "  'XMMMMMMMMMMMMMMMMMMMMMMMMK.");
    push_line(&mut v, "    kMMMMMMMMMMMMMMMMMMMMMMd  ");
    push_line(&mut v, "     ;KMMMMMMMWXXWMMMMMMMk.   ");
    push_line(&mut v, "       \"cooc*\"    \"*coo'\"     ");
    push_line(&mut v, "                              ");
    assert(lines_view(v@) =~= art_text(ArtKind::Apple));
    v
}

fn fallback_art() -> (r: Vec<String>)
    ensures
        lines_view(r@) == art_text(ArtKind::Fallback),
{
    let mut v: Vec<String> = Vec::new();
    push_line(&mut v, "                           ");
    push_line(&mut v, "                           ");
    push_line(&mut v, "                           ");
    push_line(&mut v, " ⠀⠀⠀⠰⡿⠿⠛⠛⠻⠿⣷           ");
    push_line(&mut v, "⠀⠀⠀⠀⠀⠀⣀⣄⡀⠀⠀⠀⠀⢀⣀⣀⣤⣄⣀⡀ ");
    push_line(&mut v, "⠀⠀⠀⠀⠀⢸⣿⣿⣷⠀⠀⠀⠀⠛⠛⣿⣿⣿⡛⠿⠷");
    push_line(&mut v, "⠀⠀⠀⠀⠀⠘⠿⠿⠋⠀⠀⠀⠀⠀⠀⣿⣿⣿⠇   ");
    push_line(&mut v, "⠀⠀⠀⠀⠀⠀⠀⠀⠀⠀⠀⠀⠀⠀⠀⠈⠉⠁    ");
    push_line(&mut v, "⠀⠀⠀⠀⣿⣷⣄⠀⢶⣶⣷⣶⣶⣤⣀        ");
    push_line(&mut v, "⠀⠀⠀⠀⣿⣿⣿⠀⠀⠀⠀⠀⠈⠙⠻⠗       ");
    push_line(&mut v, "⠀⠀⠀⣰⣿⣿⣿⠀⠀⠀⠀⢀⣀⣠⣤⣴⣶⡄     ");
    push_line(&mut v, "⠀⣠⣾⣿⣿⣿⣥⣶⣶⣿⣿⣿⣿⣿⠿⠿⠛⠃     ");
    push_line(&mut v, "⢰⣿⣿⣿⣿⣿⣿⣿⣿⣿⣿⣿⡄           ");
    push_line(&mut v, "⢸⣿⣿⣿⣿⣿⣿⣿⣿⣿⣿⣿⡁           ");
    push_line(&mut v, "⠈⢿⣿⣿⣿⣿⣿⣿⣿⣿⣿⣿⠁           ");
    push_line(&mut v, "⠀⠀⠛⢿⣿⣿⣿⣿⣿⣿⡿⠟            ");
    push_line(&mut v, "⠀⠀⠀⠀⠀⠉⠉⠉                 ");
    push_line(&mut v, "                           ");
    push_line(&mut v, "                           ");
    push_line(&mut v, "   why do I need Linux?    ");
    assert(lines_view(v@) =~= art_text(ArtKind::Fallback));
    v
}

/// The raw lines of a built-in logo.
pub fn art_lines(kind: ArtKind) -> (r: Vec<String>)
    ensures
        lines_view(r@) == art_text(kind),
{
    match kind {
        ArtKind::Arch => arch_art(),
        ArtKind::ArchMini => arch_mini_art(),
        ArtKind::Apple => apple_art(),
        ArtKind::Fallback => fallback_art(),
    }
}

/// A built-in logo, every line padded to the width of its widest line.
pub fn art_for_id(id: &str) -> (r: Vec<String>)
    ensures
        lines_view(r@) == normalized(art_text(art_kind_of(id@))),
{
    let raw = art_lines(art_kind(id));
    normalize(&raw)
}

/// The id the built-in logo is chosen by: the configured distribution in
/// lower case, else the os-release id, else nothing.
pub open spec fn chosen_id(distro: Option<Seq<char>>, os_release: Option<Seq<char>>) -> Seq<char> {
    match distro {
        Some(d) => lower_of(d),
        None => match os_release {
            Some(t) => match os_release_id(t) {
                Some(id) => id,
                None => seq![],
            },
            None => seq![],
        },
    }
}

/// The built-in logo for the configured distribution, or for the one the
/// os-release text names. `os_release` is that text, if it could be read.
pub fn builtin_ascii(_width: usize, distro_override: Option<&str>, os_release: Option<&str>) -> (r:
    Vec<String>)
    ensures
        lines_view(r@) == normalized(
            art_text(
                art_kind_of(
                    chosen_id(
                        opt_text(distro_override),
                        opt_text(os_release),
                    ),
                ),
            ),
        ),
{
    let id = match distro_override {
        Some(d) => lowercase(d),
        None => match os_release {
            Some(t) => match get_os_release_id(t) {
                Some(id) => id,
                None => String::new(),
            },
            None => String::new(),
        },
    };
    art_for_id(id.as_str())
}

/// The view of an optional text.
pub open spec fn opt_text(o: Option<&str>) -> Option<Seq<char>> {
    match o {
        Some(t) => Some(t@),
        None => None,
    }
}

/// The logo lines to draw: none when the logo is off; the lines of the art
/// file fitted to the configured width when one is set and could be read;
/// the built-in logo otherwise.
pub open spec fn loaded_art(
    cfg: AsciiConfig,
    file_text: Option<Seq<char>>,
    os_release: Option<Seq<char>>,
) -> Seq<Seq<char>> {
    if !cfg.enabled {
        seq![]
    } else if cfg.file.is_some() && file_text.is_some() {
        let lines = text_lines(file_text->0);
        lines.map_values(|l: Seq<char>| padded(l, effective_width_spec(cfg.width as nat, lines)))
    } else {
        let distro = match cfg.distro {
            Some(d) => Some(d@),
            None => None,
        };
        normalized(art_text(art_kind_of(chosen_id(distro, os_release))))
    }
}

/// The logo lines to draw. `file_text` is the contents of the configured art
/// file, if it could be read; `os_release` that of the os-release file.
pub fn load_ascii_art(cfg: &AsciiConfig, file_text: Option<&str>, os_release: Option<&str>) -> (r:
    Vec<String>)
    ensures
        lines_view(r@) == loaded_art(*cfg, opt_text(file_text), opt_text(os_release)),
{
    if !cfg.enabled {
        let r: Vec<String> = Vec::new();
        assert(lines_view(r@) =~= Seq::<Seq<char>>::empty());
        return r;
    }
    if cfg.file.is_some() {
        if let Some(text) = file_text {
            let lines = split_lines(text);
            return fit_to_width(&lines, cfg.width);
        }
    }
    let distro = match &cfg.distro {
        Some(d) => Some(d.as_str()),
        None => None,
    };
    builtin_ascii(cfg.width, distro, os_release)
}

} // verus!
