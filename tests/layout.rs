use rushfetch::block::{effective_width, fit_to_width, normalize, pad_to_width, truncate_to_width};
use rushfetch::compose::{art_cells, compose, indent_lines, join_columns};
use rushfetch::text::split_lines;
use rushfetch::width::{line_width_of, unicode_str_width};

fn strings(v: &[&str]) -> Vec<String> {
    v.iter().map(|s| s.to_string()).collect()
}

#[test]
fn width_of_ascii_is_its_length() {
    assert_eq!(unicode_str_width("hello"), 5);
    assert_eq!(unicode_str_width(""), 0);
    let printable: String = (0x20u8..0x7F).map(|b| b as char).collect();
    assert_eq!(unicode_str_width(&printable), printable.chars().count());
}

#[test]
fn width_of_cjk_and_hangul_is_double() {
    assert_eq!(unicode_str_width("日本"), 4);
    assert_eq!(unicode_str_width("한국어"), 6);
    assert_eq!(unicode_str_width("aＡb"), 4);
    assert_eq!(unicode_str_width("\u{1100}"), 2);
}

#[test]
fn width_of_braille_and_emoji_is_single() {
    assert_eq!(unicode_str_width("⠀⣿⡿"), 3);
    assert_eq!(unicode_str_width("\u{1F600}"), 1);
    assert_eq!(unicode_str_width("é"), 1);
}

#[test]
fn wide_width_matches_narrow_width() {
    assert_eq!(line_width_of("ab日本"), 6);
}

#[test]
fn pad_reaches_target() {
    assert_eq!(pad_to_width("ab", 5), "ab   ");
    assert_eq!(pad_to_width("日", 4), "日  ");
    assert_eq!(pad_to_width("", 3), "   ");
    assert_eq!(unicode_str_width(&pad_to_width("日本x", 9)), 9);
}

#[test]
fn pad_leaves_wide_lines_alone() {
    assert_eq!(pad_to_width("abcdef", 3), "abcdef");
    assert_eq!(pad_to_width("abc", 3), "abc");
}

#[test]
fn truncate_keeps_longest_fitting_prefix() {
    assert_eq!(truncate_to_width("hello", 3), "hel");
    assert_eq!(truncate_to_width("hello", 10), "hello");
    assert_eq!(truncate_to_width("hello", 0), "");
    assert_eq!(truncate_to_width("", 4), "");
}

#[test]
fn truncate_never_splits_a_wide_char() {
    assert_eq!(truncate_to_width("日本語", 5), "日本");
    assert_eq!(truncate_to_width("日本語", 1), "");
    assert_eq!(truncate_to_width("a日b", 2), "a");
    for w in 0..8 {
        assert!(unicode_str_width(&truncate_to_width("x日本y語", w)) <= w);
    }
}

#[test]
fn normalize_pads_to_widest_line() {
    let b = strings(&["a", "abc", "日"]);
    let n = normalize(&b);
    assert_eq!(n, strings(&["a  ", "abc", "日 "]));
    for l in &n {
        assert_eq!(unicode_str_width(l), 3);
    }
}

#[test]
fn normalize_twice_is_normalize_once() {
    let b = strings(&["⠀⣿", "xyz 12", "", "한"]);
    let once = normalize(&b);
    assert_eq!(normalize(&once), once);
}

#[test]
fn normalize_empty_block() {
    assert!(normalize(&Vec::new()).is_empty());
}

#[test]
fn effective_width_is_a_floor() {
    assert_eq!(effective_width(10, &strings(&["abc"])), 10);
    assert_eq!(effective_width(2, &strings(&["abcd", "日本語"])), 6);
    assert_eq!(effective_width(0, &Vec::new()), 0);
}

#[test]
fn fit_pads_to_configured_width() {
    let r = fit_to_width(&strings(&["ab", "abcd"]), 6);
    assert_eq!(r, strings(&["ab    ", "abcd  "]));
    let r = fit_to_width(&strings(&["ab", "abcd"]), 1);
    assert_eq!(r, strings(&["ab  ", "abcd"]));
}

#[test]
fn split_lines_like_std() {
    for t in ["", "a", "a\n", "a\r\nb", "\n\n", "x\ry\n", "a\r", "one\ntwo\r\n\nthree"] {
        let expected: Vec<String> = t.lines().map(String::from).collect();
        assert_eq!(split_lines(t), expected, "text {:?}", t);
    }
}

#[test]
fn art_shorter_than_info_is_padded_with_blank_cells() {
    let art = strings(&["/\\", "||", "||", "||", "\\/"]);
    let info = strings(&["1", "2", "3", "4", "5", "6", "7", "8"]);
    let out = compose(&art, &info);
    assert_eq!(out.len(), 8);
    assert_eq!(out[0], " /\\   1");
    assert_eq!(out[4], " \\/   5");
    for i in 5..8 {
        assert_eq!(out[i], format!("      {}", info[i]));
    }
    let cells = art_cells(&art, 8);
    for c in &cells[5..] {
        assert_eq!(c, "   ");
    }
}

#[test]
fn art_taller_than_info_gets_empty_info() {
    let art = strings(&["ab", "c", "d"]);
    let info = strings(&["x"]);
    let out = compose(&art, &info);
    assert_eq!(out, strings(&[" ab   x", " c    ", " d    "]));
}

#[test]
fn join_and_indent() {
    let cells = strings(&["AA", "BB"]);
    let info = strings(&["i"]);
    assert_eq!(join_columns(&cells, &info), strings(&[" AA  i", " BB  "]));
    assert_eq!(indent_lines(&info), strings(&[" i"]));
}
