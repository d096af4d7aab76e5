use vstd::prelude::*;

use crate::text::{
    chars_of, lines_view, lower_of, lowercase, quotes_trimmed, split_lines, starts_with,
    text_lines, trim_quotes_from,
};

verus! {

/// The value of the first line that starts with `key` (such as `ID=`), with
/// surrounding double quotes removed.
pub open spec fn key_value(lines: Seq<Seq<char>>, key: Seq<char>) -> Option<Seq<char>>
    decreases lines.len(),
{
    if lines.len() == 0 {
        None
    } else if key.is_prefix_of(lines[0]) {
        Some(quotes_trimmed(lines[0].subrange(key.len() as int, lines[0].len() as int)))
    } else {
        key_value(lines.drop_first(), key)
    }
}

/// The distribution id of an os-release text, in lower case.
pub open spec fn os_release_id(os_release: Seq<char>) -> Option<Seq<char>> {
    match key_value(text_lines(os_release), "ID="@) {
        Some(v) => Some(lower_of(v)),
        None => None,
    }
}

/// The value of the first line of `text` that starts with `key`.
pub fn find_key_value(text: &str, key: &str) -> (r: Option<String>)
    ensures
        match r {
            Some(s) => key_value(text_lines(text@), key@) == Some(s@),
            None => key_value(text_lines(text@), key@) is None,
        },
{
    let lines = split_lines(text);
    let ghost ls = lines_view(lines@);
    let mut i: usize = 0;
    assert(ls.subrange(0, ls.len() as int) == ls);
    while i < lines.len()
        invariant
            ls == lines_view(lines@),
            ls == text_lines(text@),
            i <= lines.len(),
            key_value(ls.subrange(i as int, ls.len() as int), key@) == key_value(ls, key@),
        decreases lines.len() - i,
    {
        let ghost rest = ls.subrange(i as int, ls.len() as int);
        assert(rest[0] == ls[i as int]);
        assert(rest.drop_first() == ls.subrange(i + 1, ls.len() as int));
        if starts_with(lines[i].as_str(), key) {
            let v = chars_of(lines[i].as_str());
            let k = chars_of(key).len();
            return Some(trim_quotes_from(&v, k));
        }
        i = i + 1;
    }
    None
}

/// The `PRETTY_NAME` of an os-release text, without quotes.
pub fn read_os_pretty_name(os_release: &str) -> (r: Option<String>)
    ensures
        match r {
            Some(s) => key_value(text_lines(os_release@), "PRETTY_NAME="@) == Some(s@),
            None => key_value(text_lines(os_release@), "PRETTY_NAME="@) is None,
        },
{
    find_key_value(os_release, "PRETTY_NAME=")
}

/// The `ID` of an os-release text, without quotes and in lower case.
pub fn get_os_release_id(os_release: &str) -> (r: Option<String>)
    ensures
        match r {
            Some(s) => os_release_id(os_release@) == Some(s@),
            None => os_release_id(os_release@) is None,
        },
{
    match find_key_value(os_release, "ID=") {
        Some(v) => Some(lowercase(v.as_str())),
        None => None,
    }
}

} // verus!
