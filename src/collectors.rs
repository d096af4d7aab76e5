use vstd::prelude::*;

use crate::scan::{
    ascii_words, find_from, first_match, join_words, joined_words, split_words, trim_from,
    trimmed, words,
};
use crate::text::{
    chars_of, lines_view, same_text, split_lines, starts_with, string_from_range, text_lines,
};

verus! {

/// The value of a string of decimal digits.
pub open spec fn digits_value(d: Seq<char>) -> nat
    decreases d.len(),
{
    if d.len() == 0 {
        0
    } else {
        digits_value(d.drop_last()) * 10 + ((d.last() as u32) - 48) as nat
    }
}

/// Whether every character is an ASCII digit.
pub open spec fn all_digits(d: Seq<char>) -> bool {
    forall|i: int| 0 <= i < d.len() ==> '0' <= #[trigger] d[i] <= '9'
}

/// A `u64` written in decimal, as `str::parse::<u64>` reads it: an optional
/// '+', then one or more digits, with a value that fits.
pub open spec fn parsed_u64(s: Seq<char>) -> Option<nat> {
    let d = if s.len() > 0 && s[0] == '+' {
        s.drop_first()
    } else {
        s
    };
    if d.len() > 0 && all_digits(d) && digits_value(d) <= u64::MAX {
        Some(digits_value(d))
    } else {
        None
    }
}

proof fn lemma_digits_value_monotone(d: Seq<char>, k: int)
    requires
        0 <= k <= d.len(),
        all_digits(d),
    ensures
        digits_value(d.subrange(0, k)) <= digits_value(d),
    decreases d.len() - k,
{
    if k < d.len() {
        let t = d.subrange(0, k + 1);
        assert(t.drop_last() == d.subrange(0, k));
        assert('0' <= d[k] <= '9');
        lemma_digits_value_monotone(d, k + 1);
    } else {
        assert(d.subrange(0, k) == d);
    }
}

/// Reads a `u64` written in decimal.
pub fn parse_u64(s: &str) -> (r: Option<u64>)
    ensures
        match r {
            Some(n) => parsed_u64(s@) == Some(n as nat),
            None => parsed_u64(s@) is None,
        },
{
    let v = chars_of(s);
    let start: usize = if v.len() > 0 && v[0] == '+' {
        1
    } else {
        0
    };
    let ghost d = v@.subrange(start as int, v@.len() as int);
    assert(d =~= (if s@.len() > 0 && s@[0] == '+' {
        s@.drop_first()
    } else {
        s@
    }));
    if start == v.len() {
        return None;
    }
    let mut n: u64 = 0;
    let mut i: usize = start;
    while i < v.len()
        invariant
            v@ == s@,
            start <= i <= v.len(),
            d == v@.subrange(start as int, v@.len() as int),
            d == (if s@.len() > 0 && s@[0] == '+' {
                s@.drop_first()
            } else {
                s@
            }),
            all_digits(v@.subrange(start as int, i as int)),
            n == digits_value(v@.subrange(start as int, i as int)),
        decreases v.len() - i,
    {
        let c = v[i];
        let ghost pre = v@.subrange(start as int, i + 1);
        assert(pre.drop_last() == v@.subrange(start as int, i as int));
        assert(pre.last() == c);
        if c < '0' || c > '9' {
            assert(d[i - start] == c);
            assert(!all_digits(d));
            assert(parsed_u64(s@) is None);
            return None;
        }
        let digit = (c as u32 - 48) as u64;
        if n > (u64::MAX - digit) / 10 {
            proof {
                assert(n * 10 + digit > u64::MAX) by (nonlinear_arith)
                    requires
                        n > (u64::MAX - digit) / 10,
                        digit <= 9,
                ;
                assert(digits_value(pre) == n * 10 + digit);
                if all_digits(d) {
                    lemma_digits_value_monotone(d, i + 1 - start);
                    assert(d.subrange(0, i + 1 - start) =~= pre);
                }
                assert(parsed_u64(s@) is None);
            }
            return None;
        }
        n = n * 10 + digit;
        i = i + 1;
        assert(all_digits(v@.subrange(start as int, i as int))) by {
            assert forall|j: int| 0 <= j < pre.len() implies '0' <= #[trigger] pre[j] <= '9' by {
                if j < pre.len() - 1 {
                    assert(pre[j] == pre.drop_last()[j]);
                }
            }
        }
    }
    Some(n)
}

/// The version that `/proc/version` names: the first word after
/// "Linux version ".
pub open spec fn kernel_version_of(t: Seq<char>) -> Option<Seq<char>> {
    if "Linux version "@.is_prefix_of(t) {
        let ws = words(t.subrange("Linux version "@.len() as int, t.len() as int));
        if ws.len() > 0 {
            Some(ws[0])
        } else {
            None
        }
    } else {
        None
    }
}

/// The kernel version from the text of `/proc/version`.
pub fn read_kernel_version(proc_version: &str) -> (r: Option<String>)
    ensures
        match r {
            Some(s) => kernel_version_of(proc_version@) == Some(s@),
            None => kernel_version_of(proc_version@) is None,
        },
{
    if !starts_with(proc_version, "Linux version ") {
        return None;
    }
    let v = chars_of(proc_version);
    let k = chars_of("Linux version ").len();
    let rest = string_from_range(&v, k, v.len());
    let ws = split_words(rest.as_str(), false);
    if ws.len() > 0 {
        Some(ws[0].clone())
    } else {
        None
    }
}

/// The text after the first `label` of a line and the first ':' after it,
/// trimmed.
pub open spec fn labelled_value(line: Seq<char>, label: Seq<char>) -> Option<Seq<char>> {
    match first_match(line, label) {
        Some(p) => match first_match(line.subrange(p as int, line.len() as int), ":"@) {
            Some(q) => Some(trimmed(line.subrange((p + q + 1) as int, line.len() as int))),
            None => None,
        },
        None => None,
    }
}

/// The first non-empty value under `label` among the lines.
pub open spec fn first_labelled(lines: Seq<Seq<char>>, label: Seq<char>) -> Option<Seq<char>>
    decreases lines.len(),
{
    if lines.len() == 0 {
        None
    } else {
        match labelled_value(lines[0], label) {
            Some(v) => if v.len() > 0 {
                Some(v)
            } else {
                first_labelled(lines.drop_first(), label)
            },
            None => first_labelled(lines.drop_first(), label),
        }
    }
}

/// The CPU model that a `/proc/cpuinfo` text names: the first "model name"
/// with its runs of white space made single spaces, else the first "Hardware".
pub open spec fn cpu_model_of(t: Seq<char>) -> Option<Seq<char>> {
    match first_labelled(text_lines(t), "model name"@) {
        Some(m) => Some(joined_words(words(m))),
        None => first_labelled(text_lines(t), "Hardware"@),
    }
}

fn labelled_in(line: &str, label: &str) -> (r: Option<String>)
    ensures
        match r {
            Some(s) => labelled_value(line@, label@) == Some(s@),
            None => labelled_value(line@, label@) is None,
        },
{
    let v = chars_of(line);
    let l = chars_of(label);
    let colon = chars_of(":");
    proof {
        reveal_strlit(":");
    }
    assert(v@.subrange(0, v@.len() as int) == v@);
    match find_from(&v, 0, &l) {
        Some(p) => match find_from(&v, p, &colon) {
            Some(q) => Some(trim_from(&v, q + 1)),
            None => None,
        },
        None => None,
    }
}

fn first_labelled_in(lines: &Vec<String>, label: &str) -> (r: Option<String>)
    ensures
        match r {
            Some(s) => first_labelled(lines_view(lines@), label@) == Some(s@),
            None => first_labelled(lines_view(lines@), label@) is None,
        },
{
    let ghost ls = lines_view(lines@);
    let mut i: usize = 0;
    assert(ls.subrange(0, ls.len() as int) == ls);
    while i < lines.len()
        invariant
            ls == lines_view(lines@),
            i <= lines.len(),
            first_labelled(ls.subrange(i as int, ls.len() as int), label@) == first_labelled(
                ls,
                label@,
            ),
        decreases lines.len() - i,
    {
        let ghost rest = ls.subrange(i as int, ls.len() as int);
        assert(rest[0] == ls[i as int]);
        assert(rest.drop_first() == ls.subrange(i + 1, ls.len() as int));
        match labelled_in(lines[i].as_str(), label) {
            Some(v) => {
                if !v.as_str().is_empty() {
                    return Some(v);
                }
            },
            None => {},
        }
        i = i + 1;
    }
    None
}

/// The CPU model from the text of `/proc/cpuinfo`.
pub fn read_cpu_model(cpuinfo: &str) -> (r: Option<String>)
    ensures
        match r {
            Some(s) => cpu_model_of(cpuinfo@) == Some(s@),
            None => cpu_model_of(cpuinfo@) is None,
        },
{
    let lines = split_lines(cpuinfo);
    match first_labelled_in(&lines, "model name") {
        Some(m) => {
            let ws = split_words(m.as_str(), false);
            Some(join_words(&ws))
        },
        None => first_labelled_in(&lines, "Hardware"),
    }
}

/// The second tab-separated column of a line, if it has one.
pub open spec fn second_column(line: Seq<char>) -> Option<Seq<char>> {
    match first_match(line, "\t"@) {
        Some(p) => {
            let rest = line.subrange((p + 1) as int, line.len() as int);
            match first_match(rest, "\t"@) {
                Some(q) => Some(rest.subrange(0, q as int)),
                None => Some(rest),
            }
        },
        None => None,
    }
}

/// A PCI class of a display controller: VGA (0300) or 3D (0302).
pub open spec fn is_display_class(column: Seq<char>) -> bool {
    "0300"@.is_prefix_of(column) || "0302"@.is_prefix_of(column)
}

/// Whether a line of `/proc/bus/pci/devices` is a display controller.
pub open spec fn is_display_device(line: Seq<char>) -> bool {
    match second_column(line) {
        Some(c) => is_display_class(c),
        None => false,
    }
}

/// What is shown when a display controller is found on the PCI bus alone.
pub open spec fn pci_gpu_note() -> Seq<char> {
    "(detected, install lspci for details)"@
}

fn second_column_of(line: &str) -> (r: Option<String>)
    ensures
        match r {
            Some(s) => second_column(line@) == Some(s@),
            None => second_column(line@) is None,
        },
{
    let v = chars_of(line);
    let tab = chars_of("\t");
    proof {
        reveal_strlit("\t");
    }
    assert(v@.subrange(0, v@.len() as int) == v@);
    match find_from(&v, 0, &tab) {
        Some(p) => {
            let ghost rest = v@.subrange(p + 1, v@.len() as int);
            match find_from(&v, p + 1, &tab) {
                Some(q) => {
                    let r = string_from_range(&v, p + 1, q);
                    assert(r@ =~= rest.subrange(0, q - (p + 1)));
                    Some(r)
                },
                None => Some(string_from_range(&v, p + 1, v.len())),
            }
        },
        None => None,
    }
}

/// A display controller from the text of `/proc/bus/pci/devices`.
pub fn detect_gpu_pci(devices: &str) -> (r: Option<String>)
    ensures
        (exists|i: int|
            0 <= i < text_lines(devices@).len() && is_display_device(
                #[trigger] text_lines(devices@)[i],
            )) ==> r is Some && r->0@ == pci_gpu_note(),
        !(exists|i: int|
            0 <= i < text_lines(devices@).len() && is_display_device(
                #[trigger] text_lines(devices@)[i],
            )) ==> r is None,
{
    let lines = split_lines(devices);
    let ghost ls = lines_view(lines@);
    let mut i: usize = 0;
    while i < lines.len()
        invariant
            ls == lines_view(lines@),
            ls == text_lines(devices@),
            i <= lines.len(),
            forall|j: int| 0 <= j < i ==> !is_display_device(#[trigger] ls[j]),
        decreases lines.len() - i,
    {
        match second_column_of(lines[i].as_str()) {
            Some(c) => {
                if starts_with(c.as_str(), "0300") || starts_with(c.as_str(), "0302") {
                    assert(is_display_device(ls[i as int]));
                    return Some(String::from_str("(detected, install lspci for details)"));
                }
            },
            None => {},
        }
        i = i + 1;
    }
    None
}

/// The graphics card: what the DRM class directory named, else what the PCI
/// device list shows. `pci_devices` is that list's text, if it could be read.
pub fn detect_gpu(drm: Option<String>, pci_devices: Option<&str>) -> (r: Option<String>)
    ensures
        drm is Some ==> r == drm,
        drm is None && pci_devices is None ==> r is None,
        drm is None && pci_devices is Some ==> (r is Some <==> exists|i: int|
            0 <= i < text_lines(pci_devices->0@).len() && is_display_device(
                #[trigger] text_lines(pci_devices->0@)[i],
            )),
        drm is None && r is Some ==> r->0@ == pci_gpu_note(),
{
    match drm {
        Some(g) => Some(g),
        None => match pci_devices {
            Some(t) => detect_gpu_pci(t),
            None => None,
        },
    }
}

/// Whether a DRM class entry is a card itself rather than one of its
/// connectors (`card0` is, `card0-HDMI-A-1` is not).
pub fn is_card_entry(name: &str) -> (r: bool)
    ensures
        r == ("card"@.is_prefix_of(name@) && !name@.contains('-')),
{
    if !starts_with(name, "card") {
        return false;
    }
    let v = chars_of(name);
    let mut i: usize = 0;
    while i < v.len()
        invariant
            v@ == name@,
            i <= v.len(),
            forall|j: int| 0 <= j < i ==> v@[j] != '-',
        decreases v.len() - i,
    {
        if v[i] == '-' {
            assert(name@[i as int] == '-');
            return false;
        }
        i = i + 1;
    }
    true
}

/// A card named by its vendor and product ids: both trimmed, joined by a
/// space, when the product id is not empty.
pub fn gpu_from_ids(vendor: &str, product: &str) -> (r: Option<String>)
    ensures
        trimmed(product@).len() == 0 ==> r is None,
        trimmed(product@).len() > 0 ==> r is Some && r->0@ == trimmed(vendor@) + " "@
            + trimmed(product@),
{
    let v = crate::scan::trim(vendor);
    let m = crate::scan::trim(product);
    if m.as_str().is_empty() {
        None
    } else {
        let mut r = v;
        r.append(" ");
        r.append(m.as_str());
        Some(r)
    }
}

/// Whether a device's uevent text names a PCI id.
pub fn uevent_has_pci_id(uevent: &str) -> (r: bool)
    ensures
        r == (first_match(uevent@, "PCI_ID="@) is Some),
{
    let v = chars_of(uevent);
    let p = chars_of("PCI_ID=");
    assert(v@.subrange(0, v@.len() as int) == v@);
    find_from(&v, 0, &p).is_some()
}

/// The number of the last line of a meminfo text whose first word is `key`:
/// its second word read as a number, 0 when it has none or it does not
/// read; 0 when no line has that key.
pub open spec fn meminfo_value(lines: Seq<Seq<char>>, key: Seq<char>) -> nat
    decreases lines.len(),
{
    if lines.len() == 0 {
        0
    } else {
        let ws = ascii_words(lines.last());
        if ws.len() > 0 && ws[0] == key {
            if ws.len() > 1 {
                match parsed_u64(ws[1]) {
                    Some(n) => n,
                    None => 0,
                }
            } else {
                0
            }
        } else {
            meminfo_value(lines.drop_last(), key)
        }
    }
}

proof fn lemma_meminfo_keys_distinct()
    ensures
        "MemTotal:"@ != "MemAvailable:"@,
        "MemTotal:"@ != "SwapTotal:"@,
        "MemTotal:"@ != "SwapFree:"@,
        "MemAvailable:"@ != "SwapTotal:"@,
        "MemAvailable:"@ != "SwapFree:"@,
        "SwapTotal:"@ != "SwapFree:"@,
{
    reveal_strlit("MemTotal:");
    reveal_strlit("MemAvailable:");
    reveal_strlit("SwapTotal:");
    reveal_strlit("SwapFree:");
    assert("MemTotal:"@.len() != "MemAvailable:"@.len());
    assert("MemTotal:"@.len() != "SwapTotal:"@.len());
    assert("MemTotal:"@[0] != "SwapFree:"@[0]);
    assert("MemAvailable:"@.len() != "SwapTotal:"@.len());
    assert("MemAvailable:"@.len() != "SwapFree:"@.len());
    assert("SwapTotal:"@.len() != "SwapFree:"@.len());
}

fn second_number(ws: &Vec<String>) -> (r: u64)
    ensures
        r == (if ws@.len() > 1 {
            match parsed_u64(ws@[1]@) {
                Some(n) => n,
                None => 0,
            }
        } else {
            0
        }),
{
    if ws.len() > 1 {
        match parse_u64(ws[1].as_str()) {
            Some(n) => n,
            None => 0,
        }
    } else {
        0
    }
}

/// The kB figures of a `/proc/meminfo` text: total, available, swap total
/// and swap free.
pub fn meminfo_totals(meminfo: &str) -> (r: (u64, u64, u64, u64))
    ensures
        r.0 == meminfo_value(text_lines(meminfo@), "MemTotal:"@),
        r.1 == meminfo_value(text_lines(meminfo@), "MemAvailable:"@),
        r.2 == meminfo_value(text_lines(meminfo@), "SwapTotal:"@),
        r.3 == meminfo_value(text_lines(meminfo@), "SwapFree:"@),
{
    let lines = split_lines(meminfo);
    let ghost ls = lines_view(lines@);
    let mut total: u64 = 0;
    let mut available: u64 = 0;
    let mut swap_total: u64 = 0;
    let mut swap_free: u64 = 0;
    let mut i: usize = 0;
    while i < lines.len()
        invariant
            ls == lines_view(lines@),
            ls == text_lines(meminfo@),
            i <= lines.len(),
            total == meminfo_value(ls.subrange(0, i as int), "MemTotal:"@),
            available == meminfo_value(ls.subrange(0, i as int), "MemAvailable:"@),
            swap_total == meminfo_value(ls.subrange(0, i as int), "SwapTotal:"@),
            swap_free == meminfo_value(ls.subrange(0, i as int), "SwapFree:"@),
        decreases lines.len() - i,
    {
        let ghost pre = ls.subrange(0, i + 1);
        assert(pre.drop_last() == ls.subrange(0, i as int));
        assert(pre.last() == ls[i as int]);
        proof {
            lemma_meminfo_keys_distinct();
        }
        let ws = split_words(lines[i].as_str(), true);
        if ws.len() > 0 {
            let key = ws[0].as_str();
            if same_text(key, "MemTotal:") {
                total = second_number(&ws);
            } else if same_text(key, "MemAvailable:") {
                available = second_number(&ws);
            } else if same_text(key, "SwapTotal:") {
                swap_total = second_number(&ws);
            } else if same_text(key, "SwapFree:") {
                swap_free = second_number(&ws);
            }
        }
        i = i + 1;
    }
    assert(ls.subrange(0, lines.len() as int) == ls);
    (total, available, swap_total, swap_free)
}

/// Memory use in MB from kB figures: used and total memory, used and total
/// swap. Used is total less available (or free), never below zero.
pub fn memory_figures(total: u64, available: u64, swap_total: u64, swap_free: u64) -> (r: (
    u64,
    u64,
    u64,
    u64,
))
    ensures
        r.0 == (if total >= available {
            total - available
        } else {
            0
        }) / 1024,
        r.1 == total / 1024,
        r.2 == (if swap_total >= swap_free {
            swap_total - swap_free
        } else {
            0
        }) / 1024,
        r.3 == swap_total / 1024,
{
    let used = if total >= available {
        total - available
    } else {
        0
    };
    let swap_used = if swap_total >= swap_free {
        swap_total - swap_free
    } else {
        0
    };
    (used / 1024, total / 1024, swap_used / 1024, swap_total / 1024)
}

/// Memory use in MB from the text of `/proc/meminfo`: used and total
/// memory, used and total swap.
pub fn read_meminfo(meminfo: &str) -> (r: (u64, u64, u64, u64))
    ensures
        ({
            let total = meminfo_value(text_lines(meminfo@), "MemTotal:"@);
            let available = meminfo_value(text_lines(meminfo@), "MemAvailable:"@);
            let swap_total = meminfo_value(text_lines(meminfo@), "SwapTotal:"@);
            let swap_free = meminfo_value(text_lines(meminfo@), "SwapFree:"@);
            &&& r.0 == (if total >= available {
                total - available
            } else {
                0
            }) / 1024
            &&& r.1 == total / 1024
            &&& r.2 == (if swap_total >= swap_free {
                swap_total - swap_free
            } else {
                0
            }) / 1024
            &&& r.3 == swap_total / 1024
        }),
{
    let (t, a, st, sf) = meminfo_totals(meminfo);
    memory_figures(t, a, st, sf)
}

/// Bytes in a GiB.
pub const GIB: u64 = 1073741824;

/// Disk use in GiB from a file-system's block counts: used and total.
pub fn disk_usage(blocks: u64, free_blocks: u64, fragment_size: u64) -> (r: (u64, u64))
    requires
        blocks * fragment_size <= u64::MAX,
        free_blocks * fragment_size <= u64::MAX,
    ensures
        r.1 == blocks * fragment_size / (GIB as int),
        r.0 == (if blocks * fragment_size / (GIB as int) >= free_blocks * fragment_size / (
        GIB as int) {
            blocks * fragment_size / (GIB as int) - free_blocks * fragment_size / (GIB as int)
        } else {
            0
        }),
{
    let total = blocks * fragment_size / GIB;
    let free = free_blocks * fragment_size / GIB;
    let used = if total >= free {
        total - free
    } else {
        0
    };
    (used, total)
}

/// The interface of the default route in the text of `/proc/net/route`: the
/// first line after the heading whose destination column is 00000000.
pub open spec fn route_interface(lines: Seq<Seq<char>>) -> Option<Seq<char>>
    decreases lines.len(),
{
    if lines.len() == 0 {
        None
    } else {
        let cols = words(lines[0]);
        if cols.len() >= 2 && cols[1] == "00000000"@ {
            Some(cols[0])
        } else {
            route_interface(lines.drop_first())
        }
    }
}

/// The default route's interface from the text of `/proc/net/route`.
pub fn default_route_interface(route: &str) -> (r: Option<String>)
    ensures
        match r {
            Some(s) => text_lines(route@).len() > 0 && route_interface(
                text_lines(route@).drop_first(),
            ) == Some(s@),
            None => text_lines(route@).len() == 0 || route_interface(
                text_lines(route@).drop_first(),
            ) is None,
        },
{
    let lines = split_lines(route);
    let ghost ls = lines_view(lines@);
    if lines.len() == 0 {
        return None;
    }
    let mut i: usize = 1;
    assert(ls.subrange(1, ls.len() as int) == ls.drop_first());
    while i < lines.len()
        invariant
            ls == lines_view(lines@),
            ls == text_lines(route@),
            1 <= i <= lines.len(),
            route_interface(ls.subrange(i as int, ls.len() as int)) == route_interface(
                ls.drop_first(),
            ),
        decreases lines.len() - i,
    {
        let ghost rest = ls.subrange(i as int, ls.len() as int);
        assert(rest[0] == ls[i as int]);
        assert(rest.drop_first() == ls.subrange(i + 1, ls.len() as int));
        let cols = split_words(lines[i].as_str(), false);
        if cols.len() >= 2 && same_text(cols[1].as_str(), "00000000") {
            return Some(cols[0].clone());
        }
        i = i + 1;
    }
    None
}

/// The separator between the head and the body of an HTTP response.
pub open spec fn head_end() -> Seq<char> {
    "\r\n\r\n"@
}

/// The body of an HTTP response, as the text between the first and the
/// second blank-line separator, trimmed.
pub open spec fn response_body(t: Seq<char>) -> Option<Seq<char>> {
    match first_match(t, head_end()) {
        Some(p) => {
            let rest = t.subrange((p + 4) as int, t.len() as int);
            match first_match(rest, head_end()) {
                Some(q) => Some(trimmed(rest.subrange(0, q as int))),
                None => Some(trimmed(rest)),
            }
        },
        None => None,
    }
}

/// The address in the response of the public-address service.
pub fn public_ip_from_response(response: &str) -> (r: Option<String>)
    ensures
        match r {
            Some(s) => response_body(response@) == Some(s@),
            None => response_body(response@) is None,
        },
{
    let v = chars_of(response);
    let sep = chars_of("\r\n\r\n");
    proof {
        reveal_strlit("\r\n\r\n");
    }
    assert(v@.subrange(0, v@.len() as int) == v@);
    match find_from(&v, 0, &sep) {
        Some(p) => {
            let ghost rest = v@.subrange(p + 4, v@.len() as int);
            match find_from(&v, p + 4, &sep) {
                Some(q) => {
                    let body = string_from_range(&v, p + 4, q);
                    assert(body@ =~= rest.subrange(0, q - (p + 4)));
                    Some(crate::scan::trim(body.as_str()))
                },
                None => Some(trim_from(&v, p + 4)),
            }
        },
        None => None,
    }
}

/// What follows the last '/' of a path; the whole path when it has none.
pub open spec fn last_component(s: Seq<char>) -> Seq<char>
    decreases s.len(),
{
    if s.len() == 0 {
        s
    } else if s.last() == '/' {
        seq![]
    } else {
        last_component(s.drop_last()).push(s.last())
    }
}

/// The shell's name from the value of `SHELL`: its last path component.
pub fn shell_name(shell: Option<&str>) -> (r: Option<String>)
    ensures
        match shell {
            Some(s) => r is Some && r->0@ == last_component(s@),
            None => r is None,
        },
{
    match shell {
        Some(s) => {
            let v = chars_of(s);
            let mut i: usize = v.len();
            assert(v@.subrange(0, v@.len() as int) == v@);
            assert(last_component(s@) =~= last_component(v@.subrange(0, i as int)) + v@.subrange(
                i as int,
                v@.len() as int,
            ));
            while i > 0 && v[i - 1] != '/'
                invariant
                    v@ == s@,
                    i <= v.len(),
                    last_component(s@) == last_component(v@.subrange(0, i as int)) + v@.subrange(
                        i as int,
                        v@.len() as int,
                    ),
                decreases i,
            {
                let ghost t = v@.subrange(0, i as int);
                assert(t.drop_last() == v@.subrange(0, i - 1));
                assert(v@.subrange(i - 1, v@.len() as int) == seq![v@[i - 1]] + v@.subrange(
                    i as int,
                    v@.len() as int,
                ));
                assert(last_component(t) == last_component(t.drop_last()).push(t.last()));
                i = i - 1;
                assert(last_component(s@) =~= last_component(v@.subrange(0, i as int))
                    + v@.subrange(i as int, v@.len() as int));
            }
            proof {
                let t = v@.subrange(0, i as int);
                assert(t.len() == 0 || t.last() == '/');
                assert(last_component(t) =~= Seq::<char>::empty());
            }
            Some(string_from_range(&v, i, v.len()))
        },
        None => None,
    }
}

} // verus!
