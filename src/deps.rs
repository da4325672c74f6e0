use vstd::prelude::*;
use crate::archive::opt_view;
use crate::distance::{edit_distance, levenshtein};
use crate::origin::{char_in_class, is_digit, is_word, run_from, run_len, same_text, CharClass};

verus! {

/// The first word of `dep`: the run of non-space characters after any leading spaces.
pub open spec fn stripped_of(dep: Seq<char>) -> Seq<char> {
    let a = run_len(dep, 0, CharClass::Space) as int;
    dep.subrange(a, a + run_len(dep, a, CharClass::NotSpace))
}

/// Keeps the first word of a dependency line.
pub fn strip_dep(dep: &str) -> (r: String)
    ensures
        r@ == stripped_of(dep@),
{
    let n = dep.unicode_len();
    let a = run_from(dep, n, 0, CharClass::Space);
    let b = run_from(dep, n, a, CharClass::NotSpace);
    dep.substring_char(a, a + b).to_owned()
}

/// Dependencies that are dropped.
pub const BLACKLIST_DEP: &'static str = "meson";

/// Renamed dependencies, as (name, replacement).
pub open spec fn replaces() -> Seq<(Seq<char>, Seq<char>)> {
    seq![("valac"@, "vala"@)]
}

/// The table of renamed dependencies.
pub fn make_replaces_dict() -> (r: Vec<(String, String)>)
    ensures
        r@.len() == replaces().len(),
        forall|i: int| 0 <= i < r@.len() ==> (#[trigger] r@[i].0@, r@[i].1@) == replaces()[i],
{
    let r = vec![("valac".to_owned(), "vala".to_owned())];
    assert(forall|i: int| 0 <= i < r@.len() ==> (#[trigger] r@[i].0@, r@[i].1@) == replaces()[i]) by {
        assert(r@[0].0@ == "valac"@);
    }
    r
}

/// `name` renamed by the first entry of `table` that names it, or unchanged.
pub open spec fn renamed(table: Seq<(Seq<char>, Seq<char>)>, name: Seq<char>) -> Seq<char>
    decreases table.len(),
{
    if table.len() == 0 {
        name
    } else if table[0].0 == name {
        table[0].1
    } else {
        renamed(table.drop_first(), name)
    }
}

fn rename(name: String) -> (r: String)
    ensures
        r@ == renamed(replaces(), name@),
{
    let table = make_replaces_dict();
    let mut i: usize = 0;
    assert(replaces().subrange(0, replaces().len() as int) =~= replaces());
    while i < table.len()
        invariant
            0 <= i <= table@.len(),
            table@.len() == replaces().len(),
            forall|k: int| 0 <= k < table@.len() ==> (#[trigger] table@[k].0@, table@[k].1@) == replaces()[k],
            renamed(replaces(), name@) == renamed(replaces().subrange(i as int, replaces().len() as int), name@),
        decreases table@.len() - i,
    {
        let ghost rest = replaces().subrange(i as int, replaces().len() as int);
        assert((table@[i as int].0@, table@[i as int].1@) == replaces()[i as int]);
        assert(rest[0] == replaces()[i as int]);
        if table[i].0 == name {
            return table[i].1.clone();
        }
        assert(rest.drop_first() =~= replaces().subrange(i + 1, replaces().len() as int));
        i += 1;
    }
    assert(replaces().subrange(i as int, replaces().len() as int) =~= Seq::<(Seq<char>, Seq<char>)>::empty());
    name
}

pub open spec fn is_core(c: char) -> bool {
    is_word(c) || c == '-'
}

/// A version tail: nothing, or an optional `-`, a digit, and optionally `.` and a digit.
pub open spec fn version_tail(t: Seq<char>) -> bool {
    ||| t.len() == 0
    ||| t.len() == 1 && is_digit(t[0])
    ||| t.len() == 2 && t[0] == '-' && is_digit(t[1])
    ||| t.len() == 3 && is_digit(t[0]) && t[1] == '.' && is_digit(t[2])
    ||| t.len() == 4 && t[0] == '-' && is_digit(t[1]) && t[2] == '.' && is_digit(t[3])
}

pub open spec fn ends_with_dev(t: Seq<char>) -> bool {
    t.len() >= 4 && t.subrange(t.len() - 4, t.len() as int) == "-dev"@
}

/// What may follow a package's core name: a version tail, then optionally `-dev`.
pub open spec fn tail_ok(t: Seq<char>) -> bool {
    version_tail(t) || (ends_with_dev(t) && version_tail(t.take(t.len() - 4)))
}

/// The end of the shortest core name that starts at `a`, trying ends from `e`
/// on: the core is letters, digits, `_` and `-`, and what follows it must be a
/// version tail.
pub open spec fn core_end(s: Seq<char>, a: int, e: int) -> Option<int>
    decreases s.len() - e,
{
    if !(0 <= a < e <= s.len()) || !is_core(s[e - 1]) {
        None
    } else if tail_ok(s.subrange(e, s.len() as int)) {
        Some(e)
    } else {
        core_end(s, a, e + 1)
    }
}

pub open spec fn starts_with_lib(s: Seq<char>) -> bool {
    s.len() >= 3 && s.take(3) == "lib"@
}

/// The package a dependency name stands for: the core name after an optional
/// `lib`, with `-devel` for a `-dev` package; the name itself when it has no
/// such shape.
pub open spec fn package_of(s: Seq<char>) -> Seq<char> {
    let core = if starts_with_lib(s) && core_end(s, 3, 4) is Some {
        Some(s.subrange(3, core_end(s, 3, 4)->0))
    } else if core_end(s, 0, 1) is Some {
        Some(s.take(core_end(s, 0, 1)->0))
    } else {
        None
    };
    match core {
        Some(c) => if ends_with_dev(s) {
            c + "-devel"@
        } else {
            c
        },
        None => s,
    }
}

/// What a dependency line becomes: `None` when its first word is blacklisted,
/// otherwise that word and the package it stands for (an empty word stays empty).
pub open spec fn translated(dep: Seq<char>) -> Option<(Seq<char>, Seq<char>)> {
    let d = stripped_of(dep);
    if d == BLACKLIST_DEP@ {
        None
    } else if d.len() == 0 {
        Some((d, d))
    } else {
        Some((d, renamed(replaces(), package_of(d))))
    }
}

fn tail_is_version(s: &str, a: usize, b: usize) -> (r: bool)
    requires
        a <= b <= s@.len(),
    ensures
        r == version_tail(s@.subrange(a as int, b as int)),
{
    let len = b - a;
    let t = s.substring_char(a, b);
    if len == 0 {
        true
    } else if len == 1 {
        char_in_class(t.get_char(0), CharClass::Digit)
    } else if len == 2 {
        t.get_char(0) == '-' && char_in_class(t.get_char(1), CharClass::Digit)
    } else if len == 3 {
        char_in_class(t.get_char(0), CharClass::Digit) && t.get_char(1) == '.' && char_in_class(
            t.get_char(2),
            CharClass::Digit,
        )
    } else if len == 4 {
        t.get_char(0) == '-' && char_in_class(t.get_char(1), CharClass::Digit) && t.get_char(2)
            == '.' && char_in_class(t.get_char(3), CharClass::Digit)
    } else {
        false
    }
}

fn has_dev_suffix(s: &str, a: usize, b: usize) -> (r: bool)
    requires
        a <= b <= s@.len(),
    ensures
        r == ends_with_dev(s@.subrange(a as int, b as int)),
{
    if b - a >= 4 {
        let t = s.substring_char(b - 4, b);
        assert(t@ =~= s@.subrange(a as int, b as int).subrange(b - a - 4, b - a));
        same_text(t, "-dev")
    } else {
        false
    }
}

fn tail_fits(s: &str, a: usize, b: usize) -> (r: bool)
    requires
        a <= b <= s@.len(),
    ensures
        r == tail_ok(s@.subrange(a as int, b as int)),
{
    if tail_is_version(s, a, b) {
        true
    } else if has_dev_suffix(s, a, b) {
        assert(s@.subrange(a as int, b as int).take(b - a - 4) =~= s@.subrange(a as int, b - 4));
        tail_is_version(s, a, b - 4)
    } else {
        false
    }
}

fn find_core_end(s: &str, n: usize, a: usize) -> (r: Option<usize>)
    requires
        n == s@.len(),
        a < n,
    ensures
        r matches Some(e) ==> core_end(s@, a as int, a + 1) == Some(e as int) && a < e <= n,
        r is None ==> core_end(s@, a as int, a + 1) is None,
{
    let mut e: usize = a + 1;
    while e <= n
        invariant
            a < e <= n + 1,
            n == s@.len(),
            core_end(s@, a as int, a + 1) == core_end(s@, a as int, e as int),
        decreases n + 1 - e,
    {
        let c = s.get_char(e - 1);
        if !(char_in_class(c, CharClass::Word) || c == '-') {
            return None;
        }
        if tail_fits(s, e, n) {
            return Some(e);
        }
        e += 1;
    }
    None
}

/// The package a dependency name stands for; see `package_of`.
pub fn package_name(s: &str) -> (r: String)
    ensures
        r@ == package_of(s@),
{
    let n = s.unicode_len();
    let lib = n >= 3 && same_text(s.substring_char(0, 3), "lib");
    let mut core: Option<String> = None;
    if lib && n > 3 {
        if let Some(e) = find_core_end(s, n, 3) {
            core = Some(s.substring_char(3, e).to_owned());
        }
    }
    if core.is_none() && n > 0 {
        if let Some(e) = find_core_end(s, n, 0) {
            core = Some(s.substring_char(0, e).to_owned());
        }
    }
    assert(s@.subrange(0, n as int) =~= s@);
    match core {
        Some(c) => {
            if has_dev_suffix(s, 0, n) {
                let mut out = c;
                out.append("-devel");
                out
            } else {
                c
            }
        },
        None => s.to_owned(),
    }
}

/// Reduces a dependency line to its first word and the package it stands for,
/// renamed where the table says so; `None` for a blacklisted dependency.
pub fn filter_and_trans(dep: &str) -> (r: Option<(String, String)>)
    ensures
        match r {
            Some(p) => translated(dep@) == Some((p.0@, p.1@)),
            None => translated(dep@) is None,
        },
{
    let d = strip_dep(dep);
    if same_text(d.as_str(), BLACKLIST_DEP) {
        None
    } else if d.as_str().unicode_len() == 0 {
        let e = d.clone();
        Some((d, e))
    } else {
        let p = rename(package_name(d.as_str()));
        Some((d, p))
    }
}

/// What `console::strip_ansi_codes` leaves of `s`.
pub uninterp spec fn ansi_stripped(s: Seq<char>) -> Seq<char>;

/// Relies on console::strip_ansi_codes: the text with its ANSI escape
/// sequences removed; the result depends on the text alone.
#[verifier::external_body]
fn strip_ansi(s: &str) -> (r: String)
    ensures
        r@ == ansi_stripped(s@),
{
    console::strip_ansi_codes(s).to_string()
}

/// The lines of `s` as `str::lines` splits them.
pub uninterp spec fn lines_of(s: Seq<char>) -> Seq<Seq<char>>;

/// Relies on str::lines: the lines of the text, without their line endings.
#[verifier::external_body]
fn split_lines(s: &str) -> (r: Vec<String>)
    ensures
        r@.map_values(|l: String| l@) == lines_of(s@),
{
    s.lines().map(|l| l.to_string()).collect()
}

/// The package a line of the repository search lists: the line's first word,
/// when spaces and a `-` follow it.
pub open spec fn listed_package(line: Seq<char>) -> Option<Seq<char>> {
    let k = run_len(line, 0, CharClass::NotSpace) as int;
    let w = run_len(line, k, CharClass::Space) as int;
    if k > 0 && w > 0 && k + w < line.len() && line[k + w] == '-' {
        Some(line.take(k))
    } else {
        None
    }
}

/// The package a line of the repository search lists, if any.
pub fn line_package(line: &str) -> (r: Option<String>)
    ensures
        match r {
            Some(p) => listed_package(line@) == Some(p@),
            None => listed_package(line@) is None,
        },
{
    let n = line.unicode_len();
    let k = run_from(line, n, 0, CharClass::NotSpace);
    let w = run_from(line, n, k, CharClass::Space);
    if k > 0 && w > 0 && k + w < n && line.get_char(k + w) == '-' {
        Some(line.substring_char(0, k).to_owned())
    } else {
        None
    }
}

/// Among the first `n` lines, the listed package closest to `dep` by edit
/// distance, as (line index, distance); the earliest one on equal distances.
pub open spec fn closest_upto(lines: Seq<Seq<char>>, dep: Seq<char>, n: nat) -> Option<(int, nat)>
    decreases n,
{
    if n == 0 || n > lines.len() {
        None
    } else {
        let prev = closest_upto(lines, dep, (n - 1) as nat);
        match listed_package(lines[n - 1]) {
            Some(p) => {
                let d = levenshtein(p, dep);
                if prev is None || d < (prev->0).1 {
                    Some(((n - 1) as int, d))
                } else {
                    prev
                }
            },
            None => prev,
        }
    }
}

/// The listed package closest to `dep`, the earliest on equal distances.
pub open spec fn closest_package(lines: Seq<Seq<char>>, dep: Seq<char>) -> Option<Seq<char>> {
    match closest_upto(lines, dep, lines.len()) {
        Some((i, _)) => listed_package(lines[i]),
        None => None,
    }
}

/// The package listed in `lines` whose name is closest to `dep`; lines that
/// list no package are passed over.
pub fn best_package(lines: &Vec<String>, dep: &str) -> (r: Option<String>)
    ensures
        opt_view(r) == closest_package(lines@.map_values(|l: String| l@), dep@),
{
    let ghost lv = lines@.map_values(|l: String| l@);
    let mut best: Option<(usize, usize, String)> = None;
    let mut i: usize = 0;
    while i < lines.len()
        invariant
            0 <= i <= lines@.len(),
            lv == lines@.map_values(|l: String| l@),
            match best {
                None => closest_upto(lv, dep@, i as nat) is None,
                Some((k, d, p)) => closest_upto(lv, dep@, i as nat) == Some((k as int, d as nat)) && k < i
                    && listed_package(lv[k as int]) == Some(p@),
            },
        decreases lines@.len() - i,
    {
        assert(lv[i as int] == lines@[i as int]@);
        match line_package(lines[i].as_str()) {
            Some(p) => {
                let d = edit_distance(p.as_str(), dep);
                let closer = match &best {
                    None => true,
                    Some((_, bd, _)) => d < *bd,
                };
                if closer {
                    best = Some((i, d, p));
                }
            },
            None => {},
        }
        i += 1;
    }
    match best {
        Some((_, _, p)) => Some(p),
        None => None,
    }
}

/// The package that the repository search output `output` offers for `dep`:
/// ANSI codes are removed, the output is split into lines, and the closest
/// listed package is taken.
pub fn search_output_best(output: &str, dep: &str) -> (r: Option<String>)
    ensures
        opt_view(r) == closest_package(lines_of(ansi_stripped(output@)), dep@),
{
    let text = strip_ansi(output);
    let lines = split_lines(text.as_str());
    best_package(&lines, dep)
}

/// The name to record for `dep`: the package the repository search found, or
/// `dep` marked as not found.
pub fn try_search_dep(dep: String, found: Option<String>) -> (r: String)
    ensures
        r@ == match found {
            Some(p) => p@,
            None => dep@ + " (not found in repos)"@,
        },
{
    match found {
        Some(p) => p,
        None => {
            let mut out = dep;
            out.append(" (not found in repos)");
            out
        },
    }
}

/// The packages that dependency lines stand for, blacklisted lines left out.
pub open spec fn translated_lines(lines: Seq<Seq<char>>) -> Seq<Seq<char>>
    decreases lines.len(),
{
    if lines.len() == 0 {
        Seq::empty()
    } else {
        let prev = translated_lines(lines.drop_last());
        match translated(lines.last()) {
            Some((_, p)) => prev.push(p),
            None => prev,
        }
    }
}

/// Translates each line of a dependency list to the package it stands for,
/// leaving blacklisted dependencies out.
pub fn translate_deps(text: &str) -> (r: Vec<String>)
    ensures
        r@.map_values(|s: String| s@) == translated_lines(lines_of(text@)),
{
    let lines = split_lines(text);
    translate_dep_lines(&lines)
}

/// Translates each dependency line to the package it stands for, leaving
/// blacklisted dependencies out.
pub fn translate_dep_lines(lines: &Vec<String>) -> (r: Vec<String>)
    ensures
        r@.map_values(|s: String| s@) == translated_lines(lines@.map_values(|l: String| l@)),
{
    let ghost lv = lines@.map_values(|l: String| l@);
    let mut out: Vec<String> = Vec::new();
    let mut i: usize = 0;
    while i < lines.len()
        invariant
            0 <= i <= lines@.len(),
            lv == lines@.map_values(|l: String| l@),
            out@.map_values(|s: String| s@) == translated_lines(lv.take(i as int)),
        decreases lines@.len() - i,
    {
        assert(lv.take(i + 1).drop_last() =~= lv.take(i as int));
        assert(lv.take(i + 1).last() == lines@[i as int]@);
        match filter_and_trans(lines[i].as_str()) {
            Some((_, p)) => {
                out.push(p);
            },
            None => {},
        }
        assert(out@.map_values(|s: String| s@) =~= translated_lines(lv.take(i + 1)));
        i += 1;
    }
    assert(lv.take(lines@.len() as int) =~= lv);
    out
}

} // verus!
