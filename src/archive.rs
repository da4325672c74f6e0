use vstd::prelude::*;
use std::io::Cursor;
use zip::read::ZipArchive;
use zip::result::ZipError;
use crate::license::{guess_license_str, license_of, trimmed_of};

verus! {

/// std::io::Cursor, the in-memory reader an archive is read through; opaque here.
#[verifier::external_type_specification]
#[verifier::external_body]
#[verifier::reject_recursive_types(T)]
pub struct ExCursor<T>(Cursor<T>);

/// zip::read::ZipArchive, an opened zip archive; opaque here, its contents are
/// spoken of through `zip_entries` and `zip_texts`.
#[verifier::external_type_specification]
#[verifier::external_body]
#[verifier::reject_recursive_types(R)]
pub struct ExZipArchive<R>(ZipArchive<R>);

/// zip::result::ZipError, why an archive could not be opened; opaque here.
#[verifier::external_type_specification]
#[verifier::external_body]
pub struct ExZipError(ZipError);

/// An archive read from bytes held in memory.
pub type MemArchive = ZipArchive<Cursor<Vec<u8>>>;

/// What an archive holds, entry by entry in the archive's own order: the entry's
/// full name when the entry can be opened, `None` when it cannot.
pub uninterp spec fn zip_entries(a: MemArchive) -> Seq<Option<Seq<char>>>;

/// What an archive holds, entry by entry: the entry's content as text when the
/// entry can be opened and its content is UTF-8, `None` otherwise.
pub uninterp spec fn zip_texts(a: MemArchive) -> Seq<Option<Seq<char>>>;

/// What `str::to_lowercase` makes of `s`.
pub uninterp spec fn lower_of(s: Seq<char>) -> Seq<char>;

/// Relies on str::to_lowercase: the result depends on the characters alone.
#[verifier::external_body]
fn to_lower(s: &str) -> (r: String)
    ensures
        r@ == lower_of(s@),
{
    s.to_lowercase()
}

/// The entries that `bytes` hold when read as a zip archive (as `zip_entries`
/// gives them), `None` when the bytes do not open as an archive.
pub uninterp spec fn zip_entries_of(bytes: Seq<u8>) -> Option<Seq<Option<Seq<char>>>>;

/// The entries' texts that `bytes` hold when read as a zip archive (as
/// `zip_texts` gives them), `None` when the bytes do not open as an archive.
pub uninterp spec fn zip_texts_of(bytes: Seq<u8>) -> Option<Seq<Option<Seq<char>>>>;

/// Relies on zip::read::ZipArchive::new, which reads the central directory of
/// the bytes and fails on bytes that are not a zip archive (offsets that would
/// overflow included: they are added with `checked_add`). What the opened
/// archive holds depends on the bytes alone.
#[verifier::external_body]
fn zip_open(bytes: Vec<u8>) -> (r: Result<MemArchive, ZipError>)
    ensures
        r is Ok <==> zip_entries_of(bytes@) is Some,
        r is Ok <==> zip_texts_of(bytes@) is Some,
        r matches Ok(a) ==> Some(zip_entries(a)) == zip_entries_of(bytes@) && Some(zip_texts(a))
            == zip_texts_of(bytes@),
{
    ZipArchive::new(Cursor::new(bytes))
}

/// Relies on zip::read::ZipArchive::len: the number of entries.
#[verifier::external_body]
fn zip_len(a: &MemArchive) -> (r: usize)
    ensures
        r == zip_entries(*a).len(),
        r == zip_texts(*a).len(),
{
    a.len()
}

/// Relies on zip::read::ZipArchive::by_index and zip::read::ZipFile::name: the
/// name of entry `i`, or `None` when that entry cannot be opened. Reading moves
/// only the underlying cursor, so the entries stay as they were.
#[verifier::external_body]
fn zip_entry_name(a: &mut MemArchive, i: usize) -> (r: Option<String>)
    requires
        i < zip_entries(*old(a)).len(),
    ensures
        zip_entries(*final(a)) == zip_entries(*old(a)),
        zip_texts(*final(a)) == zip_texts(*old(a)),
        r matches Some(n) ==> zip_entries(*old(a))[i as int] == Some(n@),
        r is None ==> zip_entries(*old(a))[i as int] is None,
{
    match a.by_index(i) {
        Ok(file) => Some(file.name().to_string()),
        Err(_) => None,
    }
}

/// Relies on zip::read::ZipArchive::by_index and std::io::Read::read_to_string:
/// the content of entry `i` as text, or `None` when the entry cannot be opened
/// or is not UTF-8. Reading moves only the underlying cursor, so what the
/// archive holds stays as it was.
#[verifier::external_body]
fn zip_entry_text(a: &mut MemArchive, i: usize) -> (r: Option<String>)
    requires
        i < zip_texts(*old(a)).len(),
    ensures
        zip_entries(*final(a)) == zip_entries(*old(a)),
        zip_texts(*final(a)) == zip_texts(*old(a)),
        r matches Some(t) ==> zip_texts(*old(a))[i as int] == Some(t@),
        r is None ==> zip_texts(*old(a))[i as int] is None,
{
    let mut text = String::new();
    match a.by_index(i) {
        Ok(mut file) => match std::io::Read::read_to_string(&mut file, &mut text) {
            Ok(_) => Some(text),
            Err(_) => None,
        },
        Err(_) => None,
    }
}

/// The last component of a `/`-separated path: what follows its last `/`.
pub open spec fn base_name_of(p: Seq<char>) -> Seq<char>
    decreases p.len(),
{
    if p.len() == 0 {
        p
    } else if p.last() == '/' {
        Seq::empty()
    } else {
        base_name_of(p.drop_last()).push(p.last())
    }
}

/// The key an entry is matched by: its base name, lower-cased.
pub open spec fn entry_key(e: Option<Seq<char>>) -> Option<Seq<char>> {
    match e {
        Some(n) => Some(lower_of(base_name_of(n))),
        None => None,
    }
}

/// The characters of an optional string.
pub open spec fn opt_view(o: Option<String>) -> Option<Seq<char>> {
    match o {
        Some(s) => Some(s@),
        None => None,
    }
}

/// A key is found when it is present and equal to one of the candidates.
pub open spec fn key_found(key: Option<Seq<char>>, cands: Seq<Seq<char>>) -> bool {
    key matches Some(k) && cands.contains(k)
}

/// `r` is the lowest index whose key is found among `cands`, or `None` when no key is.
pub open spec fn is_first_found(keys: Seq<Option<Seq<char>>>, cands: Seq<Seq<char>>, r: Option<usize>) -> bool {
    match r {
        Some(i) => i < keys.len() && key_found(keys[i as int], cands) && forall|k: int|
            0 <= k < i ==> !key_found(#[trigger] keys[k], cands),
        None => forall|k: int| 0 <= k < keys.len() ==> !key_found(#[trigger] keys[k], cands),
    }
}

/// The lowest index from `k` on whose key is found among `cands`.
pub open spec fn first_from(keys: Seq<Option<Seq<char>>>, cands: Seq<Seq<char>>, k: int) -> Option<int>
    decreases keys.len() - k,
{
    if k < 0 || k >= keys.len() {
        None
    } else if key_found(keys[k], cands) {
        Some(k)
    } else {
        first_from(keys, cands, k + 1)
    }
}

pub open spec fn opt_int(o: Option<usize>) -> Option<int> {
    match o {
        Some(k) => Some(k as int),
        None => None,
    }
}

/// The candidate names as they are compared: lower-cased.
pub open spec fn candidate_keys(names: Seq<&str>) -> Seq<Seq<char>> {
    names.map_values(|s: &str| lower_of(s@))
}

/// The entries' keys, in the archive's order.
pub open spec fn archive_keys(a: MemArchive) -> Seq<Option<Seq<char>>> {
    zip_entries(a).map_values(|e: Option<Seq<char>>| entry_key(e))
}

proof fn lemma_base_name_step(p: Seq<char>, start: int)
    requires
        0 < start <= p.len(),
        p[start - 1] != '/',
    ensures
        base_name_of(p.take(start)) == base_name_of(p.take(start - 1)).push(p[start - 1]),
{
    assert(p.take(start).drop_last() =~= p.take(start - 1));
}

/// The last component of `path`: what follows its last `/`, or all of it.
pub fn base_name(path: &str) -> (r: String)
    ensures
        r@ == base_name_of(path@),
{
    let n = path.unicode_len();
    let mut start: usize = n;
    assert(path@.take(n as int) =~= path@);
    assert(path@.subrange(n as int, n as int) =~= Seq::<char>::empty());
    while start > 0 && path.get_char(start - 1) != '/'
        invariant
            0 <= start <= n,
            n == path@.len(),
            base_name_of(path@) == base_name_of(path@.take(start as int)) + path@.subrange(
                start as int,
                n as int,
            ),
        decreases start,
    {
        proof {
            lemma_base_name_step(path@, start as int);
            assert(base_name_of(path@.take(start - 1)).push(path@[start - 1]) + path@.subrange(
                start as int,
                n as int,
            ) =~= base_name_of(path@.take(start - 1)) + path@.subrange(start - 1, n as int));
        }
        start -= 1;
    }
    proof {
        if start > 0 {
            assert(path@.take(start as int).last() == '/');
        }
        assert(base_name_of(path@.take(start as int)) =~= Seq::<char>::empty());
        assert(base_name_of(path@) =~= path@.subrange(start as int, n as int));
    }
    path.substring_char(start, n).to_owned()
}

/// The lowest index whose key equals one of `cands`, or `None` when no key does.
pub fn first_matching_key(keys: &Vec<Option<String>>, cands: &Vec<String>) -> (r: Option<usize>)
    ensures
        is_first_found(keys@.map_values(|k: Option<String>| opt_view(k)), cands@.map_values(|s: String| s@), r),
        opt_int(r) == first_from(keys@.map_values(|k: Option<String>| opt_view(k)), cands@.map_values(|s: String| s@), 0),
{
    let ghost kv = keys@.map_values(|k: Option<String>| opt_view(k));
    let ghost cv = cands@.map_values(|s: String| s@);
    let mut i: usize = 0;
    while i < keys.len()
        invariant
            0 <= i <= keys@.len(),
            kv == keys@.map_values(|k: Option<String>| opt_view(k)),
            cv == cands@.map_values(|s: String| s@),
            forall|k: int| 0 <= k < i ==> !key_found(#[trigger] kv[k], cv),
            first_from(kv, cv, 0) == first_from(kv, cv, i as int),
        decreases keys@.len() - i,
    {
        if let Some(key) = &keys[i] {
            let mut j: usize = 0;
            while j < cands.len()
                invariant
                    0 <= j <= cands@.len(),
                    0 <= i < keys@.len(),
                    kv == keys@.map_values(|k: Option<String>| opt_view(k)),
                    forall|k: int| 0 <= k < i ==> !key_found(#[trigger] kv[k], cv),
                    first_from(kv, cv, 0) == first_from(kv, cv, i as int),
                    cv == cands@.map_values(|s: String| s@),
                    kv[i as int] == Some(key@),
                    forall|m: int| 0 <= m < j ==> cv[m] != key@,
                decreases cands@.len() - j,
            {
                if *key == cands[j] {
                    assert(cv[j as int] == key@);
                    assert(key_found(kv[i as int], cv));
                    return Some(i);
                }
                j += 1;
            }
            assert(!key_found(kv[i as int], cv)) by {
                if cv.contains(key@) {
                    let m = choose|m: int| 0 <= m < cv.len() && cv[m] == key@;
                    assert(cv[m] != key@);
                }
            }
        }
        i += 1;
    }
    None
}

/// Finds the first entry, in the archive's order, whose base name equals one
/// of `names` when both are lower-cased.
pub fn search_like(a: &mut MemArchive, names: &[&str]) -> (r: Option<usize>)
    ensures
        zip_entries(*final(a)) == zip_entries(*old(a)),
        zip_texts(*final(a)) == zip_texts(*old(a)),
        is_first_found(archive_keys(*old(a)), candidate_keys(names@), r),
        opt_int(r) == first_from(archive_keys(*old(a)), candidate_keys(names@), 0),
{
    let mut cands: Vec<String> = Vec::new();
    let mut j: usize = 0;
    while j < names.len()
        invariant
            0 <= j <= names@.len(),
            cands@.len() == j,
            forall|m: int| 0 <= m < j ==> (#[trigger] cands@[m])@ == lower_of(names@[m]@),
        decreases names@.len() - j,
    {
        cands.push(to_lower(names[j]));
        j += 1;
    }
    let n = zip_len(a);
    let ghost a0 = *a;
    let ghost entries = zip_entries(*a);
    let ghost texts = zip_texts(*a);
    let mut keys: Vec<Option<String>> = Vec::new();
    let mut i: usize = 0;
    while i < n
        invariant
            0 <= i <= n,
            n == entries.len(),
            zip_entries(*a) == entries,
            zip_texts(*a) == texts,
            keys@.len() == i,
            forall|k: int| 0 <= k < i ==> opt_view(#[trigger] keys@[k]) == entry_key(entries[k]),
        decreases n - i,
    {
        let key = match zip_entry_name(a, i) {
            Some(name) => Some(to_lower(&base_name(&name))),
            None => None,
        };
        keys.push(key);
        i += 1;
    }
    assert(keys@.map_values(|k: Option<String>| opt_view(k)) =~= archive_keys(a0));
    assert(cands@.map_values(|s: String| s@) =~= candidate_keys(names@));
    first_matching_key(&keys, &cands)
}

/// Whether some key is found among `cands`.
pub open spec fn has_found(keys: Seq<Option<Seq<char>>>, cands: Seq<Seq<char>>) -> bool {
    exists|k: int| 0 <= k < keys.len() && key_found(#[trigger] keys[k], cands)
}

proof fn lemma_first_from_some(keys: Seq<Option<Seq<char>>>, cands: Seq<Seq<char>>, k: int)
    requires
        0 <= k <= keys.len(),
    ensures
        (first_from(keys, cands, k) is Some) <==> (exists|j: int|
            k <= j < keys.len() && key_found(#[trigger] keys[j], cands)),
    decreases keys.len() - k,
{
    if k < keys.len() {
        lemma_first_from_some(keys, cands, k + 1);
    }
}

/// Why an archive could not be read.
#[derive(PartialEq, Eq, Structural, Clone, Copy, Debug)]
pub enum ArchiveError {
    /// The bytes are not a readable zip archive.
    CorruptArchive,
}

/// Opens the zip archive held in `bytes`; fails with `CorruptArchive` exactly
/// when the bytes are not a readable zip archive.
pub fn open_archive(bytes: Vec<u8>) -> (r: Result<MemArchive, ArchiveError>)
    ensures
        r is Err <==> zip_entries_of(bytes@) is None,
        r is Err <==> zip_texts_of(bytes@) is None,
        r matches Ok(a) ==> Some(zip_entries(a)) == zip_entries_of(bytes@) && Some(zip_texts(a))
            == zip_texts_of(bytes@),
        r matches Err(e) ==> e == ArchiveError::CorruptArchive,
{
    match zip_open(bytes) {
        Ok(a) => Ok(a),
        Err(_) => Err(ArchiveError::CorruptArchive),
    }
}

/// Names of the files that hold a project's license text.
pub open spec fn license_file_names() -> Seq<&'static str> {
    seq![LICENSE_FILE, COPYING_FILE]
}

pub const LICENSE_FILE: &'static str = "license";

pub const COPYING_FILE: &'static str = "copying";

/// An archive whose entries can be looked up by name and read as text.
pub trait Archive: Sized {
    /// Each entry's key, in the archive's order: its base name lower-cased,
    /// `None` when the entry cannot be opened.
    spec fn keys(&self) -> Seq<Option<Seq<char>>>;

    /// Each entry's content as text, `None` when it cannot be read as text.
    spec fn texts(&self) -> Seq<Option<Seq<char>>>;

    /// The first entry whose key equals one of `names` lower-cased.
    fn find_like(&mut self, names: &[&str]) -> (r: Option<usize>)
        ensures
            final(self).keys() == old(self).keys(),
            final(self).texts() == old(self).texts(),
            opt_int(r) == first_from(old(self).keys(), candidate_keys(names@), 0),
    ;

    /// The content of entry `i` as text; `None` when there is no entry `i`
    /// or it is not text.
    fn entry_text(&mut self, i: usize) -> (r: Option<String>)
        ensures
            final(self).keys() == old(self).keys(),
            final(self).texts() == old(self).texts(),
            opt_view(r) == (if i < old(self).texts().len() {
                old(self).texts()[i as int]
            } else {
                None
            }),
    ;
}

impl Archive for MemArchive {
    open spec fn keys(&self) -> Seq<Option<Seq<char>>> {
        archive_keys(*self)
    }

    open spec fn texts(&self) -> Seq<Option<Seq<char>>> {
        zip_texts(*self)
    }

    fn find_like(&mut self, names: &[&str]) -> (r: Option<usize>) {
        search_like(self, names)
    }

    fn entry_text(&mut self, i: usize) -> (r: Option<String>) {
        if i >= zip_len(self) {
            return None;
        }
        zip_entry_text(self, i)
    }
}

/// The license recognised in the text of entry `i`, `None` when there is no
/// such entry or its content is not text.
pub open spec fn license_in(texts: Seq<Option<Seq<char>>>, i: int) -> Option<Seq<char>> {
    if 0 <= i < texts.len() {
        match texts[i] {
            Some(t) => Some(license_of(trimmed_of(t))),
            None => None,
        }
    } else {
        None
    }
}

/// Reads entry `i` of the archive as text and identifies its license; `None`
/// when there is no entry `i` or it cannot be read as text.
pub fn guess_license_from_archive_file<A: Archive>(a: &mut A, i: usize) -> (r: Option<String>)
    ensures
        final(a).keys() == old(a).keys(),
        final(a).texts() == old(a).texts(),
        opt_view(r) == license_in(old(a).texts(), i as int),
{
    match a.entry_text(i) {
        Some(text) => Some(guess_license_str(&text)),
        None => None,
    }
}

/// Identifies the license of the first entry named like a license file
/// (`license` or `copying`, in any case); `None` when there is no such entry or
/// it cannot be read as text.
pub fn guess_license_from_archive<A: Archive>(a: &mut A) -> (r: Option<String>)
    ensures
        final(a).keys() == old(a).keys(),
        final(a).texts() == old(a).texts(),
        opt_view(r) == match first_from(old(a).keys(), candidate_keys(license_file_names()), 0) {
            Some(i) => license_in(old(a).texts(), i),
            None => None,
        },
        !has_found(old(a).keys(), candidate_keys(license_file_names())) ==> r is None,
{
    proof {
        lemma_first_from_some(a.keys(), candidate_keys(license_file_names()), 0);
    }
    let names = vec![LICENSE_FILE, COPYING_FILE];
    assert(names@ == license_file_names());
    match a.find_like(names.as_slice()) {
        Some(i) => guess_license_from_archive_file(a, i),
        None => None,
    }
}

/// License and build system found among entries `es` with texts `ts`: the
/// license of the first license file, and the build system its markers show.
pub open spec fn archive_facts(es: Seq<Option<Seq<char>>>, ts: Seq<Option<Seq<char>>>) -> (
    Option<Seq<char>>,
    Option<Seq<char>>,
) {
    let keys = es.map_values(|e: Option<Seq<char>>| entry_key(e));
    (
        match first_from(keys, candidate_keys(license_file_names()), 0) {
            Some(i) => license_in(ts, i),
            None => None,
        },
        detect_build_system(keys),
    )
}

/// License and build system found in `bytes` read as a zip archive; nothing
/// when they do not open as one.
pub open spec fn facts_of_bytes(bytes: Seq<u8>) -> (Option<Seq<char>>, Option<Seq<char>>) {
    match (zip_entries_of(bytes), zip_texts_of(bytes)) {
        (Some(es), Some(ts)) => archive_facts(es, ts),
        _ => (None, None),
    }
}

/// Opens `bytes` as a zip archive and finds its license and build system;
/// nothing when the bytes do not open as an archive.
pub fn inspect_archive(bytes: Vec<u8>) -> (r: (Option<String>, Option<String>))
    ensures
        (opt_view(r.0), opt_view(r.1)) == facts_of_bytes(bytes@),
{
    match open_archive(bytes) {
        Ok(mut a) => {
            let license = guess_license_from_archive(&mut a);
            let build = guess_build_sys_from_zip(&mut a);
            (license, build)
        },
        Err(_) => (None, None),
    }
}

pub const MESON_MARKER: &'static str = "meson.build";

pub const CONFIGURE_MARKER: &'static str = "configure";

pub const CMAKE_MARKER: &'static str = "cmakelists.txt";

pub const MESON: &'static str = "Meson";

pub const CONFIGURE_MAKE: &'static str = "Configure & Make";

pub const CMAKE_MAKE: &'static str = "CMake & Make";

pub const CMAKE_NINJA: &'static str = "CMake & Ninja";

/// The build system that an archive's entries reveal, by marker file in this
/// order of priority: Meson, then a `configure` script, then CMake.
pub open spec fn detect_build_system(keys: Seq<Option<Seq<char>>>) -> Option<Seq<char>> {
    if has_found(keys, candidate_keys(seq![MESON_MARKER])) {
        Some(MESON@)
    } else if has_found(keys, candidate_keys(seq![CONFIGURE_MARKER])) {
        Some(CONFIGURE_MAKE@)
    } else if has_found(keys, candidate_keys(seq![CMAKE_MARKER])) {
        Some(CMAKE_MAKE@)
    } else {
        None
    }
}

fn has_marker<A: Archive>(a: &mut A, marker: &'static str) -> (r: bool)
    ensures
        final(a).keys() == old(a).keys(),
        final(a).texts() == old(a).texts(),
        r == has_found(old(a).keys(), candidate_keys(seq![marker])),
{
    let names = vec![marker];
    assert(names@ == seq![marker]);
    proof {
        lemma_first_from_some(a.keys(), candidate_keys(seq![marker]), 0);
    }
    a.find_like(names.as_slice()).is_some()
}

/// Detects the archive's build system from its marker files.
pub fn guess_build_sys_from_zip<A: Archive>(a: &mut A) -> (r: Option<String>)
    ensures
        final(a).keys() == old(a).keys(),
        final(a).texts() == old(a).texts(),
        opt_view(r) == detect_build_system(old(a).keys()),
{
    if has_marker(a, MESON_MARKER) {
        Some(MESON.to_owned())
    } else if has_marker(a, CONFIGURE_MARKER) {
        Some(CONFIGURE_MAKE.to_owned())
    } else if has_marker(a, CMAKE_MARKER) {
        Some(CMAKE_MAKE.to_owned())
    } else {
        None
    }
}

/// With a Meson descriptor present the build system is Meson, whatever other
/// markers the archive holds.
pub proof fn lemma_meson_has_priority(keys: Seq<Option<Seq<char>>>)
    requires
        has_found(keys, candidate_keys(seq![MESON_MARKER])),
    ensures
        detect_build_system(keys) == Some(MESON@),
{
}

} // verus!
