use vstd::prelude::*;

verus! {

/// The path segments of `s` read as a URL: `None` when `s` is not a URL that
/// has a path.
pub uninterp spec fn path_segments_of(s: Seq<char>) -> Option<Seq<Seq<char>>>;

/// The host of `s` read as a URL: `None` when `s` is not a URL or has no host.
pub uninterp spec fn host_of(s: Seq<char>) -> Option<Seq<char>>;

pub open spec fn strings_view(v: Seq<String>) -> Seq<Seq<char>> {
    v.map_values(|x: String| x@)
}

/// Relies on url::Url::parse and url::Url::path_segments: the percent-encoded
/// path segments of a URL that has a path, `None` otherwise.
#[verifier::external_body]
fn url_path_segments(s: &str) -> (r: Option<Vec<String>>)
    ensures
        r matches Some(v) ==> path_segments_of(s@) == Some(strings_view(v@)),
        r is None ==> path_segments_of(s@) is None,
{
    url::Url::parse(s).ok().and_then(|u| u.path_segments().map(|it| it.map(|x| x.to_string()).collect()))
}

/// Relies on url::Url::parse and url::Url::host_str: the host of a URL that has one.
#[verifier::external_body]
fn url_host(s: &str) -> (r: Option<String>)
    ensures
        r matches Some(h) ==> host_of(s@) == Some(h@),
        r is None ==> host_of(s@) is None,
{
    url::Url::parse(s).ok().and_then(|u| u.host_str().map(|h| h.to_string()))
}

/// Why no package facts can be derived from a source URL.
#[derive(PartialEq, Eq, Structural, Clone, Copy, Debug)]
pub enum OriginError {
    /// The text is not a URL with a path.
    InvalidUrl,
}

/// The kind of archive a URL names.
#[derive(PartialEq, Eq, Structural, Clone, Copy, Debug)]
pub enum ArchiveKind {
    Zip,
    Other,
}

/// What a source URL points at.
#[derive(PartialEq, Eq, Structural, Clone, Copy, Debug)]
pub enum UrlKind {
    VersionControlled,
    Archive(ArchiveKind),
}

/// Index of the last `c` in `s`.
pub open spec fn last_index(s: Seq<char>, c: char) -> Option<int>
    decreases s.len(),
{
    if s.len() == 0 {
        None
    } else if s.last() == c {
        Some(s.len() - 1)
    } else {
        last_index(s.drop_last(), c)
    }
}

/// The extension of a file name: what follows its last `.`, unless that dot
/// is the name's first character.
pub open spec fn extension_of(name: Seq<char>) -> Option<Seq<char>> {
    match last_index(name, '.') {
        Some(k) => if k > 0 {
            Some(name.subrange(k + 1, name.len() as int))
        } else {
            None
        },
        None => None,
    }
}

/// The kind of source named by the last path segment of its URL.
pub open spec fn kind_of_name(last: Seq<char>) -> UrlKind {
    match extension_of(last) {
        Some(e) => if e == "zip"@ {
            UrlKind::Archive(ArchiveKind::Zip)
        } else if e == "git"@ {
            UrlKind::VersionControlled
        } else {
            UrlKind::Archive(ArchiveKind::Other)
        },
        None => UrlKind::VersionControlled,
    }
}

/// The last element of a path, or the empty text for an empty path.
pub open spec fn last_segment(segs: Seq<Seq<char>>) -> Seq<char> {
    if segs.len() == 0 {
        Seq::empty()
    } else {
        segs.last()
    }
}

/// The kind of source a URL names, or `None` for a text that is not a URL with a path.
pub open spec fn url_kind_of(url: Seq<char>) -> Option<UrlKind> {
    match path_segments_of(url) {
        Some(segs) => Some(kind_of_name(last_segment(segs))),
        None => None,
    }
}

/// Index of the last `c` in `s`.
fn find_last(s: &str, c: char) -> (r: Option<usize>)
    ensures
        opt_int(r) == last_index(s@, c),
        r matches Some(k) ==> k < s@.len(),
{
    let n = s.unicode_len();
    let mut i: usize = n;
    assert(s@.take(n as int) =~= s@);
    while i > 0 && s.get_char(i - 1) != c
        invariant
            0 <= i <= n,
            n == s@.len(),
            last_index(s@, c) == last_index(s@.take(i as int), c),
        decreases i,
    {
        assert(s@.take(i as int).drop_last() =~= s@.take(i - 1));
        i -= 1;
    }
    if i == 0 {
        None
    } else {
        Some(i - 1)
    }
}

pub open spec fn opt_int(o: Option<usize>) -> Option<int> {
    match o {
        Some(k) => Some(k as int),
        None => None,
    }
}

/// Whether two texts hold the same characters.
pub(crate) fn same_text(a: &str, b: &str) -> (r: bool)
    ensures
        r == (a@ == b@),
{
    a.to_owned() == b.to_owned()
}

/// Classifies a file name by its extension: `.zip` is a zip archive, `.git`
/// or no extension a version-controlled repository, anything else another
/// archive.
pub fn kind_of_file_name(last: &str) -> (r: UrlKind)
    ensures
        r == kind_of_name(last@),
{
    let n = last.unicode_len();
    match find_last(last, '.') {
        Some(k) => {
            if k > 0 {
                let ext = last.substring_char(k + 1, n);
                if same_text(ext, "zip") {
                    UrlKind::Archive(ArchiveKind::Zip)
                } else if same_text(ext, "git") {
                    UrlKind::VersionControlled
                } else {
                    UrlKind::Archive(ArchiveKind::Other)
                }
            } else {
                UrlKind::VersionControlled
            }
        },
        None => UrlKind::VersionControlled,
    }
}

/// Classifies a source URL by the extension of its last path segment.
pub fn url_kind_analyze(url: &str) -> (r: Result<UrlKind, OriginError>)
    ensures
        r matches Ok(k) ==> url_kind_of(url@) == Some(k),
        r is Err ==> url_kind_of(url@) is None && r == Err::<UrlKind, OriginError>(OriginError::InvalidUrl),
{
    match url_path_segments(url) {
        Some(segs) => {
            if segs.len() == 0 {
                proof {
                    reveal_strlit("");
                }
                assert(last_segment(strings_view(segs@)) =~= ""@);
                Ok(kind_of_file_name(""))
            } else {
                let last = &segs[segs.len() - 1];
                assert(last_segment(strings_view(segs@)) == last@);
                Ok(kind_of_file_name(last.as_str()))
            }
        },
        None => Err(OriginError::InvalidUrl),
    }
}

proof fn lemma_last_index_absent(s: Seq<char>, c: char)
    requires
        !s.contains(c),
    ensures
        last_index(s, c) is None,
    decreases s.len(),
{
    if s.len() > 0 {
        assert(s.drop_last().contains(c) ==> s.contains(c)) by {
            if s.drop_last().contains(c) {
                let i = choose|i: int| 0 <= i < s.drop_last().len() && s.drop_last()[i] == c;
                assert(s[i] == c);
            }
        }
        assert(s[s.len() - 1] != c);
        lemma_last_index_absent(s.drop_last(), c);
    }
}

proof fn lemma_last_index_after(s: Seq<char>, t: Seq<char>, c: char)
    requires
        !t.contains(c),
        s.len() > 0,
        s.last() == c,
    ensures
        last_index(s + t, c) == Some(s.len() - 1),
    decreases t.len(),
{
    if t.len() == 0 {
        assert(s + t =~= s);
    } else {
        assert((s + t).drop_last() =~= s + t.drop_last());
        assert(t[t.len() - 1] != c);
        assert(!t.drop_last().contains(c)) by {
            if t.drop_last().contains(c) {
                let i = choose|i: int| 0 <= i < t.drop_last().len() && t.drop_last()[i] == c;
                assert(t[i] == c);
            }
        }
        lemma_last_index_after(s, t.drop_last(), c);
    }
}

/// A file name without a dot has no extension; one made of a non-empty stem,
/// a dot and a dot-free `ext` has the extension `ext`.
pub proof fn lemma_extension(stem: Seq<char>, ext: Seq<char>)
    requires
        stem.len() > 0,
        !ext.contains('.'),
    ensures
        !stem.contains('.') ==> extension_of(stem) is None,
        extension_of(stem + seq!['.'] + ext) == Some(ext),
{
    if !stem.contains('.') {
        lemma_last_index_absent(stem, '.');
    }
    let s = stem + seq!['.'];
    lemma_last_index_after(s, ext, '.');
    assert((s + ext).subrange(s.len() as int, (s + ext).len() as int) =~= ext);
}

/// A name ending in `.git`, or with no dot at all, names a version-controlled
/// repository; one ending in `.zip` names a zip archive.
pub proof fn lemma_kind_by_suffix(stem: Seq<char>)
    requires
        stem.len() > 0,
    ensures
        kind_of_name(stem + ".git"@) == UrlKind::VersionControlled,
        kind_of_name(stem + ".zip"@) == UrlKind::Archive(ArchiveKind::Zip),
        !stem.contains('.') ==> kind_of_name(stem) == UrlKind::VersionControlled,
{
    reveal_strlit(".git");
    reveal_strlit(".zip");
    reveal_strlit("git");
    reveal_strlit("zip");
    assert(!"git"@.contains('.'));
    assert(!"zip"@.contains('.'));
    lemma_extension(stem, "git"@);
    lemma_extension(stem, "zip"@);
    assert(stem + seq!['.'] + "git"@ =~= stem + ".git"@);
    assert(stem + seq!['.'] + "zip"@ =~= stem + ".zip"@);
    assert("git"@ != "zip"@) by {
        assert("git"@[0] != "zip"@[0]);
    }
}

pub open spec fn is_digit(c: char) -> bool {
    '0' <= c && c <= '9'
}

/// ASCII letters, digits and `_`.
pub open spec fn is_word(c: char) -> bool {
    is_digit(c) || ('a' <= c && c <= 'z') || ('A' <= c && c <= 'Z') || c == '_'
}

pub open spec fn is_space(c: char) -> bool {
    c == ' ' || c == '\t' || c == '\n' || c == '\r'
}

/// The class of characters a run is made of.
#[derive(PartialEq, Eq, Structural, Clone, Copy, Debug)]
pub enum CharClass {
    Digit,
    Word,
    Space,
    NotSpace,
}

pub open spec fn in_class(c: char, class: CharClass) -> bool {
    match class {
        CharClass::Digit => is_digit(c),
        CharClass::Word => is_word(c),
        CharClass::Space => is_space(c),
        CharClass::NotSpace => !is_space(c),
    }
}

/// Length of the run of `class` characters of `w` that starts at `i`.
pub open spec fn run_len(w: Seq<char>, i: int, class: CharClass) -> nat
    decreases w.len() - i,
{
    if 0 <= i < w.len() && in_class(w[i], class) {
        1 + run_len(w, i + 1, class)
    } else {
        0
    }
}

/// Where the name of a file name ends: a name is a first character that is not
/// a digit followed by a run of at least one word character; without one the
/// name is empty.
pub open spec fn name_end(w: Seq<char>) -> int {
    if w.len() >= 2 && !is_digit(w[0]) && is_word(w[1]) {
        1 + run_len(w, 1, CharClass::Word) as int
    } else {
        0
    }
}

/// Where the version may start: after the name, one optional `-` and any spaces.
pub open spec fn version_start(w: Seq<char>) -> int {
    let p = name_end(w);
    let q = if p < w.len() && w[p] == '-' {
        p + 1
    } else {
        p
    };
    q + run_len(w, q, CharClass::Space)
}

/// Extends a version ending at `q` by one `.` and a run of digits, where present.
pub open spec fn next_component(w: Seq<char>, q: int) -> int {
    if 0 <= q < w.len() && w[q] == '.' && run_len(w, q + 1, CharClass::Digit) > 0 {
        q + 1 + run_len(w, q + 1, CharClass::Digit)
    } else {
        q
    }
}

/// Where the version ends: one to three dotted runs of digits from `version_start`.
pub open spec fn version_end(w: Seq<char>) -> int {
    let p = version_start(w);
    let d = run_len(w, p, CharClass::Digit);
    if d == 0 {
        p
    } else {
        next_component(w, next_component(w, p + d))
    }
}

/// The name that a file name carries.
pub open spec fn name_of_file(w: Seq<char>) -> Seq<char> {
    w.take(name_end(w))
}

/// The version that a file name carries, possibly empty.
pub open spec fn version_of_file(w: Seq<char>) -> Seq<char> {
    w.subrange(version_start(w), version_end(w))
}

proof fn lemma_run_bound(w: Seq<char>, i: int, class: CharClass)
    requires
        0 <= i <= w.len(),
    ensures
        i + run_len(w, i, class) <= w.len(),
    decreases w.len() - i,
{
    if i < w.len() && in_class(w[i], class) {
        lemma_run_bound(w, i + 1, class);
    }
}

pub(crate) fn char_in_class(c: char, class: CharClass) -> (r: bool)
    ensures
        r == in_class(c, class),
{
    match class {
        CharClass::Digit => '0' <= c && c <= '9',
        CharClass::Word => ('0' <= c && c <= '9') || ('a' <= c && c <= 'z') || ('A' <= c && c
            <= 'Z') || c == '_',
        CharClass::Space => c == ' ' || c == '\t' || c == '\n' || c == '\r',
        CharClass::NotSpace => !(c == ' ' || c == '\t' || c == '\n' || c == '\r'),
    }
}

pub(crate) fn run_from(w: &str, n: usize, i: usize, class: CharClass) -> (r: usize)
    requires
        n == w@.len(),
        i <= n,
    ensures
        r == run_len(w@, i as int, class),
        i + r <= n,
{
    let mut j: usize = i;
    while j < n && char_in_class(w.get_char(j), class)
        invariant
            i <= j <= n,
            n == w@.len(),
            run_len(w@, i as int, class) == (j - i) + run_len(w@, j as int, class),
        decreases n - j,
    {
        j += 1;
    }
    proof {
        lemma_run_bound(w@, i as int, class);
    }
    j - i
}

fn next_component_end(w: &str, n: usize, q: usize) -> (r: usize)
    requires
        n == w@.len(),
        q <= n,
    ensures
        r == next_component(w@, q as int),
        q <= r <= n,
{
    if q < n && w.get_char(q) == '.' {
        let d = run_from(w, n, q + 1, CharClass::Digit);
        if d > 0 {
            return q + 1 + d;
        }
    }
    q
}

/// Splits a file name into the name and version it carries, both possibly empty.
pub fn name_version_of_file(w: &str) -> (r: (String, String))
    ensures
        r.0@ == name_of_file(w@),
        r.1@ == version_of_file(w@),
{
    let n = w.unicode_len();
    let mut p: usize = 0;
    if n >= 2 && !char_in_class(w.get_char(0), CharClass::Digit) && char_in_class(
        w.get_char(1),
        CharClass::Word,
    ) {
        p = 1 + run_from(w, n, 1, CharClass::Word);
    }
    assert(p == name_end(w@));
    let name = w.substring_char(0, p).to_owned();
    let mut q = p;
    if q < n && w.get_char(q) == '-' {
        q += 1;
    }
    q = q + run_from(w, n, q, CharClass::Space);
    assert(q == version_start(w@));
    let d = run_from(w, n, q, CharClass::Digit);
    let end = if d == 0 {
        q
    } else {
        let e1 = next_component_end(w, n, q + d);
        next_component_end(w, n, e1)
    };
    let version = w.substring_char(q, end).to_owned();
    (name, version)
}

/// The package name a URL's path gives: the name its last segment carries, or
/// else the third segment from the end (as in `owner/project/archive/1.0.zip`),
/// or else nothing.
pub open spec fn name_of_path(segs: Seq<Seq<char>>) -> Seq<char> {
    let n = name_of_file(last_segment(segs));
    if n.len() > 0 {
        n
    } else if segs.len() >= 3 {
        segs[segs.len() - 3]
    } else {
        Seq::empty()
    }
}

/// Name and version derived from a source URL, `None` when it is not a URL with a path.
pub open spec fn name_version_of_url(url: Seq<char>) -> Option<(Seq<char>, Seq<char>)> {
    match path_segments_of(url) {
        Some(segs) => Some((name_of_path(segs), version_of_file(last_segment(segs)))),
        None => None,
    }
}

/// Derives a package name and an archive version from a URL's path segments.
pub fn name_version_of_segments(segs: &Vec<String>) -> (r: (String, String))
    ensures
        r.0@ == name_of_path(strings_view(segs@)),
        r.1@ == version_of_file(last_segment(strings_view(segs@))),
{
    let len = segs.len();
    let (name, version) = if len == 0 {
        proof {
            reveal_strlit("");
        }
        assert(last_segment(strings_view(segs@)) =~= ""@);
        name_version_of_file("")
    } else {
        assert(last_segment(strings_view(segs@)) == segs@[len - 1]@);
        name_version_of_file(segs[len - 1].as_str())
    };
    if name.unicode_len() > 0 {
        (name, version)
    } else if len >= 3 {
        (segs[len - 3].clone(), version)
    } else {
        proof {
            reveal_strlit("");
        }
        assert(name_of_path(strings_view(segs@)) =~= ""@);
        ("".to_owned(), version)
    }
}

/// Derives a package name and an archive version from a source URL.
pub fn extract_name_version(url: &str) -> (r: Result<(String, String), OriginError>)
    ensures
        r matches Ok(nv) ==> name_version_of_url(url@) == Some((nv.0@, nv.1@)),
        r is Err ==> name_version_of_url(url@) is None && r == Err::<(String, String), OriginError>(
            OriginError::InvalidUrl,
        ),
{
    match url_path_segments(url) {
        Some(segs) => Ok(name_version_of_segments(&segs)),
        None => Err(OriginError::InvalidUrl),
    }
}

pub const GITHUB_HOST: &'static str = "github.com";

/// Owner and repository named by a URL on the one hosting provider whose API is
/// known: its first two path segments.
pub open spec fn hosted_repo_of(url: Seq<char>) -> Option<(Seq<char>, Seq<char>)> {
    match (host_of(url), path_segments_of(url)) {
        (Some(h), Some(segs)) => if h == GITHUB_HOST@ && segs.len() >= 2 {
            Some((segs[0], segs[1]))
        } else {
            None
        },
        _ => None,
    }
}

/// Owner and repository given a URL's host and path segments: the first two
/// segments on the known hosting provider, `None` elsewhere.
pub fn repo_of_parts(host: &str, segs: &Vec<String>) -> (r: Option<(String, String)>)
    ensures
        r matches Some(p) ==> host@ == GITHUB_HOST@ && segs@.len() >= 2 && p.0@ == segs@[0]@ && p.1@
            == segs@[1]@,
        r is None ==> !(host@ == GITHUB_HOST@ && segs@.len() >= 2),
{
    if same_text(host, GITHUB_HOST) && segs.len() >= 2 {
        Some((segs[0].clone(), segs[1].clone()))
    } else {
        None
    }
}

/// Owner and repository of a URL on the known hosting provider, `None` for any
/// other URL.
pub fn hosted_repo(url: &str) -> (r: Option<(String, String)>)
    ensures
        r matches Some(p) ==> hosted_repo_of(url@) == Some((p.0@, p.1@)),
        r is None ==> hosted_repo_of(url@) is None,
{
    match url_host(url) {
        Some(host) => match url_path_segments(url) {
            Some(segs) => repo_of_parts(host.as_str(), &segs),
            None => None,
        },
        None => None,
    }
}

/// License identifier as the manifest writes it: the hosting API's bare
/// `GPL-3.0` means the "or later" variant.
pub open spec fn manifest_license_id(id: Seq<char>) -> Seq<char> {
    if id == "GPL-3.0"@ {
        "GPL-3.0-or-later"@
    } else {
        id
    }
}

/// Maps a license identifier from the hosting API to the manifest's.
pub fn update_license_id(id: String) -> (r: String)
    ensures
        r@ == manifest_license_id(id@),
{
    if same_text(id.as_str(), "GPL-3.0") {
        "GPL-3.0-or-later".to_owned()
    } else {
        id
    }
}

/// The source locator the manifest records for a URL of kind `kind`.
pub open spec fn locator_of(url: Seq<char>, kind: UrlKind) -> Seq<char> {
    match kind {
        UrlKind::VersionControlled => "git|"@ + url,
        UrlKind::Archive(_) => url,
    }
}

/// Formats the source locator: `git|` and the URL for a repository, the bare
/// URL for an archive.
pub fn url_format(url: &str, kind: UrlKind) -> (r: String)
    ensures
        r@ == locator_of(url@, kind),
{
    match kind {
        UrlKind::VersionControlled => {
            let mut s = "git|".to_owned();
            s.append(url);
            s
        },
        UrlKind::Archive(_) => url.to_owned(),
    }
}

} // verus!
