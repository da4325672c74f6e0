use vstd::prelude::*;
use crate::archive::{
    facts_of_bytes, inspect_archive, opt_view, CMAKE_MAKE, CMAKE_NINJA,
    CONFIGURE_MAKE, MESON,
};
use crate::origin::{
    extract_name_version, manifest_license_id, name_version_of_url, update_license_id,
    url_kind_analyze, url_kind_of, same_text, ArchiveKind, OriginError, UrlKind,
};

verus! {

/// The facts derived from a source URL, to be merged into the manifest.
#[derive(Clone, Debug)]
pub struct PkgDataUrl {
    pub name: String,
    pub version: String,
    pub source: String,
    pub summary: Option<String>,
    pub license: Option<String>,
    pub build_sys: Option<String>,
}

/// What the hosting provider's API says of a repository.
#[derive(Clone, Debug)]
pub struct RepoFacts {
    pub description: Option<String>,
    pub license_id: Option<String>,
}

/// The manifest fields that the form edits.
#[derive(Clone, Debug)]
pub struct PkgData {
    pub name: String,
    pub version: String,
    pub release: u16,
    pub source: String,
    pub license: String,
    pub component: String,
    pub summary: String,
    pub description: String,
    pub build_sys: String,
}

/// A field keeps a value it already has; an empty one takes what is offered, if anything.
pub open spec fn fill(current: Seq<char>, offered: Option<Seq<char>>) -> Seq<char> {
    if current.len() == 0 && offered is Some {
        offered->0
    } else {
        current
    }
}

/// `new` is `old` with the facts of `o` merged in: empty fields are filled,
/// filled ones kept, and source and version always taken from `o`.
pub open spec fn is_fusion(old: PkgData, o: PkgDataUrl, new: PkgData) -> bool {
    &&& new.name@ == fill(old.name@, Some(o.name@))
    &&& new.summary@ == fill(old.summary@, opt_view(o.summary))
    &&& new.description@ == fill(old.description@, opt_view(o.summary))
    &&& new.license@ == fill(old.license@, opt_view(o.license))
    &&& new.build_sys@ == fill(old.build_sys@, opt_view(o.build_sys))
    &&& new.source@ == o.source@
    &&& new.version@ == o.version@
    &&& new.release == old.release
    &&& new.component@ == old.component@
}

/// Takes `offered` into an empty field.
fn fill_field(current: &mut String, offered: &Option<String>)
    ensures
        final(current)@ == fill(old(current)@, opt_view(*offered)),
{
    if current.as_str().unicode_len() == 0 {
        if let Some(v) = offered {
            *current = v.clone();
        }
    }
}

/// Every text field empty, release 1.
pub open spec fn blank(d: PkgData) -> bool {
    &&& d.name@.len() == 0 && d.version@.len() == 0 && d.source@.len() == 0
    &&& d.license@.len() == 0 && d.component@.len() == 0 && d.summary@.len() == 0
    &&& d.description@.len() == 0 && d.build_sys@.len() == 0
    &&& d.release == 1
}

impl PkgData {
    /// An empty manifest, at release 1.
    pub fn new() -> (r: Self)
        ensures
            blank(r),
    {
        PkgData {
            name: String::new(),
            version: String::new(),
            release: 1,
            source: String::new(),
            license: String::new(),
            component: String::new(),
            summary: String::new(),
            description: String::new(),
            build_sys: String::new(),
        }
    }

    /// Whether every field that a manifest needs holds a value.
    pub open spec fn filled(&self) -> bool {
        &&& self.name@.len() > 0
        &&& self.version@.len() > 0
        &&& self.license@.len() > 0
        &&& self.component@.len() > 0
        &&& self.summary@.len() > 0
        &&& self.description@.len() > 0
        &&& self.build_sys@.len() > 0
        &&& self.source@.len() > 0
    }

    /// Whether every field that a manifest needs holds a value.
    pub fn is_filled(&self) -> (r: bool)
        ensures
            r == self.filled(),
    {
        self.name.as_str().unicode_len() > 0 && self.version.as_str().unicode_len() > 0
            && self.license.as_str().unicode_len() > 0 && self.component.as_str().unicode_len() > 0
            && self.summary.as_str().unicode_len() > 0 && self.description.as_str().unicode_len() > 0
            && self.build_sys.as_str().unicode_len() > 0 && self.source.as_str().unicode_len() > 0
    }

    /// Merges the facts derived from a URL: fields already filled are kept,
    /// empty ones take what the URL gave (the description takes the summary),
    /// and source and version always come from the URL.
    pub fn join_url_data(&mut self, url_data: &PkgDataUrl)
        ensures
            is_fusion(*old(self), *url_data, *final(self)),
    {
        let name_offer = Some(url_data.name.clone());
        fill_field(&mut self.name, &name_offer);
        fill_field(&mut self.summary, &url_data.summary);
        fill_field(&mut self.description, &url_data.summary);
        fill_field(&mut self.license, &url_data.license);
        fill_field(&mut self.build_sys, &url_data.build_sys);
        self.source = url_data.source.clone();
        self.version = url_data.version.clone();
    }
}

/// Merging never replaces a summary, license or build system that is already
/// filled, and always takes the new version.
pub proof fn lemma_fusion_keeps_filled(old: PkgData, o: PkgDataUrl, new: PkgData)
    requires
        is_fusion(old, o, new),
    ensures
        old.summary@.len() > 0 ==> new.summary@ == old.summary@,
        old.license@.len() > 0 ==> new.license@ == old.license@,
        old.build_sys@.len() > 0 ==> new.build_sys@ == old.build_sys@,
        new.version@ == o.version@,
{
}

/// The facts a source URL yields, given what the hosting API said of it
/// (`repo`), what its archive revealed (`archive`: license and build system)
/// and, for a repository, the time stamp that serves as its version.
pub open spec fn origin_of(
    url: Seq<char>,
    stamp: Seq<char>,
    repo: Option<RepoFacts>,
    archive: (Option<Seq<char>>, Option<Seq<char>>),
) -> Option<(Seq<char>, Seq<char>, Option<Seq<char>>, Option<Seq<char>>, Option<Seq<char>>)> {
    match (url_kind_of(url), name_version_of_url(url)) {
        (Some(kind), Some(nv)) => {
            let summary = match repo {
                Some(f) => opt_view(f.description),
                None => None,
            };
            match kind {
                UrlKind::VersionControlled => {
                    let license = match repo {
                        Some(f) => match f.license_id {
                            Some(id) => Some(manifest_license_id(id@)),
                            None => None,
                        },
                        None => None,
                    };
                    Some((nv.0, stamp, summary, license, None))
                },
                UrlKind::Archive(_) => Some((nv.0, nv.1, summary, archive.0, archive.1)),
            }
        },
        _ => None,
    }
}

pub open spec fn origin_view(o: PkgDataUrl) -> (
    Seq<char>,
    Seq<char>,
    Option<Seq<char>>,
    Option<Seq<char>>,
    Option<Seq<char>>,
) {
    (o.name@, o.version@, opt_view(o.summary), opt_view(o.license), opt_view(o.build_sys))
}

/// Assembles the facts a source URL yields. The name comes from the URL; the
/// version from the URL for an archive and is `stamp` for a repository; the
/// summary is the API's description; the license is the API's for a
/// repository and the archive's otherwise; the build system is the archive's.
/// A text that is not a URL with a path is refused.
pub fn from_url(url: &str, stamp: &str, repo: Option<RepoFacts>, archive: (Option<String>, Option<String>)) -> (r:
    Result<PkgDataUrl, OriginError>)
    ensures
        r matches Ok(o) ==> origin_of(url@, stamp@, repo, (opt_view(archive.0), opt_view(archive.1)))
            == Some(origin_view(o)) && o.source@ == url@,
        r is Err ==> origin_of(url@, stamp@, repo, (opt_view(archive.0), opt_view(archive.1))) is None
            && r == Err::<PkgDataUrl, OriginError>(OriginError::InvalidUrl),
{
    let kind = match url_kind_analyze(url) {
        Ok(k) => k,
        Err(e) => return Err(e),
    };
    let (name, version) = match extract_name_version(url) {
        Ok(nv) => nv,
        Err(e) => return Err(e),
    };
    let (summary, api_license) = match repo {
        Some(f) => {
            let license = match f.license_id {
                Some(id) => Some(update_license_id(id)),
                None => None,
            };
            (f.description, license)
        },
        None => (None, None),
    };
    match kind {
        UrlKind::VersionControlled => Ok(
            PkgDataUrl {
                name,
                version: stamp.to_owned(),
                source: url.to_owned(),
                summary,
                license: api_license,
                build_sys: None,
            },
        ),
        UrlKind::Archive(_) => Ok(
            PkgDataUrl { name, version, source: url.to_owned(), summary, license: archive.0, build_sys: archive.1 },
        ),
    }
}

/// License and build system found in the bytes fetched from `url`: only a zip
/// archive is inspected; other kinds, text that is not a URL and bytes that do
/// not open as an archive give nothing.
pub fn try_guess_license_build_sys_from_url(url: &str, bytes: Vec<u8>) -> (r: (Option<String>, Option<String>))
    ensures
        (opt_view(r.0), opt_view(r.1)) == if url_kind_of(url@) == Some(UrlKind::Archive(ArchiveKind::Zip)) {
            facts_of_bytes(bytes@)
        } else {
            (None, None)
        },
        r.1 matches Some(b) ==> b@ == MESON@ || b@ == CONFIGURE_MAKE@ || b@ == CMAKE_MAKE@,
{
    match url_kind_analyze(url) {
        Ok(UrlKind::Archive(ArchiveKind::Zip)) => inspect_archive(bytes),
        _ => (None, None),
    }
}

/// The setup, build and install steps that a build system's label stands for.
pub open spec fn steps_of(label: Seq<char>) -> Option<(Seq<char>, Seq<char>, Seq<char>)> {
    if label == MESON@ {
        Some(("%meson_configure"@, "%ninja_build"@, "%ninja_install"@))
    } else if label == CONFIGURE_MAKE@ {
        Some(("%configure"@, "%make"@, "%make_install"@))
    } else if label == CMAKE_MAKE@ {
        Some(("%cmake"@, "%make"@, "%make_install"@))
    } else if label == CMAKE_NINJA@ {
        Some(("%cmake_ninja"@, "%ninja_build"@, "%ninja_install"@))
    } else {
        None
    }
}

/// Label of a build system that the manifest's steps do not identify.
pub const UNKNOWN_BUILD_SYS: &'static str = "Unknown";

/// The build system whose steps are exactly `(setup, build, install)`, or `Unknown`.
pub open spec fn label_of_steps(setup: Seq<char>, build: Seq<char>, install: Seq<char>) -> Seq<char> {
    let s = Some((setup, build, install));
    if steps_of(MESON@) == s {
        MESON@
    } else if steps_of(CONFIGURE_MAKE@) == s {
        CONFIGURE_MAKE@
    } else if steps_of(CMAKE_MAKE@) == s {
        CMAKE_MAKE@
    } else if steps_of(CMAKE_NINJA@) == s {
        CMAKE_NINJA@
    } else {
        UNKNOWN_BUILD_SYS@
    }
}

pub open spec fn steps_view(o: Option<(String, String, String)>) -> Option<(Seq<char>, Seq<char>, Seq<char>)> {
    match o {
        Some(t) => Some((t.0@, t.1@, t.2@)),
        None => None,
    }
}

fn steps(setup: &str, build: &str, install: &str) -> (r: Option<(String, String, String)>)
    ensures
        steps_view(r) == Some((setup@, build@, install@)),
{
    Some((setup.to_owned(), build.to_owned(), install.to_owned()))
}

/// The setup, build and install steps that a build system's label stands for;
/// `None` for a label that is not a known build system.
pub fn build_steps(label: &str) -> (r: Option<(String, String, String)>)
    ensures
        steps_view(r) == steps_of(label@),
{
    if same_text(label, MESON) {
        steps("%meson_configure", "%ninja_build", "%ninja_install")
    } else if same_text(label, CONFIGURE_MAKE) {
        steps("%configure", "%make", "%make_install")
    } else if same_text(label, CMAKE_MAKE) {
        steps("%cmake", "%make", "%make_install")
    } else if same_text(label, CMAKE_NINJA) {
        steps("%cmake_ninja", "%ninja_build", "%ninja_install")
    } else {
        None
    }
}

fn steps_are(label: &str, setup: &str, build: &str, install: &str) -> (r: bool)
    ensures
        r == (steps_of(label@) == Some((setup@, build@, install@))),
{
    match build_steps(label) {
        Some((s, b, i)) => same_text(s.as_str(), setup) && same_text(b.as_str(), build) && same_text(
            i.as_str(),
            install,
        ),
        None => false,
    }
}

/// Reads back the build system from a manifest's recorded steps: the known
/// build system whose steps they are exactly, or `Unknown`.
pub fn build_sys_from_steps(setup: &str, build: &str, install: &str) -> (r: String)
    ensures
        r@ == label_of_steps(setup@, build@, install@),
{
    if steps_are(MESON, setup, build, install) {
        MESON.to_owned()
    } else if steps_are(CONFIGURE_MAKE, setup, build, install) {
        CONFIGURE_MAKE.to_owned()
    } else if steps_are(CMAKE_MAKE, setup, build, install) {
        CMAKE_MAKE.to_owned()
    } else if steps_are(CMAKE_NINJA, setup, build, install) {
        CMAKE_NINJA.to_owned()
    } else {
        UNKNOWN_BUILD_SYS.to_owned()
    }
}

/// The steps of each known build system read back as that build system.
pub proof fn lemma_steps_round_trip(label: Seq<char>)
    requires
        steps_of(label) is Some,
    ensures
        label_of_steps((steps_of(label)->0).0, (steps_of(label)->0).1, (steps_of(label)->0).2) == label,
{
    reveal_strlit("Meson");
    reveal_strlit("Configure & Make");
    reveal_strlit("CMake & Make");
    reveal_strlit("CMake & Ninja");
    reveal_strlit("%meson_configure");
    reveal_strlit("%configure");
    reveal_strlit("%cmake");
    reveal_strlit("%cmake_ninja");
    assert(MESON@ == "Meson"@);
    assert(CONFIGURE_MAKE@ == "Configure & Make"@);
    assert(CMAKE_MAKE@ == "CMake & Make"@);
    assert(CMAKE_NINJA@ == "CMake & Ninja"@);
    assert(CONFIGURE_MAKE@ != MESON@ && CMAKE_MAKE@ != MESON@ && CMAKE_NINJA@ != MESON@);
    assert(CMAKE_MAKE@.len() != CONFIGURE_MAKE@.len());
    assert(CMAKE_NINJA@.len() != CONFIGURE_MAKE@.len());
    assert(CMAKE_NINJA@.len() != CMAKE_MAKE@.len());
    assert("%meson_configure"@.len() == 16 && "%configure"@.len() == 10);
    assert("%cmake"@.len() == 6 && "%cmake_ninja"@.len() == 12);
}

} // verus!
