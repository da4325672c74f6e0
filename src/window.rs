use vstd::prelude::*;
use crate::header::{subtitle_of, HeaderModel, HeaderMsg};
use crate::pkg::{blank, is_fusion, PkgData, PkgDataUrl};

verus! {

/// Events of the main window. Work done outside (reading a manifest,
/// deriving facts from a URL, writing the manifest) hands in its result.
#[derive(Clone, Debug)]
pub enum WinMsg {
    Quit,
    NameChanged(String),
    VersionChanged(String),
    UrlChanged(String),
    LicenseChanged(String),
    ComponentChanged(String),
    BuildSysChanged(String),
    SummaryChanged(String),
    DescriptionChanged(String),
    New,
    /// A manifest was read.
    LoadFile(PkgData),
    /// Facts were derived from a source URL.
    FromUrl(PkgDataUrl),
    /// The manifest was written.
    StartMaking,
}

/// The main window's state.
#[derive(Clone, Debug)]
pub struct Model {
    pub header: HeaderModel,
    pub pkg_data: PkgData,
    pub can_start: bool,
}

/// The header of a manifest shown as saved or unsaved.
pub open spec fn header_saved(h: HeaderModel, saved: bool) -> bool {
    h.is_saved == saved && h.subtitle@ == subtitle_of(h.pkg_name@, saved)
}

/// `new` differs from `old` only in `field`, which is now `v`.
pub open spec fn one_field_set(old: PkgData, new: PkgData, field: int, v: Seq<char>) -> bool {
    &&& new.name@ == (if field == 0 { v } else { old.name@ })
    &&& new.version@ == (if field == 1 { v } else { old.version@ })
    &&& new.source@ == (if field == 2 { v } else { old.source@ })
    &&& new.license@ == (if field == 3 { v } else { old.license@ })
    &&& new.component@ == (if field == 4 { v } else { old.component@ })
    &&& new.build_sys@ == (if field == 5 { v } else { old.build_sys@ })
    &&& new.summary@ == (if field == 6 { v } else { old.summary@ })
    &&& new.description@ == (if field == 7 { v } else { old.description@ })
    &&& new.release == old.release
}

pub open spec fn same_data(a: PkgData, b: PkgData) -> bool {
    same_fields(a, b) && a.release == b.release
}

/// The text fields of `a` and `b` agree.
pub open spec fn same_fields(a: PkgData, b: PkgData) -> bool {
    &&& a.name@ == b.name@
    &&& a.version@ == b.version@
    &&& a.source@ == b.source@
    &&& a.license@ == b.license@
    &&& a.component@ == b.component@
    &&& a.build_sys@ == b.build_sys@
    &&& a.summary@ == b.summary@
    &&& a.description@ == b.description@
}

/// The release a loaded manifest goes on with: one more, unless already the largest.
pub open spec fn next_release(r: u16) -> u16 {
    if r < u16::MAX {
        (r + 1) as u16
    } else {
        r
    }
}

fn set_saved(header: &mut HeaderModel, saved: bool)
    ensures
        header_saved(*final(header), saved),
        final(header).pkg_name@ == old(header).pkg_name@,
{
    header.update(HeaderMsg::SetSaved(saved));
}

impl Model {
    /// An untitled, empty manifest that cannot be written yet.
    pub fn model() -> (r: Self)
        ensures
            r.header.pkg_name@ == crate::header::UNTITLED@,
            !r.header.is_saved,
            blank(r.pkg_data),
            !r.can_start,
    {
        Model { header: HeaderModel::model(), pkg_data: PkgData::new(), can_start: false }
    }

    /// Applies an event. An edit sets its field and marks the manifest
    /// unsaved (a new name also becomes the title); `New` starts over; a read
    /// manifest replaces the data with its release advanced and counts as
    /// saved; facts from a URL are merged; writing marks it saved. Afterwards
    /// the manifest can be written exactly when every needed field is filled.
    pub fn update(&mut self, event: WinMsg)
        ensures
            final(self).can_start == final(self).pkg_data.filled(),
            match event {
                WinMsg::Quit => same_data(final(self).pkg_data, old(self).pkg_data)
                    && final(self).header == old(self).header,
                WinMsg::NameChanged(v) => one_field_set(old(self).pkg_data, final(self).pkg_data, 0, v@)
                    && final(self).header.pkg_name@ == v@ && header_saved(final(self).header, false),
                WinMsg::VersionChanged(v) => one_field_set(old(self).pkg_data, final(self).pkg_data, 1, v@)
                    && header_saved(final(self).header, false),
                WinMsg::UrlChanged(v) => one_field_set(old(self).pkg_data, final(self).pkg_data, 2, v@)
                    && header_saved(final(self).header, false),
                WinMsg::LicenseChanged(v) => one_field_set(old(self).pkg_data, final(self).pkg_data, 3, v@)
                    && header_saved(final(self).header, false),
                WinMsg::ComponentChanged(v) => one_field_set(old(self).pkg_data, final(self).pkg_data, 4, v@)
                    && header_saved(final(self).header, false),
                WinMsg::BuildSysChanged(v) => one_field_set(old(self).pkg_data, final(self).pkg_data, 5, v@)
                    && header_saved(final(self).header, false),
                WinMsg::SummaryChanged(v) => one_field_set(old(self).pkg_data, final(self).pkg_data, 6, v@)
                    && header_saved(final(self).header, false),
                WinMsg::DescriptionChanged(v) => one_field_set(old(self).pkg_data, final(self).pkg_data, 7, v@)
                    && header_saved(final(self).header, false),
                WinMsg::New => blank(final(self).pkg_data) && !final(self).can_start && header_saved(
                    final(self).header,
                    false,
                ),
                WinMsg::LoadFile(d) => same_fields(d, final(self).pkg_data) && final(self).pkg_data.release
                    == next_release(d.release)
                    && header_saved(final(self).header, true),
                WinMsg::FromUrl(o) => is_fusion(old(self).pkg_data, o, final(self).pkg_data)
                    && final(self).header == old(self).header,
                WinMsg::StartMaking => same_data(final(self).pkg_data, old(self).pkg_data)
                    && header_saved(final(self).header, true),
            },
    {
        match event {
            WinMsg::Quit => {},
            WinMsg::NameChanged(v) => {
                self.header.update(HeaderMsg::NewSubtitle(v.clone()));
                set_saved(&mut self.header, false);
                self.pkg_data.name = v;
            },
            WinMsg::VersionChanged(v) => {
                set_saved(&mut self.header, false);
                self.pkg_data.version = v;
            },
            WinMsg::UrlChanged(v) => {
                set_saved(&mut self.header, false);
                self.pkg_data.source = v;
            },
            WinMsg::LicenseChanged(v) => {
                set_saved(&mut self.header, false);
                self.pkg_data.license = v;
            },
            WinMsg::ComponentChanged(v) => {
                set_saved(&mut self.header, false);
                self.pkg_data.component = v;
            },
            WinMsg::BuildSysChanged(v) => {
                set_saved(&mut self.header, false);
                self.pkg_data.build_sys = v;
            },
            WinMsg::SummaryChanged(v) => {
                set_saved(&mut self.header, false);
                self.pkg_data.summary = v;
            },
            WinMsg::DescriptionChanged(v) => {
                set_saved(&mut self.header, false);
                self.pkg_data.description = v;
            },
            WinMsg::New => {
                set_saved(&mut self.header, false);
                self.pkg_data = PkgData::new();
            },
            WinMsg::LoadFile(d) => {
                let mut d = d;
                if d.release < u16::MAX {
                    d.release = d.release + 1;
                }
                self.pkg_data = d;
                set_saved(&mut self.header, true);
            },
            WinMsg::FromUrl(o) => {
                self.pkg_data.join_url_data(&o);
            },
            WinMsg::StartMaking => {
                set_saved(&mut self.header, true);
            },
        }
        self.can_start = self.pkg_data.is_filled();
    }
}

} // verus!
