use vstd::prelude::*;

verus! {

/// Events the title bar handles.
#[derive(Clone, Debug)]
pub enum HeaderMsg {
    BtnNew,
    Load,
    BtnFromUrl,
    NewSubtitle(String),
    SetSaved(bool),
}

/// The title bar's state: the package name it shows and whether the manifest is saved.
#[derive(Clone, Debug)]
pub struct HeaderModel {
    pub subtitle: String,
    pub is_saved: bool,
    pub pkg_name: String,
}

pub const UNTITLED: &'static str = "Untitled";

/// The subtitle shown for a package name: the name, or `Untitled` when it is
/// empty, marked with `*` while unsaved.
pub open spec fn subtitle_of(pkg_name: Seq<char>, is_saved: bool) -> Seq<char> {
    let shown = if pkg_name.len() > 0 {
        pkg_name
    } else {
        UNTITLED@
    };
    if is_saved {
        shown
    } else {
        shown + "*"@
    }
}

fn make_sub(pkg_name: &String, is_saved: bool) -> (r: String)
    ensures
        r@ == subtitle_of(pkg_name@, is_saved),
{
    let mut shown = if pkg_name.as_str().unicode_len() > 0 {
        pkg_name.clone()
    } else {
        UNTITLED.to_owned()
    };
    if !is_saved {
        shown.append("*");
    }
    shown
}

impl HeaderModel {
    /// A title bar for an unsaved, untitled manifest.
    pub fn model() -> (r: Self)
        ensures
            r.pkg_name@ == UNTITLED@,
            !r.is_saved,
            r.subtitle@ == subtitle_of(UNTITLED@, false),
    {
        let pkg_name = UNTITLED.to_owned();
        let subtitle = make_sub(&pkg_name, false);
        HeaderModel { subtitle, is_saved: false, pkg_name }
    }

    /// Applies an event: a new package name or saved state updates the
    /// subtitle; the button events leave the state as it is.
    pub fn update(&mut self, event: HeaderMsg)
        ensures
            match event {
                HeaderMsg::NewSubtitle(s) => final(self).pkg_name@ == s@ && final(self).is_saved
                    == old(self).is_saved,
                HeaderMsg::SetSaved(b) => final(self).is_saved == b && final(self).pkg_name@ == old(
                    self,
                ).pkg_name@,
                _ => final(self).pkg_name@ == old(self).pkg_name@ && final(self).is_saved == old(
                    self,
                ).is_saved && final(self).subtitle@ == old(self).subtitle@,
            },
            (event is NewSubtitle || event is SetSaved) ==> final(self).subtitle@ == subtitle_of(
                final(self).pkg_name@,
                final(self).is_saved,
            ),
    {
        match event {
            HeaderMsg::NewSubtitle(subtitle) => {
                self.pkg_name = subtitle;
                self.subtitle = make_sub(&self.pkg_name, self.is_saved);
            },
            HeaderMsg::SetSaved(is_saved) => {
                self.is_saved = is_saved;
                self.subtitle = make_sub(&self.pkg_name, self.is_saved);
            },
            _ => {},
        }
    }
}

} // verus!
