//! The description of a font request: characters to cover, languages,
//! family, variation model and synthetic styling.
use vstd::prelude::*;
use crate::font_arguments::variation_position::Coordinate;
use crate::font_arguments::{option_bool_to_ffi, spec_option_bool_to_ffi};

verus! {

/// A Unicode code point.
pub type Unichar = i32;

/// A character, with the variation selector it is asked with.
#[derive(Clone, Copy, PartialEq, Eq, Structural, Debug)]
pub struct CMapEntry {
    pub character: Unichar,
    pub variation: Unichar,
}

impl Default for CMapEntry {
    fn default() -> (e: CMapEntry)
        ensures
            e.character == 0 && e.variation == 0,
    {
        CMapEntry { character: 0, variation: 0 }
    }
}

/// A request for a typeface: the characters it must cover, the BCP 47
/// language tags to prefer, an optional family name, a position in the
/// variation design space, and the synthetic bold and oblique requests.
#[derive(Clone, Debug)]
pub struct Request<'a> {
    pub cmap_entries: &'a [CMapEntry],
    pub bcp_47: &'a [&'a str],
    pub family_name: Option<&'a str>,
    pub model: &'a [Coordinate],
    pub synthetic_bold: Option<bool>,
    pub synthetic_oblique: Option<bool>,
}

impl<'a> Default for Request<'a> {
    fn default() -> (r: Request<'a>)
        ensures
            r.cmap_entries@.len() == 0,
            r.bcp_47@.len() == 0,
            r.family_name is None,
            r.model@.len() == 0,
            r.synthetic_bold is None,
            r.synthetic_oblique is None,
    {
        Request {
            cmap_entries: &[],
            bcp_47: &[],
            family_name: None,
            model: &[],
            synthetic_bold: None,
            synthetic_oblique: None,
        }
    }
}


/// Whether the text holds a NUL character, which a C string cannot.
pub fn contains_nul(s: &str) -> (r: bool)
    ensures
        r == s@.contains('\0'),
{
    let n = s.unicode_len();
    let mut i: usize = 0;
    while i < n
        invariant
            n == s@.len(),
            i <= n,
            forall|j: int| 0 <= j < i ==> s@[j] != '\0',
        decreases n - i,
    {
        if s.get_char(i) == '\0' {
            assert(s@[i as int] == '\0');
            return true;
        }
        i = i + 1;
    }
    assert(!s@.contains('\0')) by {
        if s@.contains('\0') {
            let k = choose|k: int| 0 <= k < s@.len() && s@[k] == '\0';
            assert(s@[k] != '\0');
        }
    }
    false
}

/// The family name a request hands to the font manager: a name that holds a
/// NUL character cannot be handed over, and the request then names no family.
pub fn family_name_for_ffi<'a>(family_name: Option<&'a str>) -> (r: Option<&'a str>)
    ensures
        r == (match family_name {
            Some(name) => if name@.contains('\0') {
                None
            } else {
                Some(name)
            },
            None => None,
        }),
{
    match family_name {
        Some(name) => if contains_nul(name) {
            None
        } else {
            Some(name)
        },
        None => None,
    }
}

/// Whether every language tag of a request can be handed to the font
/// manager: none holds a NUL character.
pub fn bcp_47_tags_are_valid(tags: &[&str]) -> (r: bool)
    ensures
        r == (forall|i: int| 0 <= i < tags@.len() ==> !(#[trigger] tags@[i])@.contains('\0')),
{
    let mut i: usize = 0;
    while i < tags.len()
        invariant
            i <= tags@.len(),
            forall|j: int| 0 <= j < i ==> !(#[trigger] tags@[j])@.contains('\0'),
        decreases tags@.len() - i,
    {
        if contains_nul(tags[i]) {
            return false;
        }
        i = i + 1;
    }
    true
}


/// A request as the font manager takes it: the family name dropped when it
/// holds a NUL character, and the synthetic requests in their stored form
/// (`1` yes, `0` no, `-1` unspecified).
#[derive(Clone, Debug)]
pub struct NativeRequest<'a> {
    pub cmap_entries: &'a [CMapEntry],
    pub bcp_47: &'a [&'a str],
    pub family_name: Option<&'a str>,
    pub model: &'a [Coordinate],
    pub synthetic_bold: i32,
    pub synthetic_oblique: i32,
}

impl<'a> Request<'a> {
    /// Whether every language tag of the request holds no NUL character.
    pub open spec fn spec_bcp_47_are_valid(&self) -> bool {
        forall|i: int| 0 <= i < self.bcp_47@.len() ==> !(#[trigger] self.bcp_47@[i])@.contains('\0')
    }

    /// The request as the font manager takes it.
    pub fn to_native(&self) -> (r: NativeRequest<'a>)
        requires
            self.spec_bcp_47_are_valid(),
        ensures
            r.cmap_entries@ == self.cmap_entries@,
            r.bcp_47@ == self.bcp_47@,
            r.family_name == (match self.family_name {
                Some(name) => if name@.contains('\0') {
                    None
                } else {
                    Some(name)
                },
                None => None,
            }),
            r.model@ == self.model@,
            r.synthetic_bold == spec_option_bool_to_ffi(self.synthetic_bold),
            r.synthetic_oblique == spec_option_bool_to_ffi(self.synthetic_oblique),
    {
        NativeRequest {
            cmap_entries: self.cmap_entries,
            bcp_47: self.bcp_47,
            family_name: family_name_for_ffi(self.family_name),
            model: self.model,
            synthetic_bold: option_bool_to_ffi(self.synthetic_bold),
            synthetic_oblique: option_bool_to_ffi(self.synthetic_oblique),
        }
    }
}

} // verus!
