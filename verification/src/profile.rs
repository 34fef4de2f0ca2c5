//! The slice of a Google People profile that the service reads: the list
//! of name records, each with an optional display name.
//!
//! The HTTP layer fetches and deserializes the profile document and hands
//! it over in this shape.  Only the first record's display name is used;
//! a missing list, an empty list, or a record without a display name all
//! yield the empty string, never an error.

use vstd::prelude::*;

verus! {

/// One entry of the profile's `names` list.
pub struct NameRecord {
    pub display_name: Option<String>,
}

/// The mathematical image of a [`NameRecord`].
pub struct NameRecordView {
    pub display_name: Option<Seq<char>>,
}

impl View for NameRecord {
    type V = NameRecordView;

    open spec fn view(&self) -> NameRecordView {
        NameRecordView {
            display_name: match self.display_name {
                Some(s) => Some(s@),
                None => None,
            },
        }
    }
}

/// The profile document: an ordered list of name records.  A document
/// without a `names` array arrives as the empty list.
pub struct GoogleProfile {
    pub names: Vec<NameRecord>,
}

/// The mathematical image of a [`GoogleProfile`].
pub struct ProfileView {
    pub names: Seq<NameRecordView>,
}

impl View for GoogleProfile {
    type V = ProfileView;

    open spec fn view(&self) -> ProfileView {
        ProfileView { names: self.names@.map_values(|n: NameRecord| n@) }
    }
}

/// The display name a profile yields: the first record's display name, or
/// the empty string when the list is empty or the record has none.
pub open spec fn display_name_view(p: ProfileView) -> Seq<char> {
    if p.names.len() == 0 {
        Seq::empty()
    } else {
        match p.names[0].display_name {
            Some(s) => s,
            None => Seq::empty(),
        }
    }
}

/// Extracts the display name of a profile.  Total: every profile yields a
/// name, possibly empty.
pub fn display_name_of(p: &GoogleProfile) -> (r: String)
    ensures
        r@ == display_name_view(p@),
{
    if p.names.len() > 0 {
        proof {
            assert(p@.names[0] == p.names@[0]@);
        }
        match &p.names[0].display_name {
            Some(s) => s.clone(),
            None => String::new(),
        }
    } else {
        String::new()
    }
}

} // verus!
