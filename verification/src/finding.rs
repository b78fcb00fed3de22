//! The record that a report holds for one classified construct.

use vstd::prelude::*;

verus! {

/// One finding: the qualified name of a construct, whether it counts as
/// safe, and where it was found (`file:line`). A finding is written once and
/// not revised.
#[derive(Debug)]
pub struct UnsafeItemInfo {
    pub name: String,
    pub is_safe: bool,
    pub location: String,
}

/// What a finding says, as plain text.
pub struct Finding {
    pub name: Seq<char>,
    pub is_safe: bool,
    pub location: Seq<char>,
}

impl View for UnsafeItemInfo {
    type V = Finding;

    open spec fn view(&self) -> Finding {
        Finding { name: self.name@, is_safe: self.is_safe, location: self.location@ }
    }
}

impl UnsafeItemInfo {
    pub fn new(name: String, is_safe: bool, location: String) -> (info: Self)
        ensures
            info.name == name,
            info.is_safe == is_safe,
            info.location == location,
    {
        UnsafeItemInfo { name, is_safe, location }
    }
}

impl Clone for UnsafeItemInfo {
    fn clone(&self) -> (copy: Self)
        ensures
            copy == *self,
    {
        UnsafeItemInfo {
            name: self.name.clone(),
            is_safe: self.is_safe,
            location: self.location.clone(),
        }
    }
}

/// What a list of findings says, entry by entry.
pub open spec fn findings(list: Seq<UnsafeItemInfo>) -> Seq<Finding> {
    list.map_values(|info: UnsafeItemInfo| info@)
}

} // verus!
