//! One creator as the roster holds it.

use vstd::prelude::*;
use crate::count::MAX_FOLLOWERS;

verus! {

/// What a record holds, as mathematics sees it.
pub struct CreatorView {
    /// Primary key, given by the store and never changed afterwards.
    pub id: int,
    /// The name, any text.
    pub name: Seq<char>,
    /// The address, any text.
    pub email: Seq<char>,
    /// The follower count.
    pub followers: int,
    /// Marked in the list; never written to the store.
    pub selected: bool,
}

impl CreatorView {
    /// A record's follower count is never negative, and key and count fit
    /// the store's 32-bit columns.
    pub open spec fn wf(self) -> bool {
        &&& -2_147_483_648 <= self.id <= 2_147_483_647
        &&& 0 <= self.followers <= MAX_FOLLOWERS
    }

    /// The same record with another name.
    pub open spec fn with_name(self, name: Seq<char>) -> CreatorView {
        CreatorView { name, ..self }
    }

    /// The same record with another address.
    pub open spec fn with_email(self, email: Seq<char>) -> CreatorView {
        CreatorView { email, ..self }
    }

    /// The same record with another follower count.
    pub open spec fn with_followers(self, followers: int) -> CreatorView {
        CreatorView { followers, ..self }
    }

    /// The same record, marked or unmarked.
    pub open spec fn with_selected(self, selected: bool) -> CreatorView {
        CreatorView { selected, ..self }
    }

    /// Whether two records agree on everything that the store keeps, that
    /// is on everything but the mark.
    pub open spec fn same_stored(self, other: CreatorView) -> bool {
        &&& self.id == other.id
        &&& self.name == other.name
        &&& self.email == other.email
        &&& self.followers == other.followers
    }
}

/// A creator: key, name, address, follower count, and whether the row is
/// marked in the list.
pub struct Creator {
    id: i32,
    name: String,
    email: String,
    followers: i32,
    selected: bool,
}

impl View for Creator {
    type V = CreatorView;

    closed spec fn view(&self) -> CreatorView {
        CreatorView {
            id: self.id as int,
            name: self.name@,
            email: self.email@,
            followers: self.followers as int,
            selected: self.selected,
        }
    }
}

impl Creator {
    /// Well-formed: the follower count is not negative.
    pub open spec fn wf(&self) -> bool {
        self@.wf()
    }

    /// Builds an unmarked record. A negative follower count makes no
    /// record.
    pub fn new(id: i32, name: String, email: String, followers: i32) -> (r: Option<Creator>)
        ensures
            r is Some <==> followers >= 0,
            r matches Some(c) ==> c.wf() && c@ == (CreatorView {
                id: id as int,
                name: name@,
                email: email@,
                followers: followers as int,
                selected: false,
            }),
    {
        if followers < 0 {
            None
        } else {
            Some(Creator::unmarked(id, name, email, followers))
        }
    }

    /// Builds an unmarked record of a count that is known not to be
    /// negative.
    pub(crate) fn unmarked(id: i32, name: String, email: String, followers: i32) -> (c: Creator)
        requires
            0 <= followers,
        ensures
            c.wf(),
            c@ == (CreatorView {
                id: id as int,
                name: name@,
                email: email@,
                followers: followers as int,
                selected: false,
            }),
    {
        Creator { id, name, email, followers, selected: false }
    }

    /// The key.
    pub fn id(&self) -> (r: i32)
        ensures
            r == self@.id,
    {
        self.id
    }

    /// The name, as it was loaded or last typed.
    pub fn name(&self) -> (r: &str)
        ensures
            r@ == self@.name,
    {
        self.name.as_str()
    }

    /// The address, as it was loaded or last typed.
    pub fn email(&self) -> (r: &str)
        ensures
            r@ == self@.email,
    {
        self.email.as_str()
    }

    /// The follower count.
    pub fn followers(&self) -> (r: i32)
        ensures
            r == self@.followers,
    {
        self.followers
    }

    /// Whether the row is marked.
    pub fn selected(&self) -> (r: bool)
        ensures
            r == self@.selected,
    {
        self.selected
    }

    /// A copy that shares nothing with `self`.
    pub fn duplicate(&self) -> (r: Creator)
        ensures
            r@ == self@,
    {
        Creator {
            id: self.id,
            name: self.name.clone(),
            email: self.email.clone(),
            followers: self.followers,
            selected: self.selected,
        }
    }

    /// Replaces the name.
    pub(crate) fn set_name(&mut self, name: String)
        ensures
            final(self)@ == old(self)@.with_name(name@),
    {
        self.name = name;
    }

    /// Replaces the address.
    pub(crate) fn set_email(&mut self, email: String)
        ensures
            final(self)@ == old(self)@.with_email(email@),
    {
        self.email = email;
    }

    /// Replaces the follower count.
    pub(crate) fn set_followers(&mut self, followers: i32)
        requires
            0 <= followers,
        ensures
            final(self)@ == old(self)@.with_followers(followers as int),
    {
        self.followers = followers;
    }

    /// Marks or unmarks the record.
    pub(crate) fn set_selected(&mut self, selected: bool)
        ensures
            final(self)@ == old(self)@.with_selected(selected),
    {
        self.selected = selected;
    }
}

/// The views of a run of records, in order.
pub open spec fn views(records: Seq<Creator>) -> Seq<CreatorView> {
    Seq::new(records.len(), |i: int| records[i]@)
}

/// Whether every record of the run is well-formed.
pub open spec fn all_wf(records: Seq<Creator>) -> bool {
    forall|i: int| 0 <= i < records.len() ==> (#[trigger] records[i]).wf()
}

} // verus!
