//! The rule store: four ordered collections of bans, one per stored category.

use vstd::prelude::*;

use crate::category::{category_of_code, is_stored_category, BanTypesEnum};
use crate::rule::{item_of, AddBanRequest, Ban, BanItem, RemoveBanRequest};

verus! {

/// The bans of the store, partitioned by category, each in insertion order.
#[derive(Debug)]
pub struct BanHammer {
    pub words: Vec<Ban>,
    pub tags: Vec<Ban>,
    pub users: Vec<Ban>,
    pub ips: Vec<Ban>,
}

/// The bans of `bans` whose category is `c`, in their order.
pub open spec fn in_category(bans: Seq<Ban>, c: BanTypesEnum) -> Seq<Ban>
    decreases bans.len(),
{
    if bans.len() == 0 {
        Seq::empty()
    } else if bans.last().ban_type == c {
        in_category(bans.drop_last(), c).push(bans.last())
    } else {
        in_category(bans.drop_last(), c)
    }
}

/// `s` with `ban` appended when the ban's category is `c`.
pub open spec fn append_if(s: Seq<Ban>, ban: Ban, c: BanTypesEnum) -> Seq<Ban> {
    if ban.ban_type == c {
        s.push(ban)
    } else {
        s
    }
}

impl BanHammer {
    /// The collection that holds category `c`; empty for a category that has
    /// no collection.
    pub open spec fn rules_of(&self, c: BanTypesEnum) -> Seq<Ban> {
        match c {
            BanTypesEnum::CONTENT => self.words@,
            BanTypesEnum::TAG => self.tags@,
            BanTypesEnum::USER => self.users@,
            BanTypesEnum::IP => self.ips@,
            _ => Seq::empty(),
        }
    }

    /// Every ban sits in the collection of its own category.
    pub open spec fn wf(&self) -> bool {
        &&& forall|i: int| 0 <= i < self.words.len() ==> (#[trigger] self.words@[i]).ban_type == BanTypesEnum::CONTENT
        &&& forall|i: int| 0 <= i < self.tags.len() ==> (#[trigger] self.tags@[i]).ban_type == BanTypesEnum::TAG
        &&& forall|i: int| 0 <= i < self.users.len() ==> (#[trigger] self.users@[i]).ban_type == BanTypesEnum::USER
        &&& forall|i: int| 0 <= i < self.ips.len() ==> (#[trigger] self.ips@[i]).ban_type == BanTypesEnum::IP
    }

    /// Every collection is empty.
    pub open spec fn is_empty(&self) -> bool {
        forall|c: BanTypesEnum| #[trigger] self.rules_of(c).len() == 0
    }

    /// Each collection of `self` is the one of `before`, with `ban` appended to
    /// the collection of its category.
    pub open spec fn appended(&self, before: BanHammer, ban: Ban) -> bool {
        forall|c: BanTypesEnum|
            #[trigger] self.rules_of(c) == if is_stored_category(c) {
                append_if(before.rules_of(c), ban, c)
            } else {
                Seq::empty()
            }
    }

    /// A store with no bans.
    pub fn empty() -> (r: BanHammer)
        ensures
            r.wf(),
            r.is_empty(),
    {
        BanHammer { words: Vec::new(), tags: Vec::new(), users: Vec::new(), ips: Vec::new() }
    }

    /// The store that a snapshot describes: its bans partitioned by category,
    /// order kept, those of a category without a collection dropped. A
    /// snapshot that could not be read or parsed (`None`) gives an empty store.
    pub fn new(snapshot: Option<Vec<Ban>>) -> (r: BanHammer)
        ensures
            r.wf(),
            snapshot is None ==> r.is_empty(),
            snapshot matches Some(bans) ==> forall|c: BanTypesEnum|
                #[trigger] r.rules_of(c) == if is_stored_category(c) {
                    in_category(bans@, c)
                } else {
                    Seq::empty()
                },
    {
        BanHammer::empty().load(snapshot)
    }

    /// Replaces the collections by the partition of a snapshot's bans; keeps
    /// the store as it is when the snapshot could not be had (`None`).
    pub fn load(self, snapshot: Option<Vec<Ban>>) -> (r: BanHammer)
        ensures
            snapshot is None ==> r == self,
            snapshot is Some ==> r.wf(),
            snapshot matches Some(bans) ==> forall|c: BanTypesEnum|
                #[trigger] r.rules_of(c) == if is_stored_category(c) {
                    in_category(bans@, c)
                } else {
                    Seq::empty()
                },
    {
        let bans = match snapshot {
            Some(b) => b,
            None => {
                return self;
            },
        };
        let mut r = BanHammer::empty();
        let mut i: usize = 0;
        while i < bans.len()
            invariant
                i <= bans@.len(),
                r.wf(),
                forall|c: BanTypesEnum|
                    #[trigger] r.rules_of(c) == if is_stored_category(c) {
                        in_category(bans@.take(i as int), c)
                    } else {
                        Seq::empty()
                    },
            decreases bans@.len() - i,
        {
            let b = bans[i].clone();
            assert(bans@.take(i + 1).drop_last() =~= bans@.take(i as int));
            r.add_ban(b);
            i = i + 1;
        }
        assert(bans@.take(bans@.len() as int) =~= bans@);
        r
    }

    /// Appends `ban` to the collection of its category; a ban of a category
    /// without a collection is dropped.
    pub fn add_ban(&mut self, ban: Ban)
        ensures
            old(self).wf() ==> final(self).wf(),
            final(self).appended(*old(self), ban),
    {
        match ban.ban_type {
            BanTypesEnum::CONTENT => self.words.push(ban),
            BanTypesEnum::TAG => self.tags.push(ban),
            BanTypesEnum::USER => self.users.push(ban),
            BanTypesEnum::IP => self.ips.push(ban),
            _ => {},
        }
    }

    /// A copy of the bans of category `c`, in insertion order; empty for a
    /// category without a collection.
    pub fn list(&self, c: BanTypesEnum) -> (r: Vec<Ban>)
        ensures
            r@ == self.rules_of(c),
    {
        let src: &Vec<Ban> = match c {
            BanTypesEnum::CONTENT => &self.words,
            BanTypesEnum::TAG => &self.tags,
            BanTypesEnum::USER => &self.users,
            BanTypesEnum::IP => &self.ips,
            _ => {
                return Vec::new();
            },
        };
        let mut out: Vec<Ban> = Vec::new();
        let mut i: usize = 0;
        while i < src.len()
            invariant
                i <= src@.len(),
                src@ == self.rules_of(c),
                out@ == src@.take(i as int),
            decreases src@.len() - i,
        {
            out.push(src[i].clone());
            i = i + 1;
            assert(out@ =~= src@.take(i as int));
        }
        assert(src@.take(src@.len() as int) =~= src@);
        out
    }

    /// The bans of the category with numeric code `code`, in listing form and
    /// insertion order; empty for an unknown code or a category without a
    /// collection.
    pub fn list_bans(&self, code: i32) -> (r: Vec<BanItem>)
        ensures
            category_of_code(code as int) is None ==> r@.len() == 0,
            category_of_code(code as int) matches Some(c) ==> {
                &&& r@.len() == self.rules_of(c).len()
                &&& forall|i: int| 0 <= i < r@.len() ==> item_of(self.rules_of(c)[i], #[trigger] r@[i])
            },
    {
        let c = match BanTypesEnum::from_i32(code) {
            Some(c) => c,
            None => {
                return Vec::new();
            },
        };
        let bans = self.list(c);
        let mut out: Vec<BanItem> = Vec::new();
        let mut i: usize = 0;
        while i < bans.len()
            invariant
                i <= bans@.len(),
                bans@ == self.rules_of(c),
                out@.len() == i,
                forall|j: int| 0 <= j < i ==> item_of(bans@[j], #[trigger] out@[j]),
            decreases bans@.len() - i,
        {
            out.push(BanItem::from_ban(&bans[i]));
            i = i + 1;
        }
        out
    }

    /// Removes the ban at `index` of category `c`. Returns whether there was
    /// one: `false`, with the store unchanged, for an index out of range or a
    /// category without a collection.
    pub fn remove_ban(&mut self, c: BanTypesEnum, index: usize) -> (r: bool)
        ensures
            old(self).wf() ==> final(self).wf(),
            r == (is_stored_category(c) && index < old(self).rules_of(c).len()),
            r ==> final(self).rules_of(c) == old(self).rules_of(c).remove(index as int),
            !r ==> *final(self) == *old(self),
            forall|d: BanTypesEnum| d != c ==> #[trigger] final(self).rules_of(d) == old(self).rules_of(d),
    {
        let list: &mut Vec<Ban> = match c {
            BanTypesEnum::CONTENT => &mut self.words,
            BanTypesEnum::TAG => &mut self.tags,
            BanTypesEnum::USER => &mut self.users,
            BanTypesEnum::IP => &mut self.ips,
            _ => {
                return false;
            },
        };
        if index >= list.len() {
            return false;
        }
        list.remove(index);
        true
    }
    /// Adds the ban a request describes. Returns `false`, with the store
    /// unchanged, when the request's category code names no category.
    pub fn add_by_request(&mut self, req: AddBanRequest) -> (r: bool)
        ensures
            old(self).wf() ==> final(self).wf(),
            r == (category_of_code(req.ban_type as int) is Some),
            !r ==> *final(self) == *old(self),
            category_of_code(req.ban_type as int) matches Some(c) ==> final(self).appended(
                *old(self),
                Ban { content: req.content, regex: req.regex, reason: req.reason, ban_type: c },
            ),
    {
        match Ban::from_request(req) {
            Some(ban) => {
                self.add_ban(ban);
                true
            },
            None => false,
        }
    }

    /// Removes the ban a request points at. Returns whether there was one; the
    /// store is unchanged when there was not.
    pub fn remove_by_request(&mut self, req: &RemoveBanRequest) -> (r: bool)
        ensures
            old(self).wf() ==> final(self).wf(),
            r == (category_of_code(req.ban_type as int) matches Some(c) && is_stored_category(c)
                && req.index < old(self).rules_of(c).len()),
            !r ==> *final(self) == *old(self),
            category_of_code(req.ban_type as int) matches Some(c) ==> {
                &&& r ==> final(self).rules_of(c) == old(self).rules_of(c).remove(req.index as int)
                &&& forall|d: BanTypesEnum| d != c ==> #[trigger] final(self).rules_of(d) == old(self).rules_of(d)
            },
    {
        match BanTypesEnum::from_i32(req.ban_type) {
            Some(c) => self.remove_ban(c, req.index as usize),
            None => false,
        }
    }
}

impl Default for BanHammer {
    fn default() -> (r: BanHammer)
        ensures
            r.wf(),
            r.is_empty(),
    {
        BanHammer::empty()
    }
}

} // verus!
