//! Ban rules and the shapes in which the administrative protocol carries them.

use vstd::prelude::*;

use crate::category::{category_code, category_of_code, BanTypesEnum};

verus! {

/// One ban: a pattern, whether it is a regular expression, an advisory
/// reason, and the category whose collection holds it.
#[derive(Debug)]
pub struct Ban {
    pub content: String,
    pub regex: bool,
    pub reason: Option<String>,
    pub ban_type: BanTypesEnum,
}

/// A copy of an optional string.
pub fn copy_opt_string(s: &Option<String>) -> (r: Option<String>)
    ensures
        r == *s,
{
    match s {
        Some(v) => Some(v.clone()),
        None => None,
    }
}

impl Clone for Ban {
    fn clone(&self) -> (r: Ban)
        ensures
            r == *self,
    {
        Ban {
            content: self.content.clone(),
            regex: self.regex,
            reason: copy_opt_string(&self.reason),
            ban_type: self.ban_type,
        }
    }
}

/// A ban as the administrative protocol lists it.
#[derive(Debug)]
pub struct BanItem {
    pub content: String,
    pub regex: bool,
    pub reason: Option<String>,
    pub ban_type: i32,
}

/// A request to add a ban.
#[derive(Debug)]
pub struct AddBanRequest {
    pub content: String,
    pub regex: bool,
    pub reason: Option<String>,
    pub expires_in: Option<i32>,
    pub ban_type: i32,
}

/// A request to remove the ban at `index` of the category with code
/// `ban_type`.
#[derive(Debug)]
pub struct RemoveBanRequest {
    pub ban_type: i32,
    pub index: u32,
}

/// `item` carries the fields of `ban`, with its category as a numeric code.
pub open spec fn item_of(ban: Ban, item: BanItem) -> bool {
    &&& item.content@ == ban.content@
    &&& item.regex == ban.regex
    &&& item.reason == ban.reason
    &&& item.ban_type as int == category_code(ban.ban_type)
}

impl BanItem {
    /// The listing form of a ban.
    pub fn from_ban(ban: &Ban) -> (r: BanItem)
        ensures
            item_of(*ban, r),
    {
        BanItem {
            content: ban.content.clone(),
            regex: ban.regex,
            reason: copy_opt_string(&ban.reason),
            ban_type: ban.ban_type.code(),
        }
    }
}

impl Ban {
    /// The ban that a request describes; `None` when its category code names
    /// no category.
    pub fn from_request(req: AddBanRequest) -> (r: Option<Ban>)
        ensures
            category_of_code(req.ban_type as int) is None ==> r is None,
            category_of_code(req.ban_type as int) matches Some(c) ==> r == Some(
                Ban { content: req.content, regex: req.regex, reason: req.reason, ban_type: c },
            ),
    {
        match BanTypesEnum::from_i32(req.ban_type) {
            Some(c) => Some(Ban { content: req.content, regex: req.regex, reason: req.reason, ban_type: c }),
            None => None,
        }
    }
}

} // verus!
