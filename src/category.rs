//! Ban categories: the store's partition key and the wire enumeration used by
//! the administrative protocol.

use vstd::prelude::*;

use crate::text::str_eq;

verus! {

/// The category of a ban. The first four each have a collection in the rule
/// store; `NIP05` and `LUD16` are accepted in snapshots but have none.
#[allow(non_camel_case_types)]
#[derive(Clone, Copy, Debug, PartialEq, Eq, Structural)]
pub enum BanTypesEnum {
    CONTENT,
    TAG,
    USER,
    IP,
    NIP05,
    LUD16,
}

/// The numeric code of a category, as snapshots and requests carry it.
pub open spec fn category_code(c: BanTypesEnum) -> int {
    match c {
        BanTypesEnum::CONTENT => 0,
        BanTypesEnum::TAG => 1,
        BanTypesEnum::USER => 2,
        BanTypesEnum::IP => 3,
        BanTypesEnum::NIP05 => 4,
        BanTypesEnum::LUD16 => 5,
    }
}

/// The category that a numeric code names, if any.
pub open spec fn category_of_code(v: int) -> Option<BanTypesEnum> {
    if v == 0 {
        Some(BanTypesEnum::CONTENT)
    } else if v == 1 {
        Some(BanTypesEnum::TAG)
    } else if v == 2 {
        Some(BanTypesEnum::USER)
    } else if v == 3 {
        Some(BanTypesEnum::IP)
    } else if v == 4 {
        Some(BanTypesEnum::NIP05)
    } else if v == 5 {
        Some(BanTypesEnum::LUD16)
    } else {
        None
    }
}

/// The categories that have a collection in the rule store.
pub open spec fn is_stored_category(c: BanTypesEnum) -> bool {
    c == BanTypesEnum::CONTENT || c == BanTypesEnum::TAG || c == BanTypesEnum::USER
        || c == BanTypesEnum::IP
}

impl BanTypesEnum {
    /// The category named by a numeric code; `None` outside `0..=5`.
    pub fn from_i32(v: i32) -> (r: Option<BanTypesEnum>)
        ensures
            r == category_of_code(v as int),
    {
        if v == 0 {
            Some(BanTypesEnum::CONTENT)
        } else if v == 1 {
            Some(BanTypesEnum::TAG)
        } else if v == 2 {
            Some(BanTypesEnum::USER)
        } else if v == 3 {
            Some(BanTypesEnum::IP)
        } else if v == 4 {
            Some(BanTypesEnum::NIP05)
        } else if v == 5 {
            Some(BanTypesEnum::LUD16)
        } else {
            None
        }
    }

    /// The numeric code of this category.
    pub fn code(&self) -> (r: i32)
        ensures
            r as int == category_code(*self),
            category_of_code(r as int) == Some(*self),
    {
        match self {
            BanTypesEnum::CONTENT => 0,
            BanTypesEnum::TAG => 1,
            BanTypesEnum::USER => 2,
            BanTypesEnum::IP => 3,
            BanTypesEnum::NIP05 => 4,
            BanTypesEnum::LUD16 => 5,
        }
    }

    /// The lower-case name of this category, as it appears in audit records.
    pub fn name(&self) -> (r: &'static str)
        ensures
            r@ == match *self {
                BanTypesEnum::CONTENT => "content"@,
                BanTypesEnum::TAG => "tag"@,
                BanTypesEnum::USER => "user"@,
                BanTypesEnum::IP => "ip"@,
                BanTypesEnum::NIP05 => "nip05"@,
                BanTypesEnum::LUD16 => "lud16"@,
            },
    {
        match self {
            BanTypesEnum::CONTENT => "content",
            BanTypesEnum::TAG => "tag",
            BanTypesEnum::USER => "user",
            BanTypesEnum::IP => "ip",
            BanTypesEnum::NIP05 => "nip05",
            BanTypesEnum::LUD16 => "lud16",
        }
    }
}

/// The ban categories of the administrative protocol, with their own codes.
#[derive(Clone, Copy, Debug, PartialEq, Eq, Structural)]
pub enum BanType {
    Ip,
    User,
    Tag,
    Content,
}

impl BanType {
    /// The protocol name of this value.
    pub fn as_str_name(&self) -> (r: &'static str)
        ensures
            r@ == match *self {
                BanType::Ip => "IP"@,
                BanType::User => "USER"@,
                BanType::Tag => "TAG"@,
                BanType::Content => "CONTENT"@,
            },
    {
        match self {
            BanType::Ip => "IP",
            BanType::User => "USER",
            BanType::Tag => "TAG",
            BanType::Content => "CONTENT",
        }
    }

    /// The value whose protocol name is `value`, if any.
    pub fn from_str_name(value: &str) -> (r: Option<BanType>)
        ensures
            r == (if value@ == "IP"@ {
                Some(BanType::Ip)
            } else if value@ == "USER"@ {
                Some(BanType::User)
            } else if value@ == "TAG"@ {
                Some(BanType::Tag)
            } else if value@ == "CONTENT"@ {
                Some(BanType::Content)
            } else {
                None
            }),
    {
        if str_eq(value, "IP") {
            Some(BanType::Ip)
        } else if str_eq(value, "USER") {
            Some(BanType::User)
        } else if str_eq(value, "TAG") {
            Some(BanType::Tag)
        } else if str_eq(value, "CONTENT") {
            Some(BanType::Content)
        } else {
            None
        }
    }

    /// The protocol code of this value.
    pub fn code(&self) -> (r: i32)
        ensures
            r == match *self {
                BanType::Ip => 0i32,
                BanType::User => 1i32,
                BanType::Tag => 2i32,
                BanType::Content => 3i32,
            },
    {
        match self {
            BanType::Ip => 0,
            BanType::User => 1,
            BanType::Tag => 2,
            BanType::Content => 3,
        }
    }
}

} // verus!
