//! Checking and shaping the values an operator types at the administrative
//! command line.

use vstd::prelude::*;

use crate::category::{category_code, category_of_code, BanTypesEnum};
use crate::config::BanTypeOptionEnum;
use crate::rule::{AddBanRequest, RemoveBanRequest};
use crate::text::{chars_of, str_eq};

verus! {

/// The characters of `s` with leading and trailing whitespace removed.
pub uninterp spec fn trimmed(s: Seq<char>) -> Seq<char>;

/// `part` is a contiguous run of the characters of `whole`.
pub open spec fn is_slice_of(part: Seq<char>, whole: Seq<char>) -> bool {
    exists|i: int, j: int| 0 <= i <= j <= whole.len() && part == whole.subrange(i, j)
}

/// Relies on str::trim: the string with leading and trailing whitespace
/// removed: a contiguous part of it; an empty string stays empty.
#[verifier::external_body]
fn trim(s: &str) -> (r: String)
    ensures
        r@ == trimmed(s@),
        is_slice_of(r@, s@),
        s@.len() == 0 ==> r@.len() == 0,
{
    s.trim().to_string()
}

/// Relies on String::push: appends one character.
#[verifier::external_body]
fn push_char(s: &mut String, c: char)
    ensures
        final(s)@ == old(s)@.push(c),
{
    s.push(c)
}

/// The pieces of `s` between commas, in order; one empty piece for an empty
/// string.
pub open spec fn split_commas(s: Seq<char>) -> Seq<Seq<char>>
    decreases s.len(),
{
    if s.len() == 0 {
        seq![Seq::empty()]
    } else {
        let rest = split_commas(s.drop_last());
        if s.last() == ',' {
            rest.push(Seq::empty())
        } else {
            rest.update(rest.len() - 1, rest.last().push(s.last()))
        }
    }
}

proof fn lemma_split_commas_nonempty(s: Seq<char>)
    ensures
        split_commas(s).len() >= 1,
    decreases s.len(),
{
    if s.len() > 0 {
        lemma_split_commas_nonempty(s.drop_last());
    }
}

/// Which of the checks of `InputValidators` a validator applies.
#[derive(Clone, Copy, Debug, PartialEq, Eq, Structural)]
pub enum ValidatorKind {
    Required,
    DefaultGuard,
    BanType,
    Boolean,
}

/// A check on an input value, with the message shown when it fails.
#[derive(Debug)]
pub struct InputValidator {
    pub validator: ValidatorKind,
    pub error_message: Option<&'static str>,
}

/// Whether `value` passes the check `kind`.
pub open spec fn passes(kind: ValidatorKind, value: Seq<char>) -> bool {
    match kind {
        ValidatorKind::Required => value.len() > 0,
        ValidatorKind::DefaultGuard => value != "default"@,
        ValidatorKind::BanType => value == "ip"@ || value == "content"@ || value == "tag"@
            || value == "user"@,
        ValidatorKind::Boolean => value == "true"@ || value == "false"@ || value == "TRUE"@
            || value == "FALSE"@,
    }
}

impl InputValidator {
    /// Whether `value` passes this validator's check.
    pub fn validate(&self, value: String) -> (r: bool)
        ensures
            r == passes(self.validator, value@),
    {
        match self.validator {
            ValidatorKind::Required => InputValidators::required_input_validator(value),
            ValidatorKind::DefaultGuard => InputValidators::default_guard_validator(value),
            ValidatorKind::BanType => InputValidators::ban_type_validator(value),
            ValidatorKind::Boolean => InputValidators::boolean_validator(value),
        }
    }
}

/// The checks on the values of the administrative command line.
pub struct InputValidators {}

impl InputValidators {
    /// The value must not be empty.
    pub fn required() -> (r: InputValidator)
        ensures
            r.validator == ValidatorKind::Required,
    {
        InputValidator { validator: ValidatorKind::Required, error_message: Some("Value must not be empty") }
    }

    /// The value must not be the word `default`.
    pub fn default_guard() -> (r: InputValidator)
        ensures
            r.validator == ValidatorKind::DefaultGuard,
    {
        InputValidator {
            validator: ValidatorKind::DefaultGuard,
            error_message: Some("Value cannot be \"default\""),
        }
    }

    /// The value must name a stored ban category.
    pub fn ban_type() -> (r: InputValidator)
        ensures
            r.validator == ValidatorKind::BanType,
    {
        InputValidator {
            validator: ValidatorKind::BanType,
            error_message: Some("Invalid value. Must be one of the following: ip, tag, user, content"),
        }
    }

    /// The value must be a boolean word.
    pub fn boolean_type() -> (r: InputValidator)
        ensures
            r.validator == ValidatorKind::Boolean,
    {
        InputValidator { validator: ValidatorKind::Boolean, error_message: Some("") }
    }

    /// The value is not empty.
    pub fn required_input_validator(value: String) -> (r: bool)
        ensures
            r == (value@.len() > 0),
    {
        if value.as_str().is_empty() {
            return false;
        }
        true
    }

    /// The value is not the word `default`.
    pub fn default_guard_validator(value: String) -> (r: bool)
        ensures
            r == (value@ != "default"@),
    {
        if str_eq(value.as_str(), "default") {
            return false;
        }
        true
    }

    /// The value names a stored ban category: `ip`, `content`, `tag` or `user`.
    pub fn ban_type_validator(value: String) -> (r: bool)
        ensures
            r == (value@ == "ip"@ || value@ == "content"@ || value@ == "tag"@ || value@ == "user"@),
    {
        let v = value.as_str();
        str_eq(v, "ip") || str_eq(v, "content") || str_eq(v, "tag") || str_eq(v, "user")
    }

    /// The value is a boolean word: `true`, `false`, `TRUE` or `FALSE`.
    pub fn boolean_validator(value: String) -> (r: bool)
        ensures
            r == (value@ == "true"@ || value@ == "false"@ || value@ == "TRUE"@ || value@ == "FALSE"@),
    {
        let v = value.as_str();
        str_eq(v, "true") || str_eq(v, "false") || str_eq(v, "TRUE") || str_eq(v, "FALSE")
    }
}

/// Conversions of input values to the shapes the requests need.
pub struct InputFormatter {}

impl InputFormatter {
    /// The comma-separated pieces of the value, each trimmed.
    pub fn input_to_vec(value: String) -> (r: Vec<String>)
        ensures
            r@.len() == split_commas(value@).len(),
            forall|i: int| 0 <= i < r@.len() ==> (#[trigger] r@[i])@ == trimmed(split_commas(value@)[i]),
    {
        let cs = chars_of(value.as_str());
        let mut pieces: Vec<String> = Vec::new();
        let mut cur = String::new();
        let mut i: usize = 0;
        while i < cs.len()
            invariant
                cs@ == value@,
                i <= cs@.len(),
                pieces@.len() + 1 == split_commas(cs@.take(i as int)).len(),
                forall|k: int| 0 <= k < pieces@.len() ==> (#[trigger] pieces@[k])@ == trimmed(split_commas(cs@.take(i as int))[k]),
                cur@ == split_commas(cs@.take(i as int)).last(),
            decreases cs@.len() - i,
        {
            let ghost before = cs@.take(i as int);
            proof {
                lemma_split_commas_nonempty(before);
            }
            assert(cs@.take(i + 1).drop_last() =~= before);
            if cs[i] == ',' {
                pieces.push(trim(cur.as_str()));
                cur = String::new();
            } else {
                push_char(&mut cur, cs[i]);
            }
            i = i + 1;
        }
        assert(cs@.take(cs@.len() as int) =~= value@);
        proof {
            lemma_split_commas_nonempty(value@);
        }
        pieces.push(trim(cur.as_str()));
        pieces
    }

    /// `None` for an empty value, else the value trimmed.
    pub fn string_nullifier(value: String) -> (r: Option<String>)
        ensures
            value@.len() == 0 ==> r is None,
            value@.len() > 0 ==> (r matches Some(s) && s@ == trimmed(value@)),
    {
        if !value.as_str().is_empty() {
            Some(trim(value.as_str()))
        } else {
            None
        }
    }

    /// Whether the value is exactly `true`.
    pub fn input_to_boolean(value: String) -> (r: bool)
        ensures
            r == (value@ == "true"@),
    {
        if str_eq(value.as_str(), "true") {
            true
        } else {
            false
        }
    }

    /// The numeric code for a category word of the command line: `ip` 0,
    /// `content` 1, `word` 2, `user` 3, anything else -1.
    pub fn input_to_ban_type(value: String) -> (r: i32)
        ensures
            r == (if value@ == "ip"@ {
                0i32
            } else if value@ == "content"@ {
                1i32
            } else if value@ == "word"@ {
                2i32
            } else if value@ == "user"@ {
                3i32
            } else {
                -1i32
            }),
    {
        let v = value.as_str();
        if str_eq(v, "ip") {
            0
        } else if str_eq(v, "content") {
            1
        } else if str_eq(v, "word") {
            2
        } else if str_eq(v, "user") {
            3
        } else {
            -1
        }
    }
}

/// The stored category that an operator's category word names.
pub open spec fn category_of_word(word: Seq<char>) -> Option<BanTypesEnum> {
    if word == "content"@ {
        Some(BanTypesEnum::CONTENT)
    } else if word == "tag"@ {
        Some(BanTypesEnum::TAG)
    } else if word == "user"@ {
        Some(BanTypesEnum::USER)
    } else if word == "ip"@ {
        Some(BanTypesEnum::IP)
    } else {
        None
    }
}

/// The stored category that an operator's category word names: `content`,
/// `tag`, `user` or `ip`.
pub fn category_word(word: &str) -> (r: Option<BanTypesEnum>)
    ensures
        r == category_of_word(word@),
{
    if str_eq(word, "content") {
        Some(BanTypesEnum::CONTENT)
    } else if str_eq(word, "tag") {
        Some(BanTypesEnum::TAG)
    } else if str_eq(word, "user") {
        Some(BanTypesEnum::USER)
    } else if str_eq(word, "ip") {
        Some(BanTypesEnum::IP)
    } else {
        None
    }
}

/// The request that adds a ban from the operator's answers: the category
/// word, the regex word, the pattern and the reason. The category travels as
/// the store's code for it (content 0, tag 1, user 2, ip 3), or -1 for a word
/// that names no stored category.
pub fn add_request(ban_type: String, regex: String, content: String, reason: String) -> (r: AddBanRequest)
    ensures
        r.ban_type as int == match category_of_word(ban_type@) {
            Some(c) => category_code(c),
            None => -1,
        },
        category_of_word(ban_type@) matches Some(c) ==> category_of_code(r.ban_type as int) == Some(c),
        r.regex == (regex@ == "true"@),
        r.content == content,
        r.reason == Some(reason),
        r.expires_in is None,
{
    let code: i32 = match category_word(ban_type.as_str()) {
        Some(c) => c.code(),
        None => -1,
    };
    AddBanRequest {
        content,
        regex: InputFormatter::input_to_boolean(regex),
        reason: Some(reason),
        expires_in: None,
        ban_type: code,
    }
}

/// The request that removes the ban at `index` of a category, as the command
/// line gives them; the index is reinterpreted as unsigned.
pub fn remove_request(index: i32, ban_type: BanTypeOptionEnum) -> (r: RemoveBanRequest)
    ensures
        r.index == index as u32,
        r.ban_type == ban_type.code_spec(),
{
    RemoveBanRequest { index: index as u32, ban_type: ban_type.code() }
}

} // verus!
