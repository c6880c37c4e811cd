//! The decision engine: an event against the four categories of the store.

use vstd::prelude::*;

use crate::category::BanTypesEnum;
use crate::encoding::{datetime_text, encode_npub, format_millis, format_now, hex_encode, hex_text, npub_encoding};
use crate::matcher::{any_rule_matches, matches_any};
use crate::rule::copy_opt_string;
use crate::store::BanHammer;
use crate::text::str_eq;

verus! {

/// One tag of an event: its name and its ordered values.
#[derive(Debug)]
pub struct TagEntry {
    pub name: String,
    pub values: Vec<String>,
}

/// An incoming event: its id, its author's raw public key, its creation time
/// in seconds since the epoch, its free text and its tags.
#[derive(Debug)]
pub struct Event {
    pub id: Vec<u8>,
    pub pubkey: Vec<u8>,
    pub created_at: u64,
    pub content: String,
    pub tags: Vec<TagEntry>,
}

/// The outcome of an admission check.
#[derive(Clone, Copy, Debug, PartialEq, Eq, Structural)]
pub enum Decision {
    Permit,
    Deny,
}

/// The record of one category that denied an event.
#[derive(Debug)]
pub struct AuditEntry {
    /// The category whose check fired.
    pub ban_type: BanTypesEnum,
    /// The event id in lower-case hexadecimal.
    pub event_id: String,
    /// The caller's address, or the empty string when none was given.
    pub ip: String,
    /// The creation time as a UTC date and time.
    pub datetime: String,
    /// The author's `npub` address, or the empty string when it cannot be formed.
    pub pubkey: String,
}

/// The decision on an event and one audit record per category that fired, in
/// the order in which the checks ran.
#[derive(Debug)]
pub struct Admission {
    pub decision: Decision,
    pub audit: Vec<AuditEntry>,
}

/// The view of an optional string.
pub open spec fn opt_view(s: Option<String>) -> Option<Seq<char>> {
    match s {
        Some(v) => Some(v@),
        None => None,
    }
}

/// The largest creation time whose value in milliseconds fits an `i64`.
pub const MAX_CREATED_AT: u64 = 9223372036854775;

/// The creation time in milliseconds, when it fits an `i64`.
pub open spec fn created_at_millis(created_at: u64) -> Option<int> {
    if created_at <= MAX_CREATED_AT {
        Some(created_at as int * 1000)
    } else {
        None
    }
}

/// `e` records a denial of `event` from address `ip` by category `c`. Its
/// date and time are those of the creation time when that is representable;
/// otherwise they are the time the record was made.
pub open spec fn audit_entry_for(e: AuditEntry, c: BanTypesEnum, event: Event, ip: Option<String>) -> bool {
    &&& e.ban_type == c
    &&& e.event_id@ == hex_text(event.id@)
    &&& e.ip@ == match ip {
        Some(a) => a@,
        None => Seq::<char>::empty(),
    }
    &&& e.pubkey@ == match npub_encoding(event.pubkey@) {
        Some(a) => a,
        None => Seq::<char>::empty(),
    }
    &&& (created_at_millis(event.created_at) matches Some(ms) ==> (datetime_text(ms) matches Some(t)
        ==> e.datetime@ == t))
}

/// `[c]` when `hit`, else empty.
pub open spec fn category_if(hit: bool, c: BanTypesEnum) -> Seq<BanTypesEnum> {
    if hit {
        seq![c]
    } else {
        Seq::empty()
    }
}

impl BanHammer {
    /// The address check fires: no address was given, or an IP ban matches it.
    pub open spec fn ip_denied(&self, ip: Option<Seq<char>>) -> bool {
        match ip {
            None => true,
            Some(a) => any_rule_matches(self.ips@, a),
        }
    }

    /// The content check fires: a content ban matches the text.
    pub open spec fn content_denied(&self, content: Seq<char>) -> bool {
        any_rule_matches(self.words@, content)
    }

    /// The user check fires on an author's encoded address: it could not be
    /// formed, or a user ban matches it.
    pub open spec fn user_denied(&self, address: Option<Seq<char>>) -> bool {
        match address {
            None => true,
            Some(a) => any_rule_matches(self.users@, a),
        }
    }

    /// Some tag ban has exactly `value` as its pattern.
    pub open spec fn tag_banned(&self, value: Seq<char>) -> bool {
        exists|k: int| 0 <= k < self.tags@.len() && (#[trigger] self.tags@[k]).content@ == value
    }

    /// The tag check fires: some value of some tag is a banned tag pattern.
    pub open spec fn tags_denied(&self, tags: Seq<TagEntry>) -> bool {
        exists|t: int, v: int|
            0 <= t < tags.len() && 0 <= v < tags[t].values@.len() && #[trigger] self.tag_banned(
                tags[t].values@[v]@,
            )
    }

    /// The categories whose checks fire on `event` from address `ip`, in the
    /// order address, content, user, tags.
    pub open spec fn denials(&self, event: Event, ip: Option<String>) -> Seq<BanTypesEnum> {
        category_if(self.ip_denied(opt_view(ip)), BanTypesEnum::IP)
            + category_if(self.content_denied(event.content@), BanTypesEnum::CONTENT)
            + category_if(self.user_denied(npub_encoding(event.pubkey@)), BanTypesEnum::USER)
            + category_if(self.tags_denied(event.tags@), BanTypesEnum::TAG)
    }

    /// The decision on `event` from address `ip`: deny when any check fires.
    pub open spec fn decision_for(&self, event: Event, ip: Option<String>) -> Decision {
        if self.denials(event, ip).len() > 0 {
            Decision::Deny
        } else {
            Decision::Permit
        }
    }

    /// Whether the address check fires: `true` when no address is given,
    /// else whether an IP ban matches it.
    pub fn invalidate_ip(&self, ip: Option<String>) -> (r: bool)
        ensures
            r == self.ip_denied(opt_view(ip)),
    {
        match ip {
            None => true,
            Some(a) => matches_any(&self.ips, a.as_str()),
        }
    }

    /// Whether a content ban matches `content`.
    pub fn invalidate_content(&self, content: String) -> (r: bool)
        ensures
            r == self.content_denied(content@),
    {
        matches_any(&self.words, content.as_str())
    }

    /// Whether the user check fires on an already encoded author address:
    /// `true` when it could not be formed (`None`), else whether a user ban
    /// matches it.
    pub fn invalidate_address(&self, address: Option<String>) -> (r: bool)
        ensures
            r == self.user_denied(opt_view(address)),
    {
        match address {
            None => true,
            Some(a) => matches_any(&self.users, a.as_str()),
        }
    }

    /// Whether the user check fires on an author's raw public key, which is
    /// first encoded as an `npub` address.
    pub fn invalidate_user(&self, user: Vec<u8>) -> (r: bool)
        ensures
            r == self.user_denied(npub_encoding(user@)),
    {
        self.invalidate_address(encode_npub(&user))
    }

    /// Whether some tag ban has exactly `value` as its pattern.
    fn tag_value_banned(&self, value: &String) -> (r: bool)
        ensures
            r == self.tag_banned(value@),
    {
        let mut k: usize = 0;
        while k < self.tags.len()
            invariant
                k <= self.tags@.len(),
                forall|j: int| 0 <= j < k ==> (#[trigger] self.tags@[j]).content@ != value@,
            decreases self.tags@.len() - k,
        {
            if str_eq(self.tags[k].content.as_str(), value.as_str()) {
                return true;
            }
            k = k + 1;
        }
        false
    }

    /// Whether some value of some tag is exactly the pattern of a tag ban.
    fn tags_hit(&self, tags: &Vec<TagEntry>) -> (r: bool)
        ensures
            r == self.tags_denied(tags@),
    {
        let mut t: usize = 0;
        while t < tags.len()
            invariant
                t <= tags@.len(),
                forall|i: int, v: int|
                    0 <= i < t && 0 <= v < tags@[i].values@.len() ==> !#[trigger] self.tag_banned(
                        tags@[i].values@[v]@,
                    ),
            decreases tags@.len() - t,
        {
            let values = &tags[t].values;
            let mut v: usize = 0;
            while v < values.len()
                invariant
                    t < tags@.len(),
                    *values == tags@[t as int].values,
                    v <= values@.len(),
                    forall|i: int, w: int|
                        0 <= i < t && 0 <= w < tags@[i].values@.len() ==> !#[trigger] self.tag_banned(
                            tags@[i].values@[w]@,
                        ),
                    forall|w: int| 0 <= w < v ==> !#[trigger] self.tag_banned(values@[w]@),
                decreases values@.len() - v,
            {
                if self.tag_value_banned(&values[v]) {
                    return true;
                }
                v = v + 1;
            }
            t = t + 1;
        }
        false
    }

    /// Whether some value of some tag is exactly the pattern of a tag ban.
    pub fn invalidate_tags(&self, tags: Vec<TagEntry>) -> (r: bool)
        ensures
            r == self.tags_denied(tags@),
    {
        self.tags_hit(&tags)
    }

    /// The audit record of a denial of `event` from address `ip` by category
    /// `c`.
    pub fn rejection_log_prompt(&self, c: BanTypesEnum, event: &Event, ip: &Option<String>) -> (r: AuditEntry)
        ensures
            audit_entry_for(r, c, *event, *ip),
    {
        let event_id = hex_encode(&event.id);
        let datetime = if event.created_at <= MAX_CREATED_AT {
            let millis: i64 = (event.created_at * 1000) as i64;
            match format_millis(millis) {
                Some(t) => t,
                None => format_now(),
            }
        } else {
            format_now()
        };
        let pubkey = match encode_npub(&event.pubkey) {
            Some(a) => a,
            None => String::new(),
        };
        let ip_text = match ip {
            Some(a) => a.clone(),
            None => String::new(),
        };
        AuditEntry { ban_type: c, event_id, ip: ip_text, datetime, pubkey }
    }

    /// Runs the four checks on `event` from address `ip`, in the order
    /// address, content, user, tags. Each check that fires sets the decision
    /// to deny and adds its audit record; the decision is permit only when
    /// none fires.
    pub fn evaluate(&self, event: &Event, ip: &Option<String>) -> (r: Admission)
        ensures
            r.decision == self.decision_for(*event, *ip),
            r.audit@.len() == self.denials(*event, *ip).len(),
            forall|i: int|
                0 <= i < r.audit@.len() ==> audit_entry_for(
                    #[trigger] r.audit@[i],
                    self.denials(*event, *ip)[i],
                    *event,
                    *ip,
                ),
    {
        let mut decision = Decision::Permit;
        let mut audit: Vec<AuditEntry> = Vec::new();

        if self.invalidate_ip(copy_opt_string(ip)) {
            decision = Decision::Deny;
            audit.push(self.rejection_log_prompt(BanTypesEnum::IP, event, ip));
        }

        if matches_any(&self.words, event.content.as_str()) {
            decision = Decision::Deny;
            audit.push(self.rejection_log_prompt(BanTypesEnum::CONTENT, event, ip));
        }

        if self.invalidate_address(encode_npub(&event.pubkey)) {
            decision = Decision::Deny;
            audit.push(self.rejection_log_prompt(BanTypesEnum::USER, event, ip));
        }

        if self.tags_hit(&event.tags) {
            decision = Decision::Deny;
            audit.push(self.rejection_log_prompt(BanTypesEnum::TAG, event, ip));
        }
        Admission { decision, audit }
    }
}

} // verus!
