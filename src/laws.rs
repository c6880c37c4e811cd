//! Properties of the matcher, the store and the decision engine taken
//! together.

use vstd::prelude::*;

use crate::category::BanTypesEnum;
use crate::encoding::npub_encoding;
use crate::engine::{Decision, Event};
use crate::matcher::{regex_compiles, rule_matches};
use crate::rule::Ban;
use crate::store::BanHammer;
use crate::text::is_substring;

verus! {

/// A plain (non-regex) rule fires on a candidate exactly when its pattern
/// occurs in the candidate as a substring.
pub proof fn lemma_plain_rule_is_substring(rule: Ban, candidate: Seq<char>)
    requires
        !rule.regex,
    ensures
        rule_matches(rule, candidate) <==> is_substring(candidate, rule.content@),
{
}

/// A regex rule whose pattern does not compile fires on no candidate.
pub proof fn lemma_invalid_regex_never_matches(rule: Ban)
    requires
        rule.regex,
        !regex_compiles(rule.content@),
    ensures
        forall|candidate: Seq<char>| !#[trigger] rule_matches(rule, candidate),
{
}

/// An event that carries no caller address is denied, whatever else it holds.
pub proof fn lemma_absent_ip_denies(store: BanHammer, event: Event)
    ensures
        store.decision_for(event, None) == Decision::Deny,
{
    assert(store.denials(event, None).len() > 0);
}

/// An event whose author key cannot be encoded as an address is denied,
/// whatever else it holds.
pub proof fn lemma_unencodable_identity_denies(store: BanHammer, event: Event, ip: Option<String>)
    requires
        npub_encoding(event.pubkey@) is None,
    ensures
        store.decision_for(event, ip) == Decision::Deny,
{
    let d = store.denials(event, ip);
    assert(store.user_denied(npub_encoding(event.pubkey@)));
    assert(d.len() > 0);
}

/// Appending a content rule to a store makes it the last of that store's
/// content rules, the others kept in order; and an event whose content the
/// rule matches is then denied by that same store.
pub proof fn lemma_appended_content_rule_applies(
    before: BanHammer,
    after: BanHammer,
    rule: Ban,
    event: Event,
    ip: Option<String>,
)
    requires
        after.appended(before, rule),
        rule.ban_type == BanTypesEnum::CONTENT,
    ensures
        after.rules_of(BanTypesEnum::CONTENT) == before.rules_of(BanTypesEnum::CONTENT).push(rule),
        rule_matches(rule, event.content@) ==> after.decision_for(event, ip) == Decision::Deny,
{
    assert(after.rules_of(BanTypesEnum::CONTENT) == before.rules_of(BanTypesEnum::CONTENT).push(rule));
    if rule_matches(rule, event.content@) {
        let k = after.words@.len() - 1;
        assert(after.words@[k] == rule);
        assert(after.content_denied(event.content@));
        assert(after.denials(event, ip).len() > 0);
    }
}

/// The store built from a snapshot that could not be read or parsed lists
/// nothing in any category.
pub proof fn lemma_failed_load_lists_nothing(store: BanHammer)
    requires
        store.is_empty(),
    ensures
        forall|c: BanTypesEnum| #[trigger] store.rules_of(c) == Seq::<Ban>::empty(),
{
    assert forall|c: BanTypesEnum| #[trigger] store.rules_of(c) == Seq::<Ban>::empty() by {
        assert(store.rules_of(c).len() == 0);
    }
}

/// Appending content rules one after another, each to the store that the
/// previous append left, leaves the first store's content rules followed by
/// the appended ones, in the order of appending.
pub proof fn lemma_appends_listed_in_order(stores: Seq<BanHammer>, rules: Seq<Ban>)
    requires
        stores.len() == rules.len() + 1,
        forall|i: int| 0 <= i < rules.len() ==> (#[trigger] rules[i]).ban_type == BanTypesEnum::CONTENT,
        forall|i: int|
            #![trigger rules[i]]
            0 <= i < rules.len() ==> stores[i + 1].appended(stores[i], rules[i]),
    ensures
        stores.last().rules_of(BanTypesEnum::CONTENT) == stores[0].rules_of(BanTypesEnum::CONTENT)
            + rules,
    decreases rules.len(),
{
    let first = stores[0].rules_of(BanTypesEnum::CONTENT);
    if rules.len() == 0 {
        assert(first + rules =~= first);
    } else {
        let n = rules.len() - 1;
        let earlier = stores.drop_last();
        let prefix = rules.drop_last();
        assert forall|i: int| 0 <= i < prefix.len() implies earlier[i + 1].appended(
            earlier[i],
            #[trigger] prefix[i],
        ) by {
            assert(rules[i] == prefix[i]);
        }
        lemma_appends_listed_in_order(earlier, prefix);
        assert(stores[n + 1].appended(stores[n], rules[n]));
        assert(stores[n + 1].rules_of(BanTypesEnum::CONTENT) == stores[n].rules_of(
            BanTypesEnum::CONTENT,
        ).push(rules[n]));
        assert(first + rules =~= (first + prefix).push(rules[n]));
    }
}

} // verus!
