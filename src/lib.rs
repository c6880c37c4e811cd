//! Ban matching and admission decisions for incoming events, with a rule
//! store that an administrative surface may change while the service runs.

pub mod category;
pub mod config;
pub mod cli;
pub mod encoding;
pub mod engine;
pub mod laws;
pub mod matcher;
pub mod rule;
pub mod store;
pub mod text;

pub use category::{BanType, BanTypesEnum};
pub use cli::{
    add_request, category_word, remove_request, InputFormatter, InputValidator, InputValidators, ValidatorKind,
};
pub use config::{
    App, AuthorizationServerConfig, BanTypeOptionEnum, CliOptions, EventAuthz, Subcommands,
    DEFAULT_ADDRESS, DEFAULT_BANLIST,
};
pub use engine::{Admission, AuditEntry, Decision, Event, TagEntry};
pub use laws::{
    lemma_absent_ip_denies, lemma_appended_content_rule_applies, lemma_appends_listed_in_order, lemma_failed_load_lists_nothing, lemma_invalid_regex_never_matches,
    lemma_plain_rule_is_substring, lemma_unencodable_identity_denies,
};
pub use matcher::{matches_any, matches_rule};
pub use rule::{AddBanRequest, Ban, BanItem, RemoveBanRequest};
pub use store::BanHammer;
pub use text::{chars_of, contains, str_eq};
