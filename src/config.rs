//! Settings of the service and of the administrative command line.

use vstd::prelude::*;

verus! {

/// The address the service listens on when none is configured.
pub const DEFAULT_ADDRESS: &'static str = "[::1]:50051";

/// The snapshot file read at start when none is configured.
pub const DEFAULT_BANLIST: &'static str = "bans.yaml";

/// The first of the two values that is present, else `fallback`.
fn first_or(a: Option<String>, b: Option<String>, fallback: &str) -> (r: String)
    ensures
        r@ == match a {
            Some(x) => x@,
            None => match b {
                Some(y) => y@,
                None => fallback@,
            },
        },
{
    match a {
        Some(x) => x,
        None => match b {
            Some(y) => y,
            None => fallback.to_owned(),
        },
    }
}

/// The options of the service: where to listen, which snapshot to load, and
/// whether changes are to be saved.
#[derive(Debug)]
pub struct App {
    pub address: Option<String>,
    pub banlist: Option<String>,
    pub save: bool,
}

impl App {
    /// Completes parsed options: a missing address or snapshot path is taken
    /// from the environment's value when there is one, else from the default.
    pub fn new(parsed: App, env_address: Option<String>, env_banlist: Option<String>) -> (r: App)
        ensures
            r.address matches Some(a) && a@ == match parsed.address {
                Some(x) => x@,
                None => match env_address {
                    Some(y) => y@,
                    None => DEFAULT_ADDRESS@,
                },
            },
            r.banlist matches Some(b) && b@ == match parsed.banlist {
                Some(x) => x@,
                None => match env_banlist {
                    Some(y) => y@,
                    None => DEFAULT_BANLIST@,
                },
            },
            r.save == parsed.save,
    {
        let address = first_or(parsed.address, env_address, DEFAULT_ADDRESS);
        let banlist = first_or(parsed.banlist, env_banlist, DEFAULT_BANLIST);
        App { address: Some(address), banlist: Some(banlist), save: parsed.save }
    }
}

/// The settings of an authorization service that reads its snapshot anew for
/// each request.
#[derive(Debug)]
pub struct EventAuthz {
    addr: String,
    dict: String,
}

impl EventAuthz {
    /// The listen address and snapshot path from the environment's values,
    /// each defaulted when absent.
    pub fn new(env_address: Option<String>, env_banlist: Option<String>) -> (r: EventAuthz)
        ensures
            r.addr()@ == match env_address {
                Some(y) => y@,
                None => DEFAULT_ADDRESS@,
            },
            r.dict()@ == match env_banlist {
                Some(y) => y@,
                None => DEFAULT_BANLIST@,
            },
    {
        EventAuthz {
            addr: first_or(None, env_address, DEFAULT_ADDRESS),
            dict: first_or(None, env_banlist, DEFAULT_BANLIST),
        }
    }

    /// The listen address.
    pub closed spec fn addr(&self) -> String {
        self.addr
    }

    /// The snapshot path.
    pub closed spec fn dict(&self) -> String {
        self.dict
    }

    /// The listen address.
    pub fn address(&self) -> (r: &String)
        ensures
            *r == self.addr(),
    {
        &self.addr
    }

    /// The snapshot path.
    pub fn banlist(&self) -> (r: &String)
        ensures
            *r == self.dict(),
    {
        &self.dict
    }
}

/// A listen address and snapshot path for the authorization service.
#[derive(Debug)]
pub struct AuthorizationServerConfig {
    pub addr: String,
    pub dict: String,
}

/// Options of the administrative command line.
#[derive(Debug, Default)]
pub struct CliOptions {
    pub save: bool,
}

/// A category as the administrative command line names it.
#[allow(non_camel_case_types)]
#[derive(Clone, Copy, Debug, PartialEq, Eq, Structural)]
pub enum BanTypeOptionEnum {
    CONTENT,
    TAG,
    USER,
    IP,
    NIP05,
    LUD16,
}

impl BanTypeOptionEnum {
    /// The numeric code sent for this category.
    pub open spec fn code_spec(&self) -> i32 {
        match *self {
            BanTypeOptionEnum::CONTENT => 0i32,
            BanTypeOptionEnum::TAG => 1i32,
            BanTypeOptionEnum::USER => 2i32,
            BanTypeOptionEnum::IP => 3i32,
            BanTypeOptionEnum::NIP05 => 4i32,
            BanTypeOptionEnum::LUD16 => 5i32,
        }
    }

    /// The numeric code sent for this category.
    pub fn code(&self) -> (r: i32)
        ensures
            r == self.code_spec(),
    {
        match self {
            BanTypeOptionEnum::CONTENT => 0,
            BanTypeOptionEnum::TAG => 1,
            BanTypeOptionEnum::USER => 2,
            BanTypeOptionEnum::IP => 3,
            BanTypeOptionEnum::NIP05 => 4,
            BanTypeOptionEnum::LUD16 => 5,
        }
    }
}

/// The commands of the administrative command line.
#[derive(Debug)]
pub enum Subcommands {
    List { ban_type: BanTypeOptionEnum },
    State,
    Add,
    Remove { index: i32, ban_type: BanTypeOptionEnum },
}

} // verus!
