//! Declared configuration: the universe singleton, creator identity, and the
//! per-kind lists of monetization resources, together with the three-state
//! private-server cost encoding.

use crate::text::{lower_of, lowercase, string_eq, dec_str, u64_to_dec_string};
use vstd::prelude::*;

verus! {

/// Private server cost configuration:
/// - `Disabled` = private servers are not allowed
/// - `Free` = private servers are free (cost 0)
/// - `Paid(c)` = private servers cost the given amount
#[derive(Debug, Clone, Copy, PartialEq, Eq, Structural)]
pub enum PrivateServerCost {
    Disabled,
    Free,
    Paid(u32),
}

/// The wire value a configuration file supplies for the private-server cost:
/// one scalar that collapses the three logical states.
#[derive(Debug, Clone)]
pub enum CostScalar {
    Text(String),
    UInt(u64),
    Int(i64),
}

/// Why a declared private-server cost was rejected.
#[derive(Debug, Clone, PartialEq)]
pub enum CostParseError {
    /// The text is neither "disabled" nor "free", in any case.
    Invalid { value: String },
    /// The number does not fit the paid-cost range.
    TooLarge,
    /// A cost cannot be negative.
    Negative,
}

impl CostParseError {
    /// The human-readable description of the rejection.
    pub fn message(&self) -> (r: String)
        ensures
            match self {
                CostParseError::Invalid { value } => r@ == "invalid private_server_cost: '"@
                    + value@ + "'. Use 'disabled', 0 (free), or a positive number"@,
                CostParseError::TooLarge => r@ == "private_server_cost too large"@,
                CostParseError::Negative => r@ == "private_server_cost cannot be negative"@,
            },
    {
        match self {
            CostParseError::Invalid { value } => {
                let mut s = "invalid private_server_cost: '".to_owned();
                s.append(value.as_str());
                s.append("'. Use 'disabled', 0 (free), or a positive number");
                s
            },
            CostParseError::TooLarge => "private_server_cost too large".to_owned(),
            CostParseError::Negative => "private_server_cost cannot be negative".to_owned(),
        }
    }
}

/// Reads the scalar wire value of a private-server cost: the text "disabled"
/// or "free" in any case, or a non-negative number, 0 meaning free and a
/// positive value meaning paid.
pub fn private_server_cost_from_scalar(v: &CostScalar) -> (r: Result<
    PrivateServerCost,
    CostParseError,
>)
    ensures
        match v {
            CostScalar::Text(s) => {
                if lower_of(s@) == "disabled"@ {
                    r == Result::<PrivateServerCost, CostParseError>::Ok(
                        PrivateServerCost::Disabled,
                    )
                } else if lower_of(s@) == "free"@ {
                    r == Result::<PrivateServerCost, CostParseError>::Ok(PrivateServerCost::Free)
                } else {
                    r matches Result::Err(CostParseError::Invalid { value }) && value@ == s@
                }
            },
            CostScalar::UInt(u) => r == cost_of_unsigned(*u),
            CostScalar::Int(i) => {
                if *i < 0 {
                    r == Result::<PrivateServerCost, CostParseError>::Err(CostParseError::Negative)
                } else {
                    r == cost_of_unsigned(*i as u64)
                }
            },
        },
{
    match v {
        CostScalar::Text(s) => {
            let l = lowercase(s.as_str());
            if string_eq(&l, &"disabled".to_owned()) {
                Ok(PrivateServerCost::Disabled)
            } else if string_eq(&l, &"free".to_owned()) {
                Ok(PrivateServerCost::Free)
            } else {
                Err(CostParseError::Invalid { value: s.clone() })
            }
        },
        CostScalar::UInt(u) => cost_from_unsigned(*u),
        CostScalar::Int(i) => {
            if *i < 0 {
                Err(CostParseError::Negative)
            } else {
                cost_from_unsigned(*i as u64)
            }
        },
    }
}

/// What a non-negative numeric wire value means: 0 is free, a value in range
/// is a paid cost, anything larger is rejected.
pub open spec fn cost_of_unsigned(u: u64) -> Result<PrivateServerCost, CostParseError> {
    if u == 0 {
        Result::Ok(PrivateServerCost::Free)
    } else if u <= u32::MAX {
        Result::Ok(PrivateServerCost::Paid(u as u32))
    } else {
        Result::Err(CostParseError::TooLarge)
    }
}

fn cost_from_unsigned(u: u64) -> (r: Result<PrivateServerCost, CostParseError>)
    ensures
        r == cost_of_unsigned(u),
{
    if u == 0 {
        Ok(PrivateServerCost::Free)
    } else if u <= u32::MAX as u64 {
        Ok(PrivateServerCost::Paid(u as u32))
    } else {
        Err(CostParseError::TooLarge)
    }
}

/// Writes a private-server cost back to its scalar wire value: "disabled" as
/// text, free as 0, paid as the cost.
pub fn private_server_cost_to_scalar(c: &PrivateServerCost) -> (r: CostScalar)
    ensures
        match c {
            PrivateServerCost::Disabled => r matches CostScalar::Text(s) && s@ == "disabled"@,
            PrivateServerCost::Free => r == CostScalar::UInt(0u64),
            PrivateServerCost::Paid(x) => r == CostScalar::UInt(*x as u64),
        },
{
    match c {
        PrivateServerCost::Disabled => CostScalar::Text("disabled".to_owned()),
        PrivateServerCost::Free => CostScalar::UInt(0),
        PrivateServerCost::Paid(x) => CostScalar::UInt(*x as u64),
    }
}

/// The ledger's text encoding of a private-server cost: "disabled", or the
/// decimal cost, 0 meaning free.
pub open spec fn cost_state_str(c: PrivateServerCost) -> Seq<char> {
    match c {
        PrivateServerCost::Disabled => "disabled"@,
        PrivateServerCost::Free => "0"@,
        PrivateServerCost::Paid(x) => dec_str(x as nat),
    }
}

/// Renders a private-server cost as the ledger stores it.
pub fn private_server_cost_state_string(c: &PrivateServerCost) -> (r: String)
    ensures
        r@ == cost_state_str(*c),
{
    match c {
        PrivateServerCost::Disabled => "disabled".to_owned(),
        PrivateServerCost::Free => "0".to_owned(),
        PrivateServerCost::Paid(x) => u64_to_dec_string(*x as u64),
    }
}

/// Environment-supplied credentials: a static API key for resource CRUD and
/// asset upload, and an optional session cookie for universe configuration.
#[derive(Debug, Clone)]
pub struct Config {
    pub api_key: String,
    /// Session cookie for the universe-configuration endpoint.
    pub roblox_cookie: Option<String>,
}

/// The declared project configuration: the universe singleton, an optional
/// creator identity, an assets base directory, and the per-kind resource
/// declarations.
#[derive(Debug, Clone)]
pub struct RbxSyncConfig {
    pub assets_dir: String,
    pub creator: Option<CreatorConfig>,
    pub universe: UniverseConfig,
    pub game_passes: Vec<GamePassConfig>,
    pub developer_products: Vec<DeveloperProductConfig>,
    pub badges: Vec<BadgeConfig>,
    pub places: Vec<PlaceConfig>,
    /// Payment source for badge creation: "user" or "group".
    pub badge_payment_source: Option<String>,
}

/// The assets directory used when the configuration names none.
pub fn default_assets_dir() -> (r: String)
    ensures
        r@ == "assets"@,
{
    "assets".to_owned()
}

/// The identity that owns uploaded assets: a user or a group, by id.
#[derive(Debug, Clone)]
pub struct CreatorConfig {
    pub id: String,
    /// "user" or "group".
    pub creator_type: String,
}

/// Declared universe settings; only the id is required.
#[derive(Debug, Clone)]
pub struct UniverseConfig {
    pub id: u64,
    pub name: Option<String>,
    pub description: Option<String>,
    pub genre: Option<String>,
    pub playable_devices: Option<Vec<String>>,
    pub max_players: Option<u32>,
    pub private_server_cost: Option<PrivateServerCost>,
}

impl UniverseConfig {
    /// Whether any universe setting beyond the id is declared.
    pub fn has_settings(&self) -> (r: bool)
        ensures
            r == (self.name is Some || self.description is Some || self.genre is Some
                || self.playable_devices is Some || self.max_players is Some
                || self.private_server_cost is Some),
    {
        self.name.is_some() || self.description.is_some() || self.genre.is_some()
            || self.playable_devices.is_some() || self.max_players.is_some()
            || self.private_server_cost.is_some()
    }
}

/// A declared game pass.
#[derive(Debug, Clone)]
pub struct GamePassConfig {
    pub name: String,
    pub description: Option<String>,
    pub price: Option<u32>,
    pub icon: Option<String>,
    pub is_for_sale: Option<bool>,
}

/// A declared developer product.
#[derive(Debug, Clone)]
pub struct DeveloperProductConfig {
    pub name: String,
    pub description: Option<String>,
    pub price: u32,
    pub icon: Option<String>,
    pub is_active: Option<bool>,
}

/// A declared badge.
#[derive(Debug, Clone)]
pub struct BadgeConfig {
    pub name: String,
    pub description: Option<String>,
    pub icon: Option<String>,
    pub is_enabled: Option<bool>,
}

/// A declared place file, published on request.
#[derive(Debug, Clone)]
pub struct PlaceConfig {
    pub place_id: u64,
    pub file_path: String,
    pub publish: bool,
}

} // verus!
