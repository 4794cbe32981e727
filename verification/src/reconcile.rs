//! The reconciler: per resource, resolve identity against ledger and remote
//! listing, diff the declared fields against the ledger snapshot, and decide
//! create, update or skip. Icon changes are detected only by content hash.

use crate::config::{BadgeConfig, DeveloperProductConfig, GamePassConfig};
use crate::errors::{Kind, SyncError};
use crate::remote::{remote_find_spec, RemoteEntry};
use crate::state::{find_by_name_spec, upsert, ResourceState, SyncState};
use crate::text::{contains_seq, lower_of, opt_str_eqv, opt_string_eq, string_eq};
use vstd::prelude::*;

verus! {

/// A field whose declared value differs from the ledger snapshot.
#[derive(Debug, Clone, Copy, PartialEq, Eq, Structural)]
pub enum ChangedField {
    Name,
    Description,
    Price,
    IsForSale,
    IsEnabled,
    Icon,
    Genre,
    PlayableDevices,
    MaxPlayers,
    PrivateServerCost,
}

impl ChangedField {
    /// The field's name as reports print it.
    pub fn label(&self) -> (r: String)
        ensures
            match self {
                ChangedField::Name => r@ == "name"@,
                ChangedField::Description => r@ == "description"@,
                ChangedField::Price => r@ == "price"@,
                ChangedField::IsForSale => r@ == "is_for_sale"@,
                ChangedField::IsEnabled => r@ == "is_enabled"@,
                ChangedField::Icon => r@ == "icon"@,
                ChangedField::Genre => r@ == "genre"@,
                ChangedField::PlayableDevices => r@ == "playable_devices"@,
                ChangedField::MaxPlayers => r@ == "max_players"@,
                ChangedField::PrivateServerCost => r@ == "private_server_cost"@,
            },
    {
        match self {
            ChangedField::Name => "name".to_owned(),
            ChangedField::Description => "description".to_owned(),
            ChangedField::Price => "price".to_owned(),
            ChangedField::IsForSale => "is_for_sale".to_owned(),
            ChangedField::IsEnabled => "is_enabled".to_owned(),
            ChangedField::Icon => "icon".to_owned(),
            ChangedField::Genre => "genre".to_owned(),
            ChangedField::PlayableDevices => "playable_devices".to_owned(),
            ChangedField::MaxPlayers => "max_players".to_owned(),
            ChangedField::PrivateServerCost => "private_server_cost".to_owned(),
        }
    }
}

/// The declared fields of one resource, reduced to the shape the reconciler
/// compares, whatever the kind.
#[derive(Debug, Clone)]
pub struct Declared {
    pub kind: Kind,
    pub name: String,
    pub description: Option<String>,
    pub price: Option<u64>,
    pub is_for_sale: Option<bool>,
    pub is_enabled: Option<bool>,
}

/// The reconciler's view of a declared game pass.
pub open spec fn game_pass_declared(p: GamePassConfig) -> Declared {
    Declared {
        kind: Kind::GamePass,
        name: p.name,
        description: p.description,
        price: match p.price {
            Some(x) => Some(x as u64),
            None => None,
        },
        is_for_sale: p.is_for_sale,
        is_enabled: None,
    }
}

/// The reconciler's view of a declared developer product; its active flag is
/// the kind's enabled flag.
pub open spec fn developer_product_declared(p: DeveloperProductConfig) -> Declared {
    Declared {
        kind: Kind::DeveloperProduct,
        name: p.name,
        description: p.description,
        price: Some(p.price as u64),
        is_for_sale: None,
        is_enabled: p.is_active,
    }
}

/// The reconciler's view of a declared badge.
pub open spec fn badge_declared(b: BadgeConfig) -> Declared {
    Declared {
        kind: Kind::Badge,
        name: b.name,
        description: b.description,
        price: None,
        is_for_sale: None,
        is_enabled: b.is_enabled,
    }
}

fn declared_of_game_pass(p: &GamePassConfig) -> (d: Declared)
    ensures
        d.kind == game_pass_declared(*p).kind,
        d.name@ == game_pass_declared(*p).name@,
        opt_str_eqv(d.description, game_pass_declared(*p).description),
        d.price == game_pass_declared(*p).price,
        d.is_for_sale == game_pass_declared(*p).is_for_sale,
        d.is_enabled == game_pass_declared(*p).is_enabled,
{
    Declared {
        kind: Kind::GamePass,
        name: p.name.clone(),
        description: p.description.clone(),
        price: match p.price {
            Some(x) => Some(x as u64),
            None => None,
        },
        is_for_sale: p.is_for_sale,
        is_enabled: None,
    }
}

fn declared_of_developer_product(p: &DeveloperProductConfig) -> (d: Declared)
    ensures
        d.kind == developer_product_declared(*p).kind,
        d.name@ == developer_product_declared(*p).name@,
        opt_str_eqv(d.description, developer_product_declared(*p).description),
        d.price == developer_product_declared(*p).price,
        d.is_for_sale == developer_product_declared(*p).is_for_sale,
        d.is_enabled == developer_product_declared(*p).is_enabled,
{
    Declared {
        kind: Kind::DeveloperProduct,
        name: p.name.clone(),
        description: p.description.clone(),
        price: Some(p.price as u64),
        is_for_sale: None,
        is_enabled: p.is_active,
    }
}

fn declared_of_badge(b: &BadgeConfig) -> (d: Declared)
    ensures
        d.kind == badge_declared(*b).kind,
        d.name@ == badge_declared(*b).name@,
        opt_str_eqv(d.description, badge_declared(*b).description),
        d.price == badge_declared(*b).price,
        d.is_for_sale == badge_declared(*b).is_for_sale,
        d.is_enabled == badge_declared(*b).is_enabled,
{
    Declared {
        kind: Kind::Badge,
        name: b.name.clone(),
        description: b.description.clone(),
        price: None,
        is_for_sale: None,
        is_enabled: b.is_enabled,
    }
}

/// What the run does with an icon, decided by content hash alone.
#[derive(Debug, Clone, Copy, PartialEq, Eq, Structural)]
pub enum IconPlan {
    /// No icon is declared (or, for a badge, the file was absent).
    NoIcon,
    /// The ledger records the same hash and an asset id: reuse it, no upload.
    Reuse { asset_id: u64 },
    /// The bytes are new: the asset must be uploaded before applying.
    Upload,
    /// A badge icon's bytes changed: send the new image with the write.
    Refresh,
    /// A badge icon's bytes match the ledger: nothing to send.
    Unchanged,
}

/// What the decision table chose for one resource.
#[derive(Debug, Clone, Copy, PartialEq, Eq, Structural)]
pub enum Action {
    /// Existing, no changes: report and move on.
    Skip { id: u64 },
    /// Dry run only: a create would happen; no mutation.
    CreateIntent,
    /// Dry run only: an update would happen; no mutation.
    UpdateIntent { id: u64 },
    /// Perform the create call.
    Create,
    /// Perform the update call.
    Update { id: u64 },
}

/// Everything decided for one resource before any gateway write.
#[derive(Debug, Clone)]
pub struct Plan {
    pub action: Action,
    pub changes: Vec<ChangedField>,
    pub icon: IconPlan,
    /// The current content hash of the declared icon's bytes, if any.
    pub icon_hash: Option<String>,
}

/// The declared metadata fields that differ from the ledger snapshot, in the
/// order reports list them. Which fields a kind compares is fixed: name and
/// description always, price for passes and products, the sale flag for
/// passes, the enabled flag for badges and products.
pub open spec fn metadata_changes(kind: Kind, e: ResourceState, d: Declared) -> Seq<ChangedField> {
    let s0 = Seq::<ChangedField>::empty();
    let s1 = if e.name@ != d.name@ {
        s0.push(ChangedField::Name)
    } else {
        s0
    };
    let s2 = if !opt_str_eqv(e.description, d.description) {
        s1.push(ChangedField::Description)
    } else {
        s1
    };
    let s3 = if kind != Kind::Badge && e.price != d.price {
        s2.push(ChangedField::Price)
    } else {
        s2
    };
    let s4 = if kind == Kind::GamePass && e.is_for_sale != d.is_for_sale {
        s3.push(ChangedField::IsForSale)
    } else {
        s3
    };
    if (kind == Kind::Badge || kind == Kind::DeveloperProduct) && e.is_enabled != d.is_enabled {
        s4.push(ChangedField::IsEnabled)
    } else {
        s4
    }
}

/// The icon decision: a pass or product reuses the recorded asset only when
/// the ledger holds the same hash and an asset id, and uploads otherwise; a
/// badge sends its image again exactly when the hash differs from the ledger.
pub open spec fn icon_plan_spec(
    kind: Kind,
    hash: Option<String>,
    entry: Option<ResourceState>,
) -> IconPlan {
    match hash {
        None => IconPlan::NoIcon,
        Some(h) => {
            let stored_matches = match entry {
                Some(e) => match e.icon_hash {
                    Some(h0) => h0@ == h@,
                    None => false,
                },
                None => false,
            };
            if kind == Kind::Badge {
                if stored_matches {
                    IconPlan::Unchanged
                } else {
                    IconPlan::Refresh
                }
            } else {
                let stored_asset = match entry {
                    Some(e) => e.icon_asset_id,
                    None => None,
                };
                match stored_asset {
                    Some(aid) => {
                        if stored_matches {
                            IconPlan::Reuse { asset_id: aid }
                        } else {
                            IconPlan::Upload
                        }
                    },
                    None => IconPlan::Upload,
                }
            }
        },
    }
}

/// The full changed-fields list: metadata diffs when the ledger knows the
/// resource, plus the icon when its content hash changed.
pub open spec fn changes_spec(
    kind: Kind,
    hit: Option<(u64, ResourceState)>,
    d: Declared,
    icon: IconPlan,
) -> Seq<ChangedField> {
    let m = match hit {
        Some(p) => metadata_changes(kind, p.1, d),
        None => Seq::<ChangedField>::empty(),
    };
    if icon == IconPlan::Upload || icon == IconPlan::Refresh {
        m.push(ChangedField::Icon)
    } else {
        m
    }
}

/// Identity resolution, first hit wins: the ledger's id, else the remote
/// listing's id (adoption), else none (a create).
pub open spec fn identity_spec(hit: Option<(u64, ResourceState)>, remote_id: Option<u64>) -> Option<
    u64,
> {
    match hit {
        Some(p) => Some(p.0),
        None => remote_id,
    }
}

/// The decision table: no identity creates (or reports the intent on a dry
/// run); an identity with changes updates (or reports the intent); an
/// identity without changes skips.
pub open spec fn decide_spec(identity: Option<u64>, has_changes: bool, dry_run: bool) -> Action {
    match identity {
        None => if dry_run {
            Action::CreateIntent
        } else {
            Action::Create
        },
        Some(id) => if has_changes {
            if dry_run {
                Action::UpdateIntent { id }
            } else {
                Action::Update { id }
            }
        } else {
            Action::Skip { id }
        },
    }
}

/// Planning fails only when an upload is owed on a live run and no creator
/// identity is configured.
pub open spec fn plan_fails(icon: IconPlan, has_creator: bool, dry_run: bool) -> bool {
    icon == IconPlan::Upload && !dry_run && !has_creator
}

fn icon_plan_exec(kind: Kind, hash: &Option<String>, entry: Option<&ResourceState>) -> (r:
    IconPlan)
    ensures
        r == icon_plan_spec(
            kind,
            *hash,
            match entry {
                Some(e) => Some(*e),
                None => None::<ResourceState>,
            },
        ),
{
    match hash {
        None => IconPlan::NoIcon,
        Some(h) => {
            let stored_matches = match entry {
                Some(e) => match &e.icon_hash {
                    Some(h0) => string_eq(h0, h),
                    None => false,
                },
                None => false,
            };
            if kind == Kind::Badge {
                if stored_matches {
                    IconPlan::Unchanged
                } else {
                    IconPlan::Refresh
                }
            } else {
                let stored_asset = match entry {
                    Some(e) => e.icon_asset_id,
                    None => None,
                };
                match stored_asset {
                    Some(aid) => {
                        if stored_matches {
                            IconPlan::Reuse { asset_id: aid }
                        } else {
                            IconPlan::Upload
                        }
                    },
                    None => IconPlan::Upload,
                }
            }
        },
    }
}

fn metadata_changes_exec(kind: Kind, e: &ResourceState, d: &Declared) -> (r: Vec<ChangedField>)
    ensures
        r@ == metadata_changes(kind, *e, *d),
{
    let mut changes: Vec<ChangedField> = Vec::new();
    if !string_eq(&e.name, &d.name) {
        changes.push(ChangedField::Name);
    }
    if !opt_string_eq(&e.description, &d.description) {
        changes.push(ChangedField::Description);
    }
    if kind != Kind::Badge && e.price != d.price {
        changes.push(ChangedField::Price);
    }
    if kind == Kind::GamePass && e.is_for_sale != d.is_for_sale {
        changes.push(ChangedField::IsForSale);
    }
    if (kind == Kind::Badge || kind == Kind::DeveloperProduct) && e.is_enabled != d.is_enabled {
        changes.push(ChangedField::IsEnabled);
    }
    proof {
        assert(changes@ =~= metadata_changes(kind, *e, *d));
    }
    changes
}

/// Plans one resource from the declared fields, the ledger hit, the adoption
/// id the remote listing offers, and the current icon content hash.
pub fn plan_resource(
    d: &Declared,
    ledger_hit: Option<(u64, &ResourceState)>,
    remote_id: Option<u64>,
    icon_hash: Option<String>,
    has_creator: bool,
    dry_run: bool,
) -> (r: Result<Plan, SyncError>)
    ensures
        ({
            let hit = match ledger_hit {
                Some(p) => Some((p.0, *p.1)),
                None => None::<(u64, ResourceState)>,
            };
            let icon = icon_plan_spec(d.kind, icon_hash, match hit {
                Some(p) => Some(p.1),
                None => None::<ResourceState>,
            });
            &&& (r is Err) <==> plan_fails(icon, has_creator, dry_run)
            &&& (r matches Err(e) ==> e is MissingCreator)
            &&& (r matches Ok(p) ==> {
                &&& p.icon == icon
                &&& p.changes@ == changes_spec(d.kind, hit, *d, icon)
                &&& p.action == decide_spec(
                    identity_spec(hit, remote_id),
                    changes_spec(d.kind, hit, *d, icon).len() > 0,
                    dry_run,
                )
                &&& p.icon_hash == icon_hash
            })
        }),
{
    let entry: Option<&ResourceState> = match &ledger_hit {
        Some(p) => Some(p.1),
        None => None,
    };
    let icon = icon_plan_exec(d.kind, &icon_hash, entry);
    if icon == IconPlan::Upload && !dry_run && !has_creator {
        return Err(SyncError::MissingCreator);
    }
    let mut changes: Vec<ChangedField> = match entry {
        Some(e) => metadata_changes_exec(d.kind, e, d),
        None => Vec::new(),
    };
    if icon == IconPlan::Upload || icon == IconPlan::Refresh {
        changes.push(ChangedField::Icon);
    }
    let identity: Option<u64> = match &ledger_hit {
        Some(p) => Some(p.0),
        None => remote_id,
    };
    let has_changes = changes.len() > 0;
    let action = match identity {
        None => if dry_run {
            Action::CreateIntent
        } else {
            Action::Create
        },
        Some(id) => if has_changes {
            if dry_run {
                Action::UpdateIntent { id }
            } else {
                Action::Update { id }
            }
        } else {
            Action::Skip { id }
        },
    };
    Ok(Plan { action, changes, icon, icon_hash })
}

/// Plans one declared game pass against the ledger and the remote listing.
pub fn plan_game_pass(
    pass: &GamePassConfig,
    state: &SyncState,
    remote: &Vec<RemoteEntry>,
    icon_hash: Option<String>,
    has_creator: bool,
    dry_run: bool,
) -> (r: Result<Plan, SyncError>)
    ensures
        ({
            let d = game_pass_declared(*pass);
            let hit = find_by_name_spec(state.game_passes@, pass.name@);
            let remote_id = remote_find_spec(remote@, pass.name@);
            let icon = icon_plan_spec(d.kind, icon_hash, match hit {
                Some(p) => Some(p.1),
                None => None::<ResourceState>,
            });
            &&& (r is Err) <==> plan_fails(icon, has_creator, dry_run)
            &&& (r matches Err(e) ==> e is MissingCreator)
            &&& (r matches Ok(p) ==> {
                &&& p.icon == icon
                &&& p.changes@ == changes_spec(d.kind, hit, d, icon)
                &&& p.action == decide_spec(
                    identity_spec(hit, remote_id),
                    changes_spec(d.kind, hit, d, icon).len() > 0,
                    dry_run,
                )
                &&& p.icon_hash == icon_hash
            })
        }),
{
    let d = declared_of_game_pass(pass);
    let hit = state.find_game_pass_by_name(pass.name.as_str());
    let remote_id = crate::remote::find_remote_by_name(remote, pass.name.as_str());
    let r = plan_resource(&d, hit, remote_id, icon_hash, has_creator, dry_run);
    proof {
        lemma_changes_respect_views(
            d.kind,
            match hit {
                Some(p) => Some((p.0, *p.1)),
                None => None::<(u64, ResourceState)>,
            },
            d,
            game_pass_declared(*pass),
        );
    }
    r
}

/// Plans one declared developer product against the ledger and the listing.
pub fn plan_developer_product(
    prod: &DeveloperProductConfig,
    state: &SyncState,
    remote: &Vec<RemoteEntry>,
    icon_hash: Option<String>,
    has_creator: bool,
    dry_run: bool,
) -> (r: Result<Plan, SyncError>)
    ensures
        ({
            let d = developer_product_declared(*prod);
            let hit = find_by_name_spec(state.developer_products@, prod.name@);
            let remote_id = remote_find_spec(remote@, prod.name@);
            let icon = icon_plan_spec(d.kind, icon_hash, match hit {
                Some(p) => Some(p.1),
                None => None::<ResourceState>,
            });
            &&& (r is Err) <==> plan_fails(icon, has_creator, dry_run)
            &&& (r matches Err(e) ==> e is MissingCreator)
            &&& (r matches Ok(p) ==> {
                &&& p.icon == icon
                &&& p.changes@ == changes_spec(d.kind, hit, d, icon)
                &&& p.action == decide_spec(
                    identity_spec(hit, remote_id),
                    changes_spec(d.kind, hit, d, icon).len() > 0,
                    dry_run,
                )
                &&& p.icon_hash == icon_hash
            })
        }),
{
    let d = declared_of_developer_product(prod);
    let hit = state.find_developer_product_by_name(prod.name.as_str());
    let remote_id = crate::remote::find_remote_by_name(remote, prod.name.as_str());
    let r = plan_resource(&d, hit, remote_id, icon_hash, has_creator, dry_run);
    proof {
        lemma_changes_respect_views(
            d.kind,
            match hit {
                Some(p) => Some((p.0, *p.1)),
                None => None::<(u64, ResourceState)>,
            },
            d,
            developer_product_declared(*prod),
        );
    }
    r
}

/// Plans one declared badge against the ledger and the remote listing.
pub fn plan_badge(
    badge: &BadgeConfig,
    state: &SyncState,
    remote: &Vec<RemoteEntry>,
    icon_hash: Option<String>,
    dry_run: bool,
) -> (r: Result<Plan, SyncError>)
    ensures
        ({
            let d = badge_declared(*badge);
            let hit = find_by_name_spec(state.badges@, badge.name@);
            let remote_id = remote_find_spec(remote@, badge.name@);
            let icon = icon_plan_spec(d.kind, icon_hash, match hit {
                Some(p) => Some(p.1),
                None => None::<ResourceState>,
            });
            &&& r is Ok
            &&& (r matches Ok(p) ==> {
                &&& p.icon == icon
                &&& p.changes@ == changes_spec(d.kind, hit, d, icon)
                &&& p.action == decide_spec(
                    identity_spec(hit, remote_id),
                    changes_spec(d.kind, hit, d, icon).len() > 0,
                    dry_run,
                )
                &&& p.icon_hash == icon_hash
            })
        }),
{
    let d = declared_of_badge(badge);
    let hit = state.find_badge_by_name(badge.name.as_str());
    let remote_id = crate::remote::find_remote_by_name(remote, badge.name.as_str());
    let r = plan_resource(&d, hit, remote_id, icon_hash, true, dry_run);
    proof {
        lemma_changes_respect_views(
            d.kind,
            match hit {
                Some(p) => Some((p.0, *p.1)),
                None => None::<(u64, ResourceState)>,
            },
            d,
            badge_declared(*badge),
        );
    }
    r
}

/// The snapshot the ledger records after a game pass is applied.
pub open spec fn committed_game_pass(
    pass: GamePassConfig,
    icon_hash: Option<String>,
    asset_id: Option<u64>,
) -> ResourceState {
    ResourceState {
        name: pass.name,
        description: pass.description,
        price: match pass.price {
            Some(x) => Some(x as u64),
            None => None,
        },
        is_for_sale: pass.is_for_sale,
        is_enabled: None,
        icon_hash,
        icon_asset_id: asset_id,
    }
}

/// Records a successfully applied game pass in the ledger, wholesale.
pub fn commit_game_pass(
    state: &mut SyncState,
    id: u64,
    pass: &GamePassConfig,
    icon_hash: Option<String>,
    asset_id: Option<u64>,
)
    ensures
        final(state).game_passes@ == upsert(
            old(state).game_passes@,
            id,
            committed_game_pass(*pass, icon_hash, asset_id),
        ),
        final(state).universe == old(state).universe,
        final(state).developer_products == old(state).developer_products,
        final(state).badges == old(state).badges,
{
    state.update_game_pass(
        id,
        pass.name.clone(),
        crate::text::clone_opt_string(&pass.description),
        match pass.price {
            Some(x) => Some(x as u64),
            None => None,
        },
        pass.is_for_sale,
        icon_hash,
        asset_id,
    );
}

/// The snapshot the ledger records after a developer product is applied.
pub open spec fn committed_developer_product(
    prod: DeveloperProductConfig,
    icon_hash: Option<String>,
    asset_id: Option<u64>,
) -> ResourceState {
    ResourceState {
        name: prod.name,
        description: prod.description,
        price: Some(prod.price as u64),
        is_for_sale: None,
        is_enabled: prod.is_active,
        icon_hash,
        icon_asset_id: asset_id,
    }
}

/// Records a successfully applied developer product in the ledger, wholesale.
pub fn commit_developer_product(
    state: &mut SyncState,
    id: u64,
    prod: &DeveloperProductConfig,
    icon_hash: Option<String>,
    asset_id: Option<u64>,
)
    ensures
        final(state).developer_products@ == upsert(
            old(state).developer_products@,
            id,
            committed_developer_product(*prod, icon_hash, asset_id),
        ),
        final(state).universe == old(state).universe,
        final(state).game_passes == old(state).game_passes,
        final(state).badges == old(state).badges,
{
    state.update_developer_product(
        id,
        prod.name.clone(),
        crate::text::clone_opt_string(&prod.description),
        Some(prod.price as u64),
        prod.is_active,
        icon_hash,
        asset_id,
    );
}

/// The snapshot the ledger records after a badge is applied. A badge never
/// stores an asset id: its icon travels with the write itself.
pub open spec fn committed_badge(badge: BadgeConfig, icon_hash: Option<String>) -> ResourceState {
    ResourceState {
        name: badge.name,
        description: badge.description,
        price: None,
        is_for_sale: None,
        is_enabled: badge.is_enabled,
        icon_hash,
        icon_asset_id: None,
    }
}

/// Records a successfully applied badge in the ledger, wholesale.
pub fn commit_badge(state: &mut SyncState, id: u64, badge: &BadgeConfig, icon_hash: Option<String>)
    ensures
        final(state).badges@ == upsert(
            old(state).badges@,
            id,
            committed_badge(*badge, icon_hash),
        ),
        final(state).universe == old(state).universe,
        final(state).game_passes == old(state).game_passes,
        final(state).developer_products == old(state).developer_products,
{
    state.update_badge(
        id,
        badge.name.clone(),
        crate::text::clone_opt_string(&badge.description),
        badge.is_enabled,
        icon_hash,
        None,
    );
}

/// The fields a create call sends: absent declared values fall back to an
/// empty description and a zero price.
#[derive(Debug, Clone)]
pub struct ResourceCreateBody {
    pub name: String,
    pub description: String,
    pub price: u64,
    pub icon_asset_id: Option<u64>,
}

/// Builds the create body for a game pass; the asset id is the one the icon
/// upload yielded, if any.
pub fn game_pass_create_body(pass: &GamePassConfig, asset_id: Option<u64>) -> (b:
    ResourceCreateBody)
    ensures
        b.name@ == pass.name@,
        b.description@ == (match pass.description {
            Some(d) => d@,
            None => Seq::<char>::empty(),
        }),
        b.price == (match pass.price {
            Some(p) => p as u64,
            None => 0u64,
        }),
        b.icon_asset_id == asset_id,
{
    ResourceCreateBody {
        name: pass.name.clone(),
        description: match &pass.description {
            Some(d) => d.clone(),
            None => String::new(),
        },
        price: match pass.price {
            Some(p) => p as u64,
            None => 0,
        },
        icon_asset_id: asset_id,
    }
}

/// Builds the create body for a developer product; its price is mandatory.
pub fn developer_product_create_body(prod: &DeveloperProductConfig, asset_id: Option<u64>) -> (b:
    ResourceCreateBody)
    ensures
        b.name@ == prod.name@,
        b.description@ == (match prod.description {
            Some(d) => d@,
            None => Seq::<char>::empty(),
        }),
        b.price == prod.price as u64,
        b.icon_asset_id == asset_id,
{
    ResourceCreateBody {
        name: prod.name.clone(),
        description: match &prod.description {
            Some(d) => d.clone(),
            None => String::new(),
        },
        price: prod.price as u64,
        icon_asset_id: asset_id,
    }
}

/// The fields a badge create call sends; the payment source travels as its
/// wire code.
#[derive(Debug, Clone)]
pub struct BadgeCreateBody {
    pub name: String,
    pub description: String,
    pub payment_source_type: Option<String>,
}

/// Builds the create body for a badge from the declaration and the
/// configured payment source.
pub fn badge_create_body(badge: &BadgeConfig, payment_source: &Option<String>) -> (b:
    BadgeCreateBody)
    ensures
        b.name@ == badge.name@,
        b.description@ == (match badge.description {
            Some(d) => d@,
            None => Seq::<char>::empty(),
        }),
        match payment_source {
            Some(s) => b.payment_source_type matches Some(code) && code@ == (if lower_of(s@)
                == "group"@ {
                "2"@
            } else {
                "1"@
            }),
            None => b.payment_source_type is None,
        },
{
    BadgeCreateBody {
        name: badge.name.clone(),
        description: match &badge.description {
            Some(d) => d.clone(),
            None => String::new(),
        },
        payment_source_type: match payment_source {
            Some(s) => Some(payment_source_type_id(s)),
            None => None,
        },
    }
}

/// The fields an update call patches: the name always, every other field only
/// where the declaration supplies it.
#[derive(Debug, Clone)]
pub struct ResourcePatchBody {
    pub name: String,
    pub description: Option<String>,
    pub price: Option<u64>,
    pub is_for_sale: Option<bool>,
    pub is_enabled: Option<bool>,
}

/// Builds the patch body for a game pass.
pub fn game_pass_patch_body(pass: &GamePassConfig) -> (b: ResourcePatchBody)
    ensures
        b.name@ == pass.name@,
        opt_str_eqv(b.description, pass.description),
        b.price == (match pass.price {
            Some(p) => Some(p as u64),
            None => None::<u64>,
        }),
        b.is_for_sale == pass.is_for_sale,
        b.is_enabled is None,
{
    ResourcePatchBody {
        name: pass.name.clone(),
        description: crate::text::clone_opt_string(&pass.description),
        price: match pass.price {
            Some(p) => Some(p as u64),
            None => None,
        },
        is_for_sale: pass.is_for_sale,
        is_enabled: None,
    }
}

/// Builds the patch body for a developer product; its price is always sent,
/// its active flag only where the declaration supplies it.
pub fn developer_product_patch_body(prod: &DeveloperProductConfig) -> (b: ResourcePatchBody)
    ensures
        b.name@ == prod.name@,
        opt_str_eqv(b.description, prod.description),
        b.price == Some(prod.price as u64),
        b.is_for_sale is None,
        b.is_enabled == prod.is_active,
{
    ResourcePatchBody {
        name: prod.name.clone(),
        description: crate::text::clone_opt_string(&prod.description),
        price: Some(prod.price as u64),
        is_for_sale: None,
        is_enabled: prod.is_active,
    }
}

/// Builds the patch body for a badge.
pub fn badge_patch_body(badge: &BadgeConfig) -> (b: ResourcePatchBody)
    ensures
        b.name@ == badge.name@,
        opt_str_eqv(b.description, badge.description),
        b.price is None,
        b.is_for_sale is None,
        b.is_enabled == badge.is_enabled,
{
    ResourcePatchBody {
        name: badge.name.clone(),
        description: crate::text::clone_opt_string(&badge.description),
        price: None,
        is_for_sale: None,
        is_enabled: badge.is_enabled,
    }
}

/// A create response must carry the new resource's id.
pub fn require_created_id(kind: Kind, id: Option<u64>) -> (r: Result<u64, SyncError>)
    ensures
        match id {
            Some(v) => r == Result::<u64, SyncError>::Ok(v),
            None => r == Result::<u64, SyncError>::Err(
                (SyncError::CreatedWithoutId { kind }),
            ),
        },
{
    match id {
        Some(v) => Ok(v),
        None => Err(SyncError::CreatedWithoutId { kind }),
    }
}

/// Whether a badge-create rejection is the known missing-payment-source
/// signature: the message names an invalid payment source or carries the
/// matching error code.
pub open spec fn is_payment_source_rejection(message: Seq<char>) -> bool {
    contains_seq(message, "Payment source is invalid"@) || contains_seq(message, "code\":16"@)
}

/// Converts a badge-create failure: the missing-payment-source signature
/// becomes the actionable error, anything else passes through.
pub fn badge_create_error(message: &String) -> (e: SyncError)
    ensures
        if is_payment_source_rejection(message@) {
            e is BadgePaymentSourceRequired
        } else {
            e matches SyncError::Remote { message: m } && m@ == message@
        },
{
    if crate::text::str_contains_str(message.as_str(), "Payment source is invalid")
        || crate::text::str_contains_str(message.as_str(), "code\":16") {
        SyncError::BadgePaymentSourceRequired
    } else {
        SyncError::Remote { message: message.clone() }
    }
}

/// The wire code for a badge payment source: group funds are 2, the user's
/// own funds are 1, and an unrecognized source falls back to the user.
pub fn payment_source_type_id(source: &String) -> (r: String)
    ensures
        if lower_of(source@) == "group"@ {
            r@ == "2"@
        } else {
            r@ == "1"@
        },
{
    let lowered = crate::text::lowercase(source.as_str());
    if crate::text::string_eq(&lowered, &"group".to_owned()) {
        "2".to_owned()
    } else {
        "1".to_owned()
    }
}

/// Two declared views that agree on every compared field (by contents, not by
/// string identity) yield the same diffs and the same icon decision.
proof fn lemma_changes_respect_views(
    kind: Kind,
    hit: Option<(u64, ResourceState)>,
    a: Declared,
    b: Declared,
)
    requires
        a.kind == b.kind,
        a.name@ == b.name@,
        opt_str_eqv(a.description, b.description),
        a.price == b.price,
        a.is_for_sale == b.is_for_sale,
        a.is_enabled == b.is_enabled,
    ensures
        forall|e: ResourceState| metadata_changes(kind, e, a) == metadata_changes(kind, e, b),
        forall|icon: IconPlan| changes_spec(kind, hit, a, icon) == changes_spec(kind, hit, b, icon),
{
}

} // verus!
