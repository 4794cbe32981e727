//! The engine's guarantees, stated and proved over the same spec functions
//! the executable contracts use: idempotent reruns, identity stability under
//! case-only renames, content-addressed icon reuse, adoption instead of
//! duplicate creation, and dry-run purity.

use crate::config::{BadgeConfig, DeveloperProductConfig, GamePassConfig, PrivateServerCost};
use crate::errors::Kind;
use crate::hashing::{hex_of, sha256_of};
use crate::reconcile::{
    badge_declared, changes_spec, committed_badge, committed_developer_product,
    committed_game_pass, decide_spec, developer_product_declared, game_pass_declared,
    icon_plan_spec, identity_spec, metadata_changes, plan_fails, Action, ChangedField, Declared,
    IconPlan,
};
use crate::state::{find_by_name_spec, upsert, ResourceState};
use crate::text::{lower_of, opt_str_eqv};
use crate::universe::{cost_body_spec, universe_action_spec, UniverseAction};
use vstd::prelude::*;

verus! {

/// A ledger entry records exactly what is declared: every compared field
/// agrees, the stored icon hash is the current one, and (for kinds that
/// upload) an asset id is recorded whenever an icon is.
pub open spec fn entry_reflects(d: Declared, e: ResourceState, icon_hash: Option<String>) -> bool {
    &&& e.name@ == d.name@
    &&& opt_str_eqv(e.description, d.description)
    &&& (d.kind != Kind::Badge ==> e.price == d.price)
    &&& (d.kind == Kind::GamePass ==> e.is_for_sale == d.is_for_sale)
    &&& (d.kind == Kind::Badge || d.kind == Kind::DeveloperProduct ==> e.is_enabled
        == d.is_enabled)
    &&& opt_str_eqv(e.icon_hash, icon_hash)
    &&& (d.kind != Kind::Badge && icon_hash is Some ==> e.icon_asset_id is Some)
}

/// A ledger entry that reflects the declaration yields no changes, never
/// needs an upload, and the decision is an unconditional skip at its id,
/// whatever the remote listing answered.
pub proof fn lemma_reflected_entry_skips(
    d: Declared,
    id: u64,
    e: ResourceState,
    remote_id: Option<u64>,
    icon_hash: Option<String>,
    has_creator: bool,
    dry_run: bool,
)
    requires
        entry_reflects(d, e, icon_hash),
    ensures
        icon_plan_spec(d.kind, icon_hash, Some(e)) != IconPlan::Upload,
        icon_plan_spec(d.kind, icon_hash, Some(e)) != IconPlan::Refresh,
        !plan_fails(icon_plan_spec(d.kind, icon_hash, Some(e)), has_creator, dry_run),
        changes_spec(d.kind, Some((id, e)), d, icon_plan_spec(d.kind, icon_hash, Some(e)))
            == Seq::<ChangedField>::empty(),
        decide_spec(identity_spec(Some((id, e)), remote_id), false, dry_run) == (Action::Skip {
            id,
        }),
{
    assert(metadata_changes(d.kind, e, d) =~= Seq::<ChangedField>::empty());
    assert(changes_spec(d.kind, Some((id, e)), d, icon_plan_spec(d.kind, icon_hash, Some(e)))
        =~= Seq::<ChangedField>::empty());
}

/// After an entry is written, a lookup of a name it matches finds exactly it,
/// provided no other entry collides with that name case-insensitively.
pub proof fn lemma_find_after_upsert(
    entries: Seq<(u64, ResourceState)>,
    id: u64,
    r: ResourceState,
    name: Seq<char>,
)
    requires
        lower_of(r.name@) == lower_of(name),
        forall|k: int|
            0 <= k < entries.len() && entries[k].0 != id ==> #[trigger] lower_of(
                entries[k].1.name@,
            ) != lower_of(name),
    ensures
        find_by_name_spec(upsert(entries, id, r), name) == Some((id, r)),
    decreases entries.len(),
{
    if entries.len() == 0 {
        assert(upsert(entries, id, r)[0] == (id, r));
    } else if entries[0].0 == id {
        assert(upsert(entries, id, r)[0] == (id, r));
    } else {
        assert(forall|k: int|
            0 <= k < entries.skip(1).len() ==> entries.skip(1)[k] == entries[k + 1]);
        lemma_find_after_upsert(entries.skip(1), id, r, name);
        let u = upsert(entries, id, r);
        assert(u[0] == entries[0]);
        assert(u.skip(1) =~= upsert(entries.skip(1), id, r));
    }
}

/// Idempotence for game passes: after a run records a pass in the ledger, a
/// second run with the same declaration and unchanged icon bytes finds that
/// entry, detects no changes, and skips — no create or update call.
pub proof fn lemma_game_pass_second_run_skips(
    entries: Seq<(u64, ResourceState)>,
    pass: GamePassConfig,
    id: u64,
    icon_hash: Option<String>,
    asset_id: Option<u64>,
    remote_id: Option<u64>,
    has_creator: bool,
    dry_run: bool,
)
    requires
        icon_hash is Some ==> asset_id is Some,
        forall|k: int|
            0 <= k < entries.len() && entries[k].0 != id ==> #[trigger] lower_of(
                entries[k].1.name@,
            ) != lower_of(pass.name@),
    ensures
        ({
            let committed = committed_game_pass(pass, icon_hash, asset_id);
            let d = game_pass_declared(pass);
            let icon = icon_plan_spec(d.kind, icon_hash, Some(committed));
            &&& find_by_name_spec(upsert(entries, id, committed), pass.name@) == Some(
                (id, committed),
            )
            &&& changes_spec(d.kind, Some((id, committed)), d, icon) == Seq::<
                ChangedField,
            >::empty()
            &&& !plan_fails(icon, has_creator, dry_run)
            &&& decide_spec(identity_spec(Some((id, committed)), remote_id), false, dry_run)
                == (Action::Skip { id })
        }),
{
    let committed = committed_game_pass(pass, icon_hash, asset_id);
    let d = game_pass_declared(pass);
    assert(entry_reflects(d, committed, icon_hash));
    lemma_reflected_entry_skips(d, id, committed, remote_id, icon_hash, has_creator, dry_run);
    lemma_find_after_upsert(entries, id, committed, pass.name@);
}

/// Idempotence for developer products, as for game passes.
pub proof fn lemma_developer_product_second_run_skips(
    entries: Seq<(u64, ResourceState)>,
    prod: DeveloperProductConfig,
    id: u64,
    icon_hash: Option<String>,
    asset_id: Option<u64>,
    remote_id: Option<u64>,
    has_creator: bool,
    dry_run: bool,
)
    requires
        icon_hash is Some ==> asset_id is Some,
        forall|k: int|
            0 <= k < entries.len() && entries[k].0 != id ==> #[trigger] lower_of(
                entries[k].1.name@,
            ) != lower_of(prod.name@),
    ensures
        ({
            let committed = committed_developer_product(prod, icon_hash, asset_id);
            let d = developer_product_declared(prod);
            let icon = icon_plan_spec(d.kind, icon_hash, Some(committed));
            &&& find_by_name_spec(upsert(entries, id, committed), prod.name@) == Some(
                (id, committed),
            )
            &&& changes_spec(d.kind, Some((id, committed)), d, icon) == Seq::<
                ChangedField,
            >::empty()
            &&& !plan_fails(icon, has_creator, dry_run)
            &&& decide_spec(identity_spec(Some((id, committed)), remote_id), false, dry_run)
                == (Action::Skip { id })
        }),
{
    let committed = committed_developer_product(prod, icon_hash, asset_id);
    let d = developer_product_declared(prod);
    assert(entry_reflects(d, committed, icon_hash));
    lemma_reflected_entry_skips(d, id, committed, remote_id, icon_hash, has_creator, dry_run);
    lemma_find_after_upsert(entries, id, committed, prod.name@);
}

/// Idempotence for badges, as for game passes; a badge stores no asset id.
pub proof fn lemma_badge_second_run_skips(
    entries: Seq<(u64, ResourceState)>,
    badge: BadgeConfig,
    id: u64,
    icon_hash: Option<String>,
    remote_id: Option<u64>,
    dry_run: bool,
)
    requires
        forall|k: int|
            0 <= k < entries.len() && entries[k].0 != id ==> #[trigger] lower_of(
                entries[k].1.name@,
            ) != lower_of(badge.name@),
    ensures
        ({
            let committed = committed_badge(badge, icon_hash);
            let d = badge_declared(badge);
            let icon = icon_plan_spec(d.kind, icon_hash, Some(committed));
            &&& find_by_name_spec(upsert(entries, id, committed), badge.name@) == Some(
                (id, committed),
            )
            &&& changes_spec(d.kind, Some((id, committed)), d, icon) == Seq::<
                ChangedField,
            >::empty()
            &&& decide_spec(identity_spec(Some((id, committed)), remote_id), false, dry_run)
                == (Action::Skip { id })
        }),
{
    let committed = committed_badge(badge, icon_hash);
    let d = badge_declared(badge);
    assert(entry_reflects(d, committed, icon_hash));
    lemma_reflected_entry_skips(d, id, committed, remote_id, icon_hash, true, dry_run);
    lemma_find_after_upsert(entries, id, committed, badge.name@);
}

/// Identity stability: when the ledger matched a declared resource whose
/// exact name differs (a case-only rename), the plan keeps the ledgered id,
/// reports the name first among the changed fields, and updates rather than
/// creating.
pub proof fn lemma_rename_keeps_identity(
    d: Declared,
    id: u64,
    e: ResourceState,
    remote_id: Option<u64>,
    icon_hash: Option<String>,
)
    requires
        e.name@ != d.name@,
    ensures
        ({
            let icon = icon_plan_spec(d.kind, icon_hash, Some(e));
            let changes = changes_spec(d.kind, Some((id, e)), d, icon);
            &&& changes.len() > 0
            &&& changes[0] == ChangedField::Name
            &&& changes.contains(ChangedField::Name)
            &&& identity_spec(Some((id, e)), remote_id) == Some(id)
            &&& decide_spec(identity_spec(Some((id, e)), remote_id), changes.len() > 0, false)
                == (Action::Update { id })
        }),
{
    let icon = icon_plan_spec(d.kind, icon_hash, Some(e));
    let changes = changes_spec(d.kind, Some((id, e)), d, icon);
    assert(metadata_changes(d.kind, e, d)[0] == ChangedField::Name);
    assert(changes[0] == ChangedField::Name);
    assert(changes.contains(ChangedField::Name)) by {
        assert(changes[0] == ChangedField::Name);
    }
}

/// Content addressing: an icon whose bytes hash to what the ledger records,
/// with an asset id at hand, is reused — never re-uploaded — whatever file
/// name or path the bytes came from.
pub proof fn lemma_unchanged_bytes_reuse(
    kind: Kind,
    e: ResourceState,
    bytes: Seq<u8>,
    h: String,
    aid: u64,
)
    requires
        kind != Kind::Badge,
        h@ == hex_of(sha256_of(bytes)),
        e.icon_hash matches Some(h0) && h0@ == hex_of(sha256_of(bytes)),
        e.icon_asset_id == Some(aid),
    ensures
        icon_plan_spec(kind, Some(h), Some(e)) == (IconPlan::Reuse { asset_id: aid }),
{
}

/// Content addressing, the other direction: a stored hash that differs from
/// the current one forces an upload.
pub proof fn lemma_changed_bytes_upload(kind: Kind, e: ResourceState, h: String)
    requires
        kind != Kind::Badge,
        match e.icon_hash {
            Some(h0) => h0@ != h@,
            None => true,
        },
    ensures
        icon_plan_spec(kind, Some(h), Some(e)) == IconPlan::Upload,
{
}

/// Adoption: with no ledger entry and a same-named listing entry, the plan
/// binds the listing's remote id and never creates a duplicate.
pub proof fn lemma_adoption(rid: u64, has_changes: bool, dry_run: bool)
    ensures
        identity_spec(None, Some(rid)) == Some(rid),
        decide_spec(Some(rid), has_changes, dry_run) != Action::Create,
        decide_spec(Some(rid), has_changes, dry_run) != Action::CreateIntent,
        match decide_spec(Some(rid), has_changes, dry_run) {
            Action::Skip { id } => id == rid,
            Action::UpdateIntent { id } => id == rid,
            Action::Update { id } => id == rid,
            _ => false,
        },
{
}

/// Dry-run purity: whatever was detected, a dry run never plans a create or
/// update call, for resources or for the universe singleton; with no
/// mutating action planned, no ledger write follows either.
pub proof fn lemma_dry_run_pure(identity: Option<u64>, has_changes: bool)
    ensures
        !(decide_spec(identity, has_changes, true) is Create),
        !(decide_spec(identity, has_changes, true) is Update),
        universe_action_spec(has_changes, true) != UniverseAction::Update,
{
}

/// The private-server cost encoding: disabled turns private servers off and
/// sends no price; free allows them at price 0; paid allows them at the
/// declared price.
pub proof fn lemma_private_server_cost_encoding(p: u32)
    ensures
        cost_body_spec(Some(PrivateServerCost::Disabled), true) == (
            Some(false),
            None::<u32>,
        ),
        cost_body_spec(Some(PrivateServerCost::Free), true) == (Some(true), Some(0u32)),
        cost_body_spec(Some(PrivateServerCost::Paid(p)), true) == (Some(true), Some(p)),
{
}

} // verus!
