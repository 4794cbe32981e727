//! The universe-configuration reconciler: a singleton with no identity
//! resolution. Declared fields are diffed against the stored snapshot, the
//! update body maps device names to small integer codes and collapses the
//! private-server cost into the allow/price pair the endpoint expects.

use crate::config::{cost_state_str, private_server_cost_state_string, PrivateServerCost, UniverseConfig};
use crate::reconcile::ChangedField;
use crate::state::{SyncState, UniverseState};
use crate::text::{clone_opt_string, clone_opt_string_vec, lower_of, opt_str_eqv, opt_str_seq_eqv, opt_string_eq, opt_string_vec_eq};
use vstd::prelude::*;

verus! {

/// What the run does with the universe singleton.
#[derive(Debug, Clone, Copy, PartialEq, Eq, Structural)]
pub enum UniverseAction {
    /// No declared field differs from the stored snapshot.
    Skip,
    /// Dry run only: an update would happen; no mutation.
    UpdateIntent,
    /// Perform the configuration update.
    Update,
}

/// The update request body, ready for the wire: only changed fields are
/// present, devices as integer codes, the cost as the allow/price pair.
#[derive(Debug, Clone)]
pub struct UniverseUpdateBody {
    pub name: Option<String>,
    pub description: Option<String>,
    pub genre: Option<String>,
    pub playable_devices: Option<Vec<u8>>,
    pub max_players: Option<u32>,
    pub allow_private_servers: Option<bool>,
    pub private_server_price: Option<u32>,
}

/// Everything decided for the universe singleton before any gateway write.
#[derive(Debug, Clone)]
pub struct UniversePlan {
    pub action: UniverseAction,
    pub changes: Vec<ChangedField>,
    /// The snapshot to record in the ledger once the update succeeds.
    pub desired: UniverseState,
    pub body: UniverseUpdateBody,
}

/// Whether a declared field is out of sync: it is declared, and the stored
/// snapshot either does not exist or holds a different value.
pub open spec fn universe_changes_of_config(stored: Option<UniverseState>, u: UniverseConfig) -> Seq<
    ChangedField,
> {
    let s0 = Seq::<ChangedField>::empty();
    let s1 = if u.name is Some && !(stored matches Some(st) && opt_str_eqv(st.name, u.name)) {
        s0.push(ChangedField::Name)
    } else {
        s0
    };
    let s2 = if u.description is Some && !(stored matches Some(st) && opt_str_eqv(
        st.description,
        u.description,
    )) {
        s1.push(ChangedField::Description)
    } else {
        s1
    };
    let s3 = if u.genre is Some && !(stored matches Some(st) && opt_str_eqv(st.genre, u.genre)) {
        s2.push(ChangedField::Genre)
    } else {
        s2
    };
    let s4 = if u.playable_devices is Some && !(stored matches Some(st) && opt_str_seq_eqv(
        st.playable_devices,
        u.playable_devices,
    )) {
        s3.push(ChangedField::PlayableDevices)
    } else {
        s3
    };
    let s5 = if u.max_players is Some && !(stored matches Some(st) && st.max_players
        == u.max_players) {
        s4.push(ChangedField::MaxPlayers)
    } else {
        s4
    };
    if u.private_server_cost is Some && !(stored matches Some(st) && cost_matches_stored(
        st.private_server_cost,
        u.private_server_cost,
    )) {
        s5.push(ChangedField::PrivateServerCost)
    } else {
        s5
    }
}

/// The stored cost text matches the declared cost's encoding.
pub open spec fn cost_matches_stored(
    stored: Option<String>,
    declared: Option<PrivateServerCost>,
) -> bool {
    match (stored, declared) {
        (Some(s), Some(c)) => s@ == cost_state_str(c),
        (None, None) => true,
        _ => false,
    }
}

/// The code a playable-device name maps to; unrecognized names are dropped.
pub open spec fn device_code_spec(d: Seq<char>) -> Option<u8> {
    if lower_of(d) == "computer"@ {
        Some(1u8)
    } else if lower_of(d) == "phone"@ {
        Some(2u8)
    } else if lower_of(d) == "tablet"@ {
        Some(3u8)
    } else if lower_of(d) == "console"@ {
        Some(4u8)
    } else if lower_of(d) == "vr"@ {
        Some(5u8)
    } else {
        None
    }
}

/// Maps a device name to its integer code, if recognized.
pub fn device_code(d: &String) -> (r: Option<u8>)
    ensures
        r == device_code_spec(d@),
{
    let lowered = crate::text::lowercase(d.as_str());
    if crate::text::string_eq(&lowered, &"computer".to_owned()) {
        Some(1)
    } else if crate::text::string_eq(&lowered, &"phone".to_owned()) {
        Some(2)
    } else if crate::text::string_eq(&lowered, &"tablet".to_owned()) {
        Some(3)
    } else if crate::text::string_eq(&lowered, &"console".to_owned()) {
        Some(4)
    } else if crate::text::string_eq(&lowered, &"vr".to_owned()) {
        Some(5)
    } else {
        None
    }
}

/// The codes of the recognized device names, in declaration order.
pub open spec fn device_codes_spec(ds: Seq<String>) -> Seq<u8>
    decreases ds.len(),
{
    if ds.len() == 0 {
        Seq::empty()
    } else {
        let rest = device_codes_spec(ds.skip(1));
        match device_code_spec(ds[0]@) {
            Some(c) => seq![c] + rest,
            None => rest,
        }
    }
}

/// Maps device names to codes, silently dropping unrecognized names.
pub fn map_playable_devices(ds: &Vec<String>) -> (r: Vec<u8>)
    ensures
        r@ == device_codes_spec(ds@),
{
    let n = ds.len();
    let mut out: Vec<u8> = Vec::new();
    let mut i: usize = 0;
    proof {
        assert(ds@.skip(0) =~= ds@);
    }
    while i < n
        invariant
            i <= n,
            n == ds@.len(),
            device_codes_spec(ds@) == out@ + device_codes_spec(ds@.skip(i as int)),
        decreases n - i,
    {
        proof {
            assert(ds@.skip(i as int)[0] == ds@[i as int]);
            assert(ds@.skip(i as int).skip(1) =~= ds@.skip(i + 1));
        }
        match device_code(&ds[i]) {
            Some(c) => {
                out.push(c);
            },
            None => {},
        }
        proof {
            assert(device_codes_spec(ds@) =~= out@ + device_codes_spec(ds@.skip(i + 1)));
        }
        i += 1;
    }
    proof {
        assert(device_codes_spec(ds@.skip(n as int)) =~= Seq::<u8>::empty());
        assert(out@ =~= device_codes_spec(ds@));
    }
    out
}

/// How a declared private-server cost appears in the update body, when the
/// field is included at all: disabled turns private servers off and sends no
/// price; free allows them at price 0; paid allows them at the given price.
pub open spec fn cost_body_spec(c: Option<PrivateServerCost>, included: bool) -> (
    Option<bool>,
    Option<u32>,
) {
    if !included {
        (None, None)
    } else {
        match c {
            None => (None, None),
            Some(PrivateServerCost::Disabled) => (Some(false), None),
            Some(PrivateServerCost::Free) => (Some(true), Some(0u32)),
            Some(PrivateServerCost::Paid(p)) => (Some(true), Some(p)),
        }
    }
}

/// The singleton's decision table: no changes skips; changes update, or
/// report the intent on a dry run.
pub open spec fn universe_action_spec(has_changes: bool, dry_run: bool) -> UniverseAction {
    if !has_changes {
        UniverseAction::Skip
    } else if dry_run {
        UniverseAction::UpdateIntent
    } else {
        UniverseAction::Update
    }
}

fn contains_field(changes: &Vec<ChangedField>, f: ChangedField) -> (r: bool)
    ensures
        r == changes@.contains(f),
{
    let n = changes.len();
    let mut i: usize = 0;
    while i < n
        invariant
            i <= n,
            n == changes@.len(),
            forall|j: int| 0 <= j < i ==> changes@[j] != f,
        decreases n - i,
    {
        if changes[i] == f {
            return true;
        }
        i += 1;
    }
    false
}

/// Builds the update body from the declared config and the changed fields:
/// a field appears exactly when it changed and is declared.
pub fn build_universe_update_body(u: &UniverseConfig, changes: &Vec<ChangedField>) -> (body:
    UniverseUpdateBody)
    ensures
        ({
            let include_name = changes@.contains(ChangedField::Name) && u.name is Some;
            &&& (body.name is Some) == include_name
            &&& (include_name ==> opt_str_eqv(body.name, u.name))
        }),
        ({
            let include_desc = changes@.contains(ChangedField::Description)
                && u.description is Some;
            &&& (body.description is Some) == include_desc
            &&& (include_desc ==> opt_str_eqv(body.description, u.description))
        }),
        ({
            let include_genre = changes@.contains(ChangedField::Genre) && u.genre is Some;
            &&& (body.genre is Some) == include_genre
            &&& (include_genre ==> opt_str_eqv(body.genre, u.genre))
        }),
        ({
            let include_devices = changes@.contains(ChangedField::PlayableDevices)
                && u.playable_devices is Some;
            &&& (body.playable_devices is Some) == include_devices
            &&& (include_devices ==> (body.playable_devices matches Some(codes)
                && u.playable_devices matches Some(ds) && codes@ == device_codes_spec(ds@)))
        }),
        body.max_players == (if changes@.contains(ChangedField::MaxPlayers) {
            u.max_players
        } else {
            None::<u32>
        }),
        (body.allow_private_servers, body.private_server_price) == cost_body_spec(
            u.private_server_cost,
            changes@.contains(ChangedField::PrivateServerCost),
        ),
{
    let name = if contains_field(changes, ChangedField::Name) {
        clone_opt_string(&u.name)
    } else {
        None
    };
    let description = if contains_field(changes, ChangedField::Description) {
        clone_opt_string(&u.description)
    } else {
        None
    };
    let genre = if contains_field(changes, ChangedField::Genre) {
        clone_opt_string(&u.genre)
    } else {
        None
    };
    let max_players = if contains_field(changes, ChangedField::MaxPlayers) {
        u.max_players
    } else {
        None
    };
    let playable_devices = if contains_field(changes, ChangedField::PlayableDevices) {
        match &u.playable_devices {
            Some(ds) => Some(map_playable_devices(ds)),
            None => None,
        }
    } else {
        None
    };
    let (allow_private_servers, private_server_price): (Option<bool>, Option<u32>) = if contains_field(
        changes,
        ChangedField::PrivateServerCost,
    ) {
        match &u.private_server_cost {
            None => (None, None),
            Some(PrivateServerCost::Disabled) => (Some(false), None),
            Some(PrivateServerCost::Free) => (Some(true), Some(0)),
            Some(PrivateServerCost::Paid(p)) => (Some(true), Some(*p)),
        }
    } else {
        (None, None)
    };
    UniverseUpdateBody {
        name,
        description,
        genre,
        playable_devices,
        max_players,
        allow_private_servers,
        private_server_price,
    }
}

/// Builds the snapshot the ledger would record after a successful update.
pub fn desired_universe_state(u: &UniverseConfig) -> (d: UniverseState)
    ensures
        opt_str_eqv(d.name, u.name),
        opt_str_eqv(d.description, u.description),
        opt_str_eqv(d.genre, u.genre),
        opt_str_seq_eqv(d.playable_devices, u.playable_devices),
        d.max_players == u.max_players,
        match u.private_server_cost {
            None => d.private_server_cost is None,
            Some(c) => d.private_server_cost matches Some(s) && s@ == cost_state_str(c),
        },
{
    let private_server_cost = match &u.private_server_cost {
        None => None,
        Some(c) => Some(private_server_cost_state_string(c)),
    };
    UniverseState {
        name: clone_opt_string(&u.name),
        description: clone_opt_string(&u.description),
        genre: clone_opt_string(&u.genre),
        playable_devices: clone_opt_string_vec(&u.playable_devices),
        max_players: u.max_players,
        private_server_cost,
    }
}

fn universe_changes(stored: &Option<UniverseState>, u: &UniverseConfig) -> (r: Vec<ChangedField>)
    ensures
        r@ == universe_changes_of_config(*stored, *u),
{
    let mut changes: Vec<ChangedField> = Vec::new();
    if u.name.is_some() {
        let matches_stored = match stored {
            Some(st) => opt_string_eq(&st.name, &u.name),
            None => false,
        };
        if !matches_stored {
            changes.push(ChangedField::Name);
        }
    }
    if u.description.is_some() {
        let matches_stored = match stored {
            Some(st) => opt_string_eq(&st.description, &u.description),
            None => false,
        };
        if !matches_stored {
            changes.push(ChangedField::Description);
        }
    }
    if u.genre.is_some() {
        let matches_stored = match stored {
            Some(st) => opt_string_eq(&st.genre, &u.genre),
            None => false,
        };
        if !matches_stored {
            changes.push(ChangedField::Genre);
        }
    }
    if u.playable_devices.is_some() {
        let matches_stored = match stored {
            Some(st) => opt_string_vec_eq(&st.playable_devices, &u.playable_devices),
            None => false,
        };
        if !matches_stored {
            changes.push(ChangedField::PlayableDevices);
        }
    }
    if u.max_players.is_some() {
        let matches_stored = match stored {
            Some(st) => st.max_players == u.max_players,
            None => false,
        };
        if !matches_stored {
            changes.push(ChangedField::MaxPlayers);
        }
    }
    if u.private_server_cost.is_some() {
        let matches_stored = match stored {
            Some(st) => match (&st.private_server_cost, &u.private_server_cost) {
                (Some(s), Some(c)) => {
                    let encoded = private_server_cost_state_string(c);
                    crate::text::string_eq(s, &encoded)
                },
                (None, None) => true,
                _ => false,
            },
            None => false,
        };
        if !matches_stored {
            changes.push(ChangedField::PrivateServerCost);
        }
    }
    proof {
        assert(changes@ =~= universe_changes_of_config(*stored, *u));
    }
    changes
}

/// Plans the universe singleton: diff every declared setting against the
/// stored snapshot; no changes skips, changes update (or report the intent on
/// a dry run).
pub fn plan_universe(u: &UniverseConfig, stored: &Option<UniverseState>, dry_run: bool) -> (r:
    UniversePlan)
    ensures
        r.changes@ == universe_changes_of_config(*stored, *u),
        r.action == universe_action_spec(
            universe_changes_of_config(*stored, *u).len() != 0,
            dry_run,
        ),
        opt_str_eqv(r.desired.name, u.name),
        opt_str_eqv(r.desired.description, u.description),
        opt_str_eqv(r.desired.genre, u.genre),
        opt_str_seq_eqv(r.desired.playable_devices, u.playable_devices),
        r.desired.max_players == u.max_players,
        match u.private_server_cost {
            None => r.desired.private_server_cost is None,
            Some(c) => r.desired.private_server_cost matches Some(s) && s@ == cost_state_str(c),
        },
        ({
            let changes = universe_changes_of_config(*stored, *u);
            let include_name = changes.contains(ChangedField::Name) && u.name is Some;
            &&& (r.body.name is Some) == include_name
            &&& (include_name ==> opt_str_eqv(r.body.name, u.name))
        }),
        ({
            let changes = universe_changes_of_config(*stored, *u);
            let include_desc = changes.contains(ChangedField::Description) && u.description
                is Some;
            &&& (r.body.description is Some) == include_desc
            &&& (include_desc ==> opt_str_eqv(r.body.description, u.description))
        }),
        ({
            let changes = universe_changes_of_config(*stored, *u);
            let include_genre = changes.contains(ChangedField::Genre) && u.genre is Some;
            &&& (r.body.genre is Some) == include_genre
            &&& (include_genre ==> opt_str_eqv(r.body.genre, u.genre))
        }),
        ({
            let changes = universe_changes_of_config(*stored, *u);
            let include_devices = changes.contains(ChangedField::PlayableDevices)
                && u.playable_devices is Some;
            &&& (r.body.playable_devices is Some) == include_devices
            &&& (include_devices ==> (r.body.playable_devices matches Some(codes)
                && u.playable_devices matches Some(ds) && codes@ == device_codes_spec(ds@)))
        }),
        r.body.max_players == (if universe_changes_of_config(*stored, *u).contains(
            ChangedField::MaxPlayers,
        ) {
            u.max_players
        } else {
            None::<u32>
        }),
        (r.body.allow_private_servers, r.body.private_server_price) == cost_body_spec(
            u.private_server_cost,
            universe_changes_of_config(*stored, *u).contains(ChangedField::PrivateServerCost),
        ),
{
    let changes = universe_changes(stored, u);
    let action = if changes.len() == 0 {
        UniverseAction::Skip
    } else if dry_run {
        UniverseAction::UpdateIntent
    } else {
        UniverseAction::Update
    };
    let desired = desired_universe_state(u);
    let body = build_universe_update_body(u, &changes);
    UniversePlan { action, changes, desired, body }
}

/// Records a successfully applied universe snapshot in the ledger.
pub fn commit_universe(state: &mut SyncState, desired: UniverseState)
    ensures
        final(state).universe == Some(desired),
        final(state).game_passes == old(state).game_passes,
        final(state).developer_products == old(state).developer_products,
        final(state).badges == old(state).badges,
{
    let UniverseState { name, description, genre, playable_devices, max_players, private_server_cost } = desired;
    state.update_universe(name, description, genre, playable_devices, max_players, private_server_cost);
}

} // verus!
