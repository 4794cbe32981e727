//! The state ledger: the last successfully applied snapshot of every resource,
//! one association list per kind keyed by remote id, plus the universe
//! singleton. A rerun diffs against this ledger, never against the raw remote
//! listing.

use crate::text::lower_of;
use vstd::prelude::*;

verus! {

/// The persisted ledger. Entries are keyed by the remote id the service
/// assigned; an id never changes for the lifetime of its logical resource.
#[derive(Debug, Clone)]
pub struct SyncState {
    /// Universe settings state.
    pub universe: Option<UniverseState>,
    /// Game passes keyed by their remote id.
    pub game_passes: Vec<(u64, ResourceState)>,
    /// Developer products keyed by their remote id.
    pub developer_products: Vec<(u64, ResourceState)>,
    /// Badges keyed by their remote id.
    pub badges: Vec<(u64, ResourceState)>,
}

/// The last applied universe settings.
#[derive(Debug, Clone)]
pub struct UniverseState {
    pub name: Option<String>,
    pub description: Option<String>,
    pub genre: Option<String>,
    pub playable_devices: Option<Vec<String>>,
    pub max_players: Option<u32>,
    /// Private server cost state: absent = not set, "disabled" = disabled,
    /// "0" = free, any other number = paid.
    pub private_server_cost: Option<String>,
}

/// The last applied snapshot of one resource.
#[derive(Debug, Clone)]
pub struct ResourceState {
    pub name: String,
    pub description: Option<String>,
    pub price: Option<u64>,
    pub is_for_sale: Option<bool>,
    pub is_enabled: Option<bool>,
    pub icon_hash: Option<String>,
    pub icon_asset_id: Option<u64>,
}

impl Default for SyncState {
    /// The all-empty ledger, standing in for a missing ledger file.
    fn default() -> (r: Self)
        ensures
            r.universe is None,
            r.game_passes@ == Seq::<(u64, ResourceState)>::empty(),
            r.developer_products@ == Seq::<(u64, ResourceState)>::empty(),
            r.badges@ == Seq::<(u64, ResourceState)>::empty(),
    {
        SyncState { universe: None, game_passes: Vec::new(), developer_products: Vec::new(), badges: Vec::new() }
    }
}

/// The first entry whose name matches the given one case-insensitively.
pub open spec fn find_by_name_spec(entries: Seq<(u64, ResourceState)>, name: Seq<char>) -> Option<
    (u64, ResourceState),
>
    decreases entries.len(),
{
    if entries.len() == 0 {
        None
    } else if lower_of(entries[0].1.name@) == lower_of(name) {
        Some(entries[0])
    } else {
        find_by_name_spec(entries.skip(1), name)
    }
}

/// The entries with the one at the given id replaced wholesale, or appended if
/// the id is new; all other entries and their order are kept.
pub open spec fn upsert(entries: Seq<(u64, ResourceState)>, id: u64, r: ResourceState) -> Seq<
    (u64, ResourceState),
>
    decreases entries.len(),
{
    if entries.len() == 0 {
        seq![(id, r)]
    } else if entries[0].0 == id {
        seq![(id, r)] + entries.skip(1)
    } else {
        seq![entries[0]] + upsert(entries.skip(1), id, r)
    }
}

/// Within one kind, each remote id appears at most once: the association list
/// reads as a map.
pub open spec fn distinct_ids(entries: Seq<(u64, ResourceState)>) -> bool {
    forall|i: int, j: int| 0 <= i < j < entries.len() ==> entries[i].0 != entries[j].0
}

impl SyncState {
    /// The ledger's map reading: every kind's entries carry distinct ids.
    pub open spec fn wf(&self) -> bool {
        distinct_ids(self.game_passes@) && distinct_ids(self.developer_products@) && distinct_ids(
            self.badges@,
        )
    }
}

/// Every id in the written entries is the written one or was already present.
proof fn lemma_upsert_keys(entries: Seq<(u64, ResourceState)>, id: u64, r: ResourceState, x: u64)
    requires
        x != id,
        forall|j: int| 0 <= j < entries.len() ==> (#[trigger] entries[j]).0 != x,
    ensures
        forall|k: int|
            0 <= k < upsert(entries, id, r).len() ==> (#[trigger] upsert(entries, id, r)[k]).0
                != x,
    decreases entries.len(),
{
    if entries.len() == 0 {
    } else if entries[0].0 == id {
        assert(forall|k: int|
            1 <= k < upsert(entries, id, r).len() ==> upsert(entries, id, r)[k]
                == entries[k]);
    } else {
        assert(forall|j: int|
            0 <= j < entries.skip(1).len() ==> entries.skip(1)[j] == entries[j + 1]);
        lemma_upsert_keys(entries.skip(1), id, r, x);
        assert(forall|k: int|
            1 <= k < upsert(entries, id, r).len() ==> upsert(entries, id, r)[k] == upsert(
                entries.skip(1),
                id,
                r,
            )[k - 1]);
    }
}

/// Replacing or appending an entry keeps the ids distinct.
pub proof fn lemma_upsert_preserves_distinct_ids(
    entries: Seq<(u64, ResourceState)>,
    id: u64,
    r: ResourceState,
)
    requires
        distinct_ids(entries),
    ensures
        distinct_ids(upsert(entries, id, r)),
    decreases entries.len(),
{
    if entries.len() == 0 {
    } else if entries[0].0 == id {
        assert(forall|k: int|
            1 <= k < upsert(entries, id, r).len() ==> upsert(entries, id, r)[k]
                == entries[k]);
    } else {
        assert(forall|j: int|
            0 <= j < entries.skip(1).len() ==> entries.skip(1)[j] == entries[j + 1]);
        lemma_upsert_preserves_distinct_ids(entries.skip(1), id, r);
        lemma_upsert_keys(entries.skip(1), id, r, entries[0].0);
        assert(forall|k: int|
            1 <= k < upsert(entries, id, r).len() ==> upsert(entries, id, r)[k] == upsert(
                entries.skip(1),
                id,
                r,
            )[k - 1]);
    }
}

fn find_entry_by_name<'a>(entries: &'a Vec<(u64, ResourceState)>, name: &str) -> (r: Option<
    (u64, &'a ResourceState),
>)
    ensures
        match r {
            Some(p) => {
                &&& find_by_name_spec(entries@, name@) matches Some(q)
                &&& q.0 == p.0
                &&& q.1 == *p.1
            },
            None => find_by_name_spec(entries@, name@) is None,
        },
{
    let lowered = crate::text::lowercase(name);
    let n = entries.len();
    let mut i: usize = 0;
    proof {
        assert(entries@.skip(0) =~= entries@);
    }
    while i < n
        invariant
            i <= n,
            n == entries@.len(),
            lowered@ == lower_of(name@),
            find_by_name_spec(entries@, name@) == find_by_name_spec(
                entries@.skip(i as int),
                name@,
            ),
        decreases n - i,
    {
        let entry = &entries[i];
        let entry_lower = crate::text::lowercase(entry.1.name.as_str());
        proof {
            assert(entries@.skip(i as int)[0] == entries@[i as int]);
            assert(entries@.skip(i as int).skip(1) =~= entries@.skip(i + 1));
        }
        if crate::text::string_eq(&entry_lower, &lowered) {
            return Some((entry.0, &entry.1));
        }
        i += 1;
    }
    proof {
        assert(entries@.skip(n as int) =~= Seq::<(u64, ResourceState)>::empty());
    }
    None
}

fn upsert_entry(entries: &mut Vec<(u64, ResourceState)>, id: u64, r: ResourceState)
    ensures
        final(entries)@ == upsert(old(entries)@, id, r),
        distinct_ids(old(entries)@) ==> distinct_ids(final(entries)@),
{
    let ghost r0 = r;
    let n = entries.len();
    let mut i: usize = 0;
    while i < n
        invariant
            i <= n,
            n == entries@.len(),
            entries@ == old(entries)@,
            r == r0,
            forall|j: int| 0 <= j < i ==> entries@[j].0 != id,
        decreases n - i,
    {
        if entries[i].0 == id {
            proof {
                lemma_upsert_found(entries@, id, r, i as int);
                if distinct_ids(old(entries)@) {
                    lemma_upsert_preserves_distinct_ids(old(entries)@, id, r0);
                }
            }
            entries[i] = (id, r);
            return ;
        }
        i += 1;
    }
    proof {
        lemma_upsert_absent(entries@, id, r);
        if distinct_ids(old(entries)@) {
            lemma_upsert_preserves_distinct_ids(old(entries)@, id, r0);
        }
    }
    entries.push((id, r));
}

proof fn lemma_upsert_found(entries: Seq<(u64, ResourceState)>, id: u64, r: ResourceState, i: int)
    requires
        0 <= i < entries.len(),
        entries[i].0 == id,
        forall|j: int| 0 <= j < i ==> entries[j].0 != id,
    ensures
        upsert(entries, id, r) == entries.update(i, (id, r)),
    decreases i,
{
    if i == 0 {
        assert(upsert(entries, id, r) =~= entries.update(0, (id, r)));
    } else {
        lemma_upsert_found(entries.skip(1), id, r, i - 1);
        assert(entries.skip(1)[i - 1] == entries[i]);
        assert(upsert(entries, id, r) =~= entries.update(i, (id, r)));
    }
}

proof fn lemma_upsert_absent(entries: Seq<(u64, ResourceState)>, id: u64, r: ResourceState)
    requires
        forall|j: int| 0 <= j < entries.len() ==> entries[j].0 != id,
    ensures
        upsert(entries, id, r) == entries.push((id, r)),
    decreases entries.len(),
{
    if entries.len() == 0 {
        assert(upsert(entries, id, r) =~= entries.push((id, r)));
    } else {
        lemma_upsert_absent(entries.skip(1), id, r);
        assert(upsert(entries, id, r) =~= entries.push((id, r)));
    }
}

impl SyncState {
    /// Where the ledger file lives, relative to the project root.
    pub fn get_state_path(project_root: &str) -> (r: String)
        ensures
            r@ == project_root@ + "/rbxsync-lock.yml"@,
    {
        let mut s = project_root.to_owned();
        s.append("/rbxsync-lock.yml");
        s
    }

    /// Find a game pass by name (case-insensitive) and return (id, state).
    pub fn find_game_pass_by_name(&self, name: &str) -> (r: Option<(u64, &ResourceState)>)
        ensures
            match r {
                Some(p) => {
                    &&& find_by_name_spec(self.game_passes@, name@) matches Some(q)
                    &&& q.0 == p.0
                    &&& q.1 == *p.1
                },
                None => find_by_name_spec(self.game_passes@, name@) is None,
            },
    {
        find_entry_by_name(&self.game_passes, name)
    }

    /// Replace the game pass snapshot at the given id wholesale.
    pub fn update_game_pass(
        &mut self,
        id: u64,
        name: String,
        description: Option<String>,
        price: Option<u64>,
        is_for_sale: Option<bool>,
        icon_hash: Option<String>,
        icon_asset_id: Option<u64>,
    )
        ensures
            final(self).game_passes@ == upsert(
                old(self).game_passes@,
                id,
                (ResourceState {
                    name,
                    description,
                    price,
                    is_for_sale,
                    is_enabled: None,
                    icon_hash,
                    icon_asset_id,
                }),
            ),
            final(self).universe == old(self).universe,
            final(self).developer_products == old(self).developer_products,
            final(self).badges == old(self).badges,
            old(self).wf() ==> final(self).wf(),
    {
        upsert_entry(
            &mut self.game_passes,
            id,
            ResourceState {
                name,
                description,
                price,
                is_for_sale,
                is_enabled: None,
                icon_hash,
                icon_asset_id,
            },
        );
    }

    /// Find a developer product by name (case-insensitive) and return (id, state).
    pub fn find_developer_product_by_name(&self, name: &str) -> (r: Option<(u64, &ResourceState)>)
        ensures
            match r {
                Some(p) => {
                    &&& find_by_name_spec(self.developer_products@, name@) matches Some(q)
                    &&& q.0 == p.0
                    &&& q.1 == *p.1
                },
                None => find_by_name_spec(self.developer_products@, name@) is None,
            },
    {
        find_entry_by_name(&self.developer_products, name)
    }

    /// Replace the developer product snapshot at the given id wholesale.
    pub fn update_developer_product(
        &mut self,
        id: u64,
        name: String,
        description: Option<String>,
        price: Option<u64>,
        is_enabled: Option<bool>,
        icon_hash: Option<String>,
        icon_asset_id: Option<u64>,
    )
        ensures
            final(self).developer_products@ == upsert(
                old(self).developer_products@,
                id,
                (ResourceState {
                    name,
                    description,
                    price,
                    is_for_sale: None,
                    is_enabled,
                    icon_hash,
                    icon_asset_id,
                }),
            ),
            final(self).universe == old(self).universe,
            final(self).game_passes == old(self).game_passes,
            final(self).badges == old(self).badges,
            old(self).wf() ==> final(self).wf(),
    {
        upsert_entry(
            &mut self.developer_products,
            id,
            ResourceState {
                name,
                description,
                price,
                is_for_sale: None,
                is_enabled,
                icon_hash,
                icon_asset_id,
            },
        );
    }

    /// Find a badge by name (case-insensitive) and return (id, state).
    pub fn find_badge_by_name(&self, name: &str) -> (r: Option<(u64, &ResourceState)>)
        ensures
            match r {
                Some(p) => {
                    &&& find_by_name_spec(self.badges@, name@) matches Some(q)
                    &&& q.0 == p.0
                    &&& q.1 == *p.1
                },
                None => find_by_name_spec(self.badges@, name@) is None,
            },
    {
        find_entry_by_name(&self.badges, name)
    }

    /// Replace the badge snapshot at the given id wholesale.
    pub fn update_badge(
        &mut self,
        id: u64,
        name: String,
        description: Option<String>,
        is_enabled: Option<bool>,
        icon_hash: Option<String>,
        icon_asset_id: Option<u64>,
    )
        ensures
            final(self).badges@ == upsert(
                old(self).badges@,
                id,
                (ResourceState {
                    name,
                    description,
                    price: None,
                    is_for_sale: None,
                    is_enabled,
                    icon_hash,
                    icon_asset_id,
                }),
            ),
            final(self).universe == old(self).universe,
            final(self).game_passes == old(self).game_passes,
            final(self).developer_products == old(self).developer_products,
            old(self).wf() ==> final(self).wf(),
    {
        upsert_entry(
            &mut self.badges,
            id,
            ResourceState {
                name,
                description,
                price: None,
                is_for_sale: None,
                is_enabled,
                icon_hash,
                icon_asset_id,
            },
        );
    }

    /// Replace the universe singleton snapshot wholesale.
    pub fn update_universe(
        &mut self,
        name: Option<String>,
        description: Option<String>,
        genre: Option<String>,
        playable_devices: Option<Vec<String>>,
        max_players: Option<u32>,
        private_server_cost: Option<String>,
    )
        ensures
            final(self).universe == Some(
                (UniverseState {
                    name,
                    description,
                    genre,
                    playable_devices,
                    max_players,
                    private_server_cost,
                }),
            ),
            final(self).game_passes == old(self).game_passes,
            final(self).developer_products == old(self).developer_products,
            final(self).badges == old(self).badges,
    {
        self.universe = Some(
            UniverseState { name, description, genre, playable_devices, max_players, private_server_cost },
        );
    }
}

} // verus!
