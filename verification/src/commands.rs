//! Pre-flight validation: declared names must be unique case-insensitively
//! within each kind; a violation is fatal before any network call.

use crate::config::{BadgeConfig, DeveloperProductConfig, GamePassConfig, RbxSyncConfig};
use crate::errors::SyncError;
use crate::text::lower_of;
use vstd::prelude::*;

verus! {

/// No two names collide case-insensitively.
pub open spec fn ci_distinct(names: Seq<String>) -> bool {
    forall|i: int, j: int|
        0 <= i < j < names.len() ==> #[trigger] lower_of(names[i]@) != #[trigger] lower_of(
            names[j]@,
        )
}

/// The names flagged as duplicates: every name preceded by a case-insensitive
/// equal, in declaration order, one entry per repeat.
pub open spec fn duplicates_spec(names: Seq<String>) -> Seq<String>
    decreases names.len(),
{
    if names.len() == 0 {
        Seq::empty()
    } else {
        let prefix = duplicates_spec(names.drop_last());
        if exists|j: int|
            0 <= j < names.len() - 1 && #[trigger] lower_of(names[j]@) == lower_of(
                names.last()@,
            ) {
            prefix.push(names.last())
        } else {
            prefix
        }
    }
}

proof fn lemma_duplicates_empty_iff_distinct(names: Seq<String>)
    ensures
        (duplicates_spec(names).len() == 0) <==> ci_distinct(names),
    decreases names.len(),
{
    if names.len() == 0 {
    } else {
        lemma_duplicates_empty_iff_distinct(names.drop_last());
        assert(forall|i: int|
            0 <= i < names.len() - 1 ==> names.drop_last()[i] == names[i]);
        if duplicates_spec(names).len() == 0 {
            assert(ci_distinct(names.drop_last()));
            assert forall|i: int, j: int| 0 <= i < j < names.len() implies lower_of(names[i]@)
                != lower_of(names[j]@) by {
                if j < names.len() - 1 {
                    assert(lower_of(names.drop_last()[i]@) != lower_of(names.drop_last()[j]@));
                } else {
                    assert(names[j] == names.last());
                }
            }
        }
        if ci_distinct(names) {
            assert(ci_distinct(names.drop_last()));
            assert(!(exists|j: int|
                0 <= j < names.len() - 1 && #[trigger] lower_of(names[j]@) == lower_of(
                    names.last()@,
                )));
        }
    }
}

fn has_ci_match_before(names: &Vec<String>, i: usize) -> (r: bool)
    requires
        i < names@.len(),
    ensures
        r == exists|j: int|
            0 <= j < i && #[trigger] lower_of(names@[j]@) == lower_of(names@[i as int]@),
{
    let target = crate::text::lowercase(names[i].as_str());
    let mut j: usize = 0;
    while j < i
        invariant
            j <= i,
            i < names@.len(),
            target@ == lower_of(names@[i as int]@),
            forall|k: int| 0 <= k < j ==> #[trigger] lower_of(names@[k]@) != lower_of(
                names@[i as int]@,
            ),
        decreases i - j,
    {
        let candidate = crate::text::lowercase(names[j].as_str());
        if crate::text::string_eq(&candidate, &target) {
            return true;
        }
        j += 1;
    }
    false
}

/// Checks a kind's declared names for case-insensitive duplicates; the error
/// lists every repeated name.
pub fn check_for_duplicates(names: &Vec<String>, resource_type: &str) -> (r: Result<
    (),
    SyncError,
>)
    ensures
        (r is Ok) <==> ci_distinct(names@),
        r matches Err(e) ==> {
            &&& e matches SyncError::DuplicateNames { resource_type: t, duplicates: d }
            &&& t@ == resource_type@
            &&& d@ == duplicates_spec(names@)
        },
{
    let n = names.len();
    let mut duplicates: Vec<String> = Vec::new();
    let mut i: usize = 0;
    proof {
        assert(names@.subrange(0, 0) =~= Seq::<String>::empty());
    }
    while i < n
        invariant
            i <= n,
            n == names@.len(),
            duplicates@ == duplicates_spec(names@.subrange(0, i as int)),
        decreases n - i,
    {
        proof {
            assert(names@.subrange(0, i + 1).drop_last() =~= names@.subrange(0, i as int));
            assert(names@.subrange(0, i + 1).last() == names@[i as int]);
            assert(forall|j: int|
                0 <= j < i ==> names@.subrange(0, i + 1)[j] == names@[j]);
        }
        if has_ci_match_before(names, i) {
            duplicates.push(names[i].clone());
            proof {
                assert(exists|j: int|
                    0 <= j < i && #[trigger] lower_of(names@.subrange(0, i + 1)[j]@) == lower_of(
                        names@.subrange(0, i + 1).last()@,
                    ));
            }
        } else {
            proof {
                assert(!(exists|j: int|
                    0 <= j < i && #[trigger] lower_of(names@.subrange(0, i + 1)[j]@) == lower_of(
                        names@.subrange(0, i + 1).last()@,
                    )));
            }
        }
        i += 1;
    }
    proof {
        assert(names@.subrange(0, n as int) =~= names@);
        lemma_duplicates_empty_iff_distinct(names@);
    }
    if duplicates.len() > 0 {
        Err(SyncError::DuplicateNames { resource_type: resource_type.to_owned(), duplicates })
    } else {
        Ok(())
    }
}

/// The declared game pass names, in order.
pub open spec fn game_pass_names(config: RbxSyncConfig) -> Seq<String> {
    config.game_passes@.map_values(|p: GamePassConfig| p.name)
}

/// The declared developer product names, in order.
pub open spec fn developer_product_names(config: RbxSyncConfig) -> Seq<String> {
    config.developer_products@.map_values(|p: DeveloperProductConfig| p.name)
}

/// The declared badge names, in order.
pub open spec fn badge_names(config: RbxSyncConfig) -> Seq<String> {
    config.badges@.map_values(|b: BadgeConfig| b.name)
}

fn collect_game_pass_names(config: &RbxSyncConfig) -> (r: Vec<String>)
    ensures
        r@ == game_pass_names(*config),
{
    let n = config.game_passes.len();
    let mut out: Vec<String> = Vec::new();
    let mut i: usize = 0;
    while i < n
        invariant
            i <= n,
            n == config.game_passes@.len(),
            out@ == game_pass_names(*config).subrange(0, i as int),
        decreases n - i,
    {
        out.push(config.game_passes[i].name.clone());
        proof {
            assert(out@ =~= game_pass_names(*config).subrange(0, i + 1));
        }
        i += 1;
    }
    proof {
        assert(game_pass_names(*config).subrange(0, n as int) =~= game_pass_names(*config));
    }
    out
}

fn collect_developer_product_names(config: &RbxSyncConfig) -> (r: Vec<String>)
    ensures
        r@ == developer_product_names(*config),
{
    let n = config.developer_products.len();
    let mut out: Vec<String> = Vec::new();
    let mut i: usize = 0;
    while i < n
        invariant
            i <= n,
            n == config.developer_products@.len(),
            out@ == developer_product_names(*config).subrange(0, i as int),
        decreases n - i,
    {
        out.push(config.developer_products[i].name.clone());
        proof {
            assert(out@ =~= developer_product_names(*config).subrange(0, i + 1));
        }
        i += 1;
    }
    proof {
        assert(developer_product_names(*config).subrange(0, n as int) =~= developer_product_names(
            *config,
        ));
    }
    out
}

fn collect_badge_names(config: &RbxSyncConfig) -> (r: Vec<String>)
    ensures
        r@ == badge_names(*config),
{
    let n = config.badges.len();
    let mut out: Vec<String> = Vec::new();
    let mut i: usize = 0;
    while i < n
        invariant
            i <= n,
            n == config.badges@.len(),
            out@ == badge_names(*config).subrange(0, i as int),
        decreases n - i,
    {
        out.push(config.badges[i].name.clone());
        proof {
            assert(out@ =~= badge_names(*config).subrange(0, i + 1));
        }
        i += 1;
    }
    proof {
        assert(badge_names(*config).subrange(0, n as int) =~= badge_names(*config));
    }
    out
}

/// Validates the declared configuration: within each kind, names must be
/// unique case-insensitively. The first offending kind is reported, with
/// every repeated name; nothing else is checked and no network is touched.
pub fn validate(config: &RbxSyncConfig) -> (r: Result<(), SyncError>)
    ensures
        (r is Ok) <==> (ci_distinct(game_pass_names(*config)) && ci_distinct(
            developer_product_names(*config),
        ) && ci_distinct(badge_names(*config))),
        r matches Err(e) ==> {
            &&& e matches SyncError::DuplicateNames { resource_type: t, duplicates: d }
            &&& (if !ci_distinct(game_pass_names(*config)) {
                t@ == "game pass"@ && d@ == duplicates_spec(game_pass_names(*config))
            } else if !ci_distinct(developer_product_names(*config)) {
                t@ == "developer product"@ && d@ == duplicates_spec(
                    developer_product_names(*config),
                )
            } else {
                t@ == "badge"@ && d@ == duplicates_spec(badge_names(*config))
            })
        },
{
    let gp_names = collect_game_pass_names(config);
    match check_for_duplicates(&gp_names, "game pass") {
        Ok(()) => {},
        Err(e) => {
            return Err(e);
        },
    }
    let dp_names = collect_developer_product_names(config);
    match check_for_duplicates(&dp_names, "developer product") {
        Ok(()) => {},
        Err(e) => {
            return Err(e);
        },
    }
    let bd_names = collect_badge_names(config);
    match check_for_duplicates(&bd_names, "badge") {
        Ok(()) => {},
        Err(e) => {
            return Err(e);
        },
    }
    Ok(())
}

} // verus!
