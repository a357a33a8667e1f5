//! Asset tables: lists of assets of one kind in which a name occurs once.

use vstd::prelude::*;
use vstd::string::*;
use crate::models::{Asset, AssetView, asset_views, stored_asset};

verus! {

/// What happens when an asset is written under a name that is taken.
#[derive(Clone, Copy, Debug, PartialEq, Eq, Structural)]
pub enum UpsertPolicy {
    /// The new asset replaces the one of that name.
    Overwrite,
    /// The asset of that name stays as it is and the new one is dropped.
    KeepExisting,
}

/// Whether some row of the table has the given name.
pub open spec fn has_name(rows: Seq<AssetView>, name: Seq<char>) -> bool {
    exists|i: int| 0 <= i < rows.len() && (#[trigger] rows[i]).name == name
}

/// Whether no name occurs in two rows.
pub open spec fn unique_names(rows: Seq<AssetView>) -> bool {
    forall|i: int, j: int|
        0 <= i < j < rows.len() ==> (#[trigger] rows[i]).name != (#[trigger] rows[j]).name
}

/// The table after one row has been written to it under a policy.  A row
/// with a new name goes to the end; a row whose name is taken replaces the
/// one of that name or is dropped.
pub open spec fn upserted(
    rows: Seq<AssetView>,
    row: AssetView,
    policy: UpsertPolicy,
) -> Seq<AssetView> {
    if has_name(rows, row.name) {
        match policy {
            UpsertPolicy::Overwrite => Seq::new(
                rows.len(),
                |i: int|
                    if rows[i].name == row.name {
                        row
                    } else {
                        rows[i]
                    },
            ),
            UpsertPolicy::KeepExisting => rows,
        }
    } else {
        rows.push(row)
    }
}

/// The table after each of the submitted assets, in order, has been stored
/// in it under a policy.
pub open spec fn merged(
    rows: Seq<AssetView>,
    incoming: Seq<AssetView>,
    policy: UpsertPolicy,
) -> Seq<AssetView>
    decreases incoming.len(),
{
    if incoming.len() == 0 {
        rows
    } else {
        upserted(
            merged(rows, incoming.drop_last(), policy),
            stored_asset(incoming.last()),
            policy,
        )
    }
}

/// Writing a row keeps names unique.
pub proof fn lemma_upserted_unique(rows: Seq<AssetView>, row: AssetView, policy: UpsertPolicy)
    requires
        unique_names(rows),
    ensures
        unique_names(upserted(rows, row, policy)),
        has_name(upserted(rows, row, policy), row.name),
        forall|name: Seq<char>|
            has_name(rows, name) ==> has_name(upserted(rows, row, policy), name),
{
    let out = upserted(rows, row, policy);
    if has_name(rows, row.name) {
        let k = choose|k: int| 0 <= k < rows.len() && (#[trigger] rows[k]).name == row.name;
        assert(out[k].name == row.name);
        assert forall|name: Seq<char>| has_name(rows, name) implies has_name(out, name) by {
            let i = choose|i: int| 0 <= i < rows.len() && (#[trigger] rows[i]).name == name;
            assert(out[i].name == name);
        }
    } else {
        assert(out[rows.len() as int].name == row.name);
        assert forall|name: Seq<char>| has_name(rows, name) implies has_name(out, name) by {
            let i = choose|i: int| 0 <= i < rows.len() && (#[trigger] rows[i]).name == name;
            assert(out[i].name == name);
        }
        assert forall|i: int, j: int| 0 <= i < j < out.len() implies (#[trigger] out[i]).name != (
        #[trigger] out[j]).name by {
            if j == rows.len() {
                assert(rows[i].name != row.name);
            } else {
                assert(rows[i].name != rows[j].name);
            }
        }
    }
}

/// Storing a batch keeps names unique.
pub proof fn lemma_merged_unique(
    rows: Seq<AssetView>,
    incoming: Seq<AssetView>,
    policy: UpsertPolicy,
)
    requires
        unique_names(rows),
    ensures
        unique_names(merged(rows, incoming, policy)),
    decreases incoming.len(),
{
    if incoming.len() > 0 {
        lemma_merged_unique(rows, incoming.drop_last(), policy);
        lemma_upserted_unique(
            merged(rows, incoming.drop_last(), policy),
            stored_asset(incoming.last()),
            policy,
        );
    }
}

/// Storing a batch under `KeepExisting` leaves every row that the table
/// had, where it stood and as it was.
pub proof fn lemma_keep_existing_preserves(rows: Seq<AssetView>, incoming: Seq<AssetView>)
    ensures
        merged(rows, incoming, UpsertPolicy::KeepExisting).len() >= rows.len(),
        forall|i: int|
            0 <= i < rows.len() ==> merged(rows, incoming, UpsertPolicy::KeepExisting)[i]
                == rows[i],
    decreases incoming.len(),
{
    if incoming.len() > 0 {
        lemma_keep_existing_preserves(rows, incoming.drop_last());
    }
}

/// Every name in a table after a batch has been stored was in the table
/// before or is the name of an asset of the batch.
pub proof fn lemma_merged_names(
    rows: Seq<AssetView>,
    incoming: Seq<AssetView>,
    policy: UpsertPolicy,
    name: Seq<char>,
)
    requires
        has_name(merged(rows, incoming, policy), name),
    ensures
        has_name(rows, name) || has_name(incoming, name),
    decreases incoming.len(),
{
    if incoming.len() > 0 {
        let before = merged(rows, incoming.drop_last(), policy);
        let row = stored_asset(incoming.last());
        let after = upserted(before, row, policy);
        let i = choose|i: int| 0 <= i < after.len() && (#[trigger] after[i]).name == name;
        if name == row.name {
            assert(incoming[incoming.len() - 1].name == name);
        } else {
            assert(i < before.len());
            assert(before[i].name == name);
            lemma_merged_names(rows, incoming.drop_last(), policy, name);
            if has_name(incoming.drop_last(), name) {
                let k = choose|k: int|
                    0 <= k < incoming.drop_last().len() && (#[trigger] incoming.drop_last()[k]).name
                        == name;
                assert(incoming[k].name == name);
            }
        }
    }
}

/// After a batch has been stored under `Overwrite`, the row of each name
/// is the one that the batch submitted last under that name.
pub proof fn lemma_overwrite_last_wins(rows: Seq<AssetView>, incoming: Seq<AssetView>, k: int)
    requires
        unique_names(rows),
        0 <= k < incoming.len(),
        forall|j: int| k < j < incoming.len() ==> incoming[j].name != incoming[k].name,
    ensures
        exists|i: int|
            0 <= i < merged(rows, incoming, UpsertPolicy::Overwrite).len() && #[trigger] merged(
                rows,
                incoming,
                UpsertPolicy::Overwrite,
            )[i] == stored_asset(incoming[k]),
    decreases incoming.len(),
{
    let policy = UpsertPolicy::Overwrite;
    let before = merged(rows, incoming.drop_last(), policy);
    let row = stored_asset(incoming.last());
    let after = upserted(before, row, policy);
    let all = merged(rows, incoming, policy);
    assert(all == after);
    lemma_merged_unique(rows, incoming.drop_last(), policy);
    if k == incoming.len() - 1 {
        if has_name(before, row.name) {
            let i = choose|i: int| 0 <= i < before.len() && (#[trigger] before[i]).name == row.name;
            assert(all[i] == stored_asset(incoming[k]));
        } else {
            assert(all[before.len() as int] == stored_asset(incoming[k]));
        }
    } else {
        let rest = incoming.drop_last();
        assert forall|j: int| k < j < rest.len() implies rest[j].name != rest[k].name by {
            assert(rest[j] == incoming[j]);
            assert(rest[k] == incoming[k]);
        }
        lemma_overwrite_last_wins(rows, rest, k);
        let i = choose|i: int|
            0 <= i < before.len() && #[trigger] before[i] == stored_asset(rest[k]);
        assert(rest[k] == incoming[k]);
        assert(incoming[incoming.len() - 1].name != incoming[k].name);
        assert(before[i].name != row.name);
        assert(all[i] == stored_asset(incoming[k]));
    }
}

/// Finds the row of the given name.
pub fn find_asset<A: Asset>(table: &Vec<A>, name: &String) -> (found: Option<usize>)
    ensures
        match found {
            Some(i) => i < table.len() && table[i as int].asset_view().name == name@,
            None => !has_name(asset_views(table@), name@),
        },
{
    let mut i: usize = 0;
    while i < table.len()
        invariant
            i <= table.len(),
            forall|j: int| 0 <= j < i ==> table[j].asset_view().name != name@,
        decreases table.len() - i,
    {
        if *table[i].name() == *name {
            return Some(i);
        }
        i += 1;
    }
    proof {
        let rows = asset_views(table@);
        assert forall|j: int| 0 <= j < rows.len() implies (#[trigger] rows[j]).name != name@ by {
            assert(rows[j] == table[j].asset_view());
        }
    }
    None
}

/// Stores one asset in a table under a policy.
pub fn upsert_asset<A: Asset>(table: &mut Vec<A>, asset: A, policy: UpsertPolicy)
    requires
        unique_names(asset_views(old(table)@)),
    ensures
        asset_views(final(table)@) == upserted(
            asset_views(old(table)@),
            stored_asset(asset.asset_view()),
            policy,
        ),
        unique_names(asset_views(final(table)@)),
{
    let ghost before = asset_views(table@);
    let ghost row = stored_asset(asset.asset_view());
    proof {
        lemma_upserted_unique(before, row, policy);
    }
    let found = find_asset(table, asset.name());
    match found {
        Some(i) => {
            proof {
                assert(before[i as int].name == row.name);
            }
            match policy {
                UpsertPolicy::Overwrite => {
                    let stored = asset.into_stored();
                    table.set(i, stored);
                    proof {
                        let after = asset_views(table@);
                        let want = upserted(before, row, policy);
                        assert forall|j: int| 0 <= j < after.len() implies after[j] == want[j] by {
                            if j != i {
                                assert(before[j] == old(table)@[j].asset_view());
                                assert(before[j].name != before[i as int].name);
                            }
                        }
                        assert(after =~= want);
                    }
                },
                UpsertPolicy::KeepExisting => {},
            }
        },
        None => {
            let stored = asset.into_stored();
            table.push(stored);
            proof {
                assert(asset_views(table@) =~= before.push(row));
            }
        },
    }
}

/// Stores a batch of assets, in order, in a table under a policy.
pub fn merge_assets<A: Asset>(table: &mut Vec<A>, incoming: Vec<A>, policy: UpsertPolicy)
    requires
        unique_names(asset_views(old(table)@)),
    ensures
        asset_views(final(table)@) == merged(
            asset_views(old(table)@),
            asset_views(incoming@),
            policy,
        ),
        unique_names(asset_views(final(table)@)),
{
    let ghost before = asset_views(table@);
    let ghost all = incoming@;
    for asset in it: incoming
        invariant
            it.seq() == all,
            unique_names(asset_views(table@)),
            asset_views(table@) == merged(
                before,
                asset_views(all.take(it.index() as int)),
                policy,
            ),
    {
        proof {
            let done = all.take(it.index() as int);
            let next = all.take(it.index() + 1);
            assert(asset_views(next).drop_last() =~= asset_views(done));
            assert(asset_views(next).last() == asset.asset_view());
        }
        upsert_asset(table, asset, policy);
    }
    proof {
        assert(all.take(all.len() as int) =~= all);
    }
}

/// A copy of every row of a table.
pub fn copy_assets<A: Asset>(table: &Vec<A>) -> (copy: Vec<A>)
    ensures
        asset_views(copy@) == asset_views(table@),
{
    let mut copy: Vec<A> = Vec::new();
    let mut i: usize = 0;
    while i < table.len()
        invariant
            i <= table.len(),
            copy.len() == i,
            forall|j: int| 0 <= j < i ==> copy[j].asset_view() == table[j].asset_view(),
        decreases table.len() - i,
    {
        copy.push(table[i].duplicate());
        i += 1;
    }
    proof {
        assert(asset_views(copy@) =~= asset_views(table@));
    }
    copy
}

} // verus!
