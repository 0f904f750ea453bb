use vstd::prelude::*;

use crate::cf_defs::{
    find_cf, find_mapped_cf, spec_name_to_cf, spec_name_to_rawkv_cf, spec_rawkv_cf_safe,
    spec_rawkv_cf_unsafe, spec_set_safe_rawkv, CfName, RawKvMode, ALL_CFS, ALL_DATA_CFS, CF_DEFAULT,
    CF_LOCK, CF_RAFT, CF_RAW_DEFAULT, CF_RAW_LOCK, CF_RAW_WRITE, CF_VER_DEFAULT, CF_WRITE, LARGE_CFS,
    RAW_DATA_CFS, RAW_DATA_CFS_MAPPING, TXN_DATA_CFS,
};

verus! {

/// An entry whose text no earlier entry has is what `find_cf` finds for it.
pub proof fn lemma_find_cf_at(cfs: Seq<CfName>, i: int)
    requires
        0 <= i < cfs.len(),
        forall|j: int| 0 <= j < i ==> cfs[j]@ != cfs[i]@,
    ensures
        find_cf(cfs, cfs[i]@) == Some(cfs[i]),
    decreases i,
{
    if i > 0 {
        let rest = cfs.drop_first();
        assert forall|j: int| 0 <= j < i - 1 implies #[trigger] rest[j]@ != rest[i - 1]@ by {
            assert(cfs[j + 1]@ != cfs[i]@);
        }
        lemma_find_cf_at(rest, i - 1);
    }
}

/// A pair whose source text no earlier pair has maps to its own target.
pub proof fn lemma_find_mapped_cf_at(table: Seq<(CfName, CfName)>, i: int)
    requires
        0 <= i < table.len(),
        forall|j: int| 0 <= j < i ==> table[j].0@ != table[i].0@,
    ensures
        find_mapped_cf(table, table[i].0@) == Some(table[i].1),
    decreases i,
{
    if i > 0 {
        let rest = table.drop_first();
        assert forall|j: int| 0 <= j < i - 1 implies #[trigger] rest[j].0@ != rest[i - 1].0@ by {
            assert(table[j + 1].0@ != table[i].0@);
        }
        lemma_find_mapped_cf_at(rest, i - 1);
    }
}

/// The names of the registry are non-empty and pairwise distinct texts.
pub proof fn lemma_cf_names_distinct()
    ensures
        forall|i: int| 0 <= i < ALL_CFS@.len() ==> ALL_CFS@[i]@.len() > 0,
        forall|i: int, j: int|
            0 <= i < ALL_CFS@.len() && 0 <= j < ALL_CFS@.len() && i != j ==> ALL_CFS@[i]@
                != ALL_CFS@[j]@,
        forall|i: int| 0 <= i < ALL_CFS@.len() ==> ALL_CFS@[i]@ != CF_VER_DEFAULT@,
{
    reveal_strlit("default");
    reveal_strlit("lock");
    reveal_strlit("write");
    reveal_strlit("raft");
    reveal_strlit("ver_default");
    reveal_strlit("raw_default");
    reveal_strlit("raw_lock");
    reveal_strlit("raw_write");
    assert(CF_DEFAULT@.len() == 7);
    assert(CF_LOCK@.len() == 4 && CF_LOCK@[0] == 'l');
    assert(CF_WRITE@.len() == 5);
    assert(CF_RAFT@.len() == 4 && CF_RAFT@[0] == 'r');
    assert(CF_VER_DEFAULT@.len() == 11 && CF_VER_DEFAULT@[0] == 'v');
    assert(CF_RAW_DEFAULT@.len() == 11 && CF_RAW_DEFAULT@[0] == 'r');
    assert(CF_RAW_LOCK@.len() == 8);
    assert(CF_RAW_WRITE@.len() == 9);
    assert(ALL_CFS@ == seq![
        CF_DEFAULT,
        CF_LOCK,
        CF_WRITE,
        CF_RAFT,
        CF_RAW_DEFAULT,
        CF_RAW_LOCK,
        CF_RAW_WRITE,
    ]);
}

/// Every classification set of the registry is drawn from `ALL_CFS`.
pub proof fn lemma_cf_sets_within_all_cfs()
    ensures
        forall|n: CfName| LARGE_CFS@.contains(n) ==> ALL_CFS@.contains(n),
        forall|n: CfName| TXN_DATA_CFS@.contains(n) ==> ALL_CFS@.contains(n),
        forall|n: CfName| RAW_DATA_CFS@.contains(n) ==> ALL_CFS@.contains(n),
        forall|n: CfName| ALL_DATA_CFS@.contains(n) ==> ALL_CFS@.contains(n),
{
    assert(ALL_CFS@[0] == CF_DEFAULT);
    assert(ALL_CFS@[1] == CF_LOCK);
    assert(ALL_CFS@[2] == CF_WRITE);
    assert(ALL_CFS@[3] == CF_RAFT);
    assert(ALL_CFS@[4] == CF_RAW_DEFAULT);
    assert(ALL_CFS@[5] == CF_RAW_LOCK);
    assert(ALL_CFS@[6] == CF_RAW_WRITE);
}

/// Resolving the name of any column family of the registry gives back that
/// very column family.
pub proof fn lemma_name_to_cf_all_cfs(n: CfName)
    requires
        ALL_CFS@.contains(n),
    ensures
        spec_name_to_cf(n@) == Some(n),
{
    lemma_cf_names_distinct();
    let i = choose|i: int| 0 <= i < ALL_CFS@.len() && ALL_CFS@[i] == n;
    lemma_find_cf_at(ALL_CFS@, i);
}

/// The sources of `RAW_DATA_CFS_MAPPING`.
pub open spec fn raw_mapping_sources() -> Seq<CfName> {
    RAW_DATA_CFS_MAPPING@.map_values(|p: (CfName, CfName)| p.0)
}

/// The targets of `RAW_DATA_CFS_MAPPING`.
pub open spec fn raw_mapping_targets() -> Seq<CfName> {
    RAW_DATA_CFS_MAPPING@.map_values(|p: (CfName, CfName)| p.1)
}

/// `RAW_DATA_CFS_MAPPING` is a bijection from the transactional data column
/// families onto the raw ones: its sources are exactly `TXN_DATA_CFS`, its
/// targets exactly `RAW_DATA_CFS`, and neither column repeats a name.
pub proof fn lemma_raw_mapping_is_bijection()
    ensures
        raw_mapping_sources().to_set() == TXN_DATA_CFS@.to_set(),
        raw_mapping_targets().to_set() == RAW_DATA_CFS@.to_set(),
        raw_mapping_sources().no_duplicates(),
        raw_mapping_targets().no_duplicates(),
{
    lemma_cf_names_distinct();
    assert(ALL_CFS@[0] == CF_DEFAULT);
    assert(ALL_CFS@[1] == CF_LOCK);
    assert(ALL_CFS@[2] == CF_WRITE);
    assert(ALL_CFS@[4] == CF_RAW_DEFAULT);
    assert(ALL_CFS@[5] == CF_RAW_LOCK);
    assert(ALL_CFS@[6] == CF_RAW_WRITE);
    assert(raw_mapping_sources() =~= TXN_DATA_CFS@);
    assert(raw_mapping_targets() =~= RAW_DATA_CFS@);
}

/// Every transactional data column family resolves to itself in the legacy
/// layout and to the raw column family it is paired with in the isolated one.
pub proof fn lemma_rawkv_cf_data_cfs(i: int)
    requires
        0 <= i < RAW_DATA_CFS_MAPPING@.len(),
    ensures
        spec_rawkv_cf_unsafe(RAW_DATA_CFS_MAPPING@[i].0@) == Some(RAW_DATA_CFS_MAPPING@[i].0),
        spec_rawkv_cf_safe(RAW_DATA_CFS_MAPPING@[i].0@) == Some(RAW_DATA_CFS_MAPPING@[i].1),
{
    lemma_cf_names_distinct();
    lemma_raw_mapping_is_bijection();
    assert(ALL_CFS@[0] == CF_DEFAULT);
    assert(ALL_CFS@[1] == CF_LOCK);
    assert(ALL_CFS@[2] == CF_WRITE);
    assert(TXN_DATA_CFS@[i] == RAW_DATA_CFS_MAPPING@[i].0);
    lemma_find_cf_at(TXN_DATA_CFS@, i);
    lemma_find_mapped_cf_at(RAW_DATA_CFS_MAPPING@, i);
}

/// Switching to the isolated layout takes effect at once, and switching back
/// to the legacy layout restores the legacy resolution exactly.
pub proof fn lemma_mode_switch_takes_effect(start: RawKvMode, name: Seq<char>)
    ensures
        spec_name_to_rawkv_cf(spec_set_safe_rawkv(start, true), name) == spec_rawkv_cf_safe(name),
        spec_name_to_rawkv_cf(
            spec_set_safe_rawkv(spec_set_safe_rawkv(start, true), false),
            name,
        ) == spec_rawkv_cf_unsafe(name),
{
}

/// Setting the same layout twice resolves every name as setting it once.
pub proof fn lemma_set_safe_rawkv_idempotent(start: RawKvMode, safe: bool, name: Seq<char>)
    ensures
        spec_set_safe_rawkv(spec_set_safe_rawkv(start, safe), safe) == spec_set_safe_rawkv(
            start,
            safe,
        ),
        spec_name_to_rawkv_cf(spec_set_safe_rawkv(spec_set_safe_rawkv(start, safe), safe), name)
            == spec_name_to_rawkv_cf(spec_set_safe_rawkv(start, safe), name),
{
}

} // verus!
