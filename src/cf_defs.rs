use vstd::prelude::*;
use vstd::string::StringSliceAdditionalSpecFns;

verus! {

/// A column-family name: a static, immutable text identifier.
pub type CfName = &'static str;

pub const CF_DEFAULT: CfName = "default";

pub const CF_LOCK: CfName = "lock";

pub const CF_WRITE: CfName = "write";

pub const CF_RAFT: CfName = "raft";

pub const CF_VER_DEFAULT: CfName = "ver_default";

pub const CF_RAW_DEFAULT: CfName = "raw_default";

pub const CF_RAW_LOCK: CfName = "raw_lock";

pub const CF_RAW_WRITE: CfName = "raw_write";

/// Column families that are expected to grow large.
pub const LARGE_CFS: [CfName; 6] = [
    CF_DEFAULT,
    CF_LOCK,
    CF_WRITE,
    CF_RAW_DEFAULT,
    CF_RAW_LOCK,
    CF_RAW_WRITE,
];

/// Every column family the engine instantiates.
pub const ALL_CFS: [CfName; 7] = [
    CF_DEFAULT,
    CF_LOCK,
    CF_WRITE,
    CF_RAFT,
    CF_RAW_DEFAULT,
    CF_RAW_LOCK,
    CF_RAW_WRITE,
];

/// The column families of the transactional protocol.
pub const TXN_DATA_CFS: [CfName; 3] = [CF_DEFAULT, CF_LOCK, CF_WRITE];

/// The column families of raw KV, one for each transactional one.
pub const RAW_DATA_CFS: [CfName; 3] = [CF_RAW_DEFAULT, CF_RAW_LOCK, CF_RAW_WRITE];

/// Transactional and raw data column families together.
pub const ALL_DATA_CFS: [CfName; 6] = [
    CF_DEFAULT,
    CF_LOCK,
    CF_WRITE,
    CF_RAW_DEFAULT,
    CF_RAW_LOCK,
    CF_RAW_WRITE,
];

/// Each transactional column family paired with the raw one that holds raw
/// data in the isolated layout.
pub const RAW_DATA_CFS_MAPPING: [(CfName, CfName); 3] = [
    (CF_DEFAULT, CF_RAW_DEFAULT),
    (CF_LOCK, CF_RAW_LOCK),
    (CF_WRITE, CF_RAW_WRITE),
];

/// The first entry of `cfs` whose text is `name`.
pub open spec fn find_cf(cfs: Seq<CfName>, name: Seq<char>) -> Option<CfName>
    decreases cfs.len(),
{
    if cfs.len() == 0 {
        None
    } else if cfs[0]@ == name {
        Some(cfs[0])
    } else {
        find_cf(cfs.drop_first(), name)
    }
}

/// The target of the first pair of `table` whose source has the text `name`.
pub open spec fn find_mapped_cf(table: Seq<(CfName, CfName)>, name: Seq<char>) -> Option<CfName>
    decreases table.len(),
{
    if table.len() == 0 {
        None
    } else if table[0].0@ == name {
        Some(table[0].1)
    } else {
        find_mapped_cf(table.drop_first(), name)
    }
}

/// What `name_to_cf` resolves `name` to.
pub open spec fn spec_name_to_cf(name: Seq<char>) -> Option<CfName> {
    if name.len() == 0 {
        Some(CF_DEFAULT)
    } else {
        find_cf(ALL_CFS@, name)
    }
}

/// Text equality of two string slices, decided byte by byte.
pub fn str_eq(a: &str, b: &str) -> (r: bool)
    ensures
        r == (a@ == b@),
{
    let x = a.as_bytes();
    let y = b.as_bytes();
    if x.len() != y.len() {
        return false;
    }
    let mut i: usize = 0;
    while i < x.len()
        invariant
            x@ == a.spec_bytes(),
            y@ == b.spec_bytes(),
            x@.len() == y@.len(),
            i <= x@.len(),
            forall|j: int| 0 <= j < i ==> x@[j] == y@[j],
        decreases x@.len() - i,
    {
        if x[i] != y[i] {
            return false;
        }
        i = i + 1;
    }
    assert(x@ =~= y@);
    proof {
        vstd::utf8::encode_utf8_decode_utf8(a@);
        vstd::utf8::encode_utf8_decode_utf8(b@);
    }
    true
}

/// Looks `name` up among `cfs` and returns the matching entry.
fn find_cf_in(cfs: &[CfName], name: &str) -> (r: Option<CfName>)
    ensures
        r == find_cf(cfs@, name@),
{
    let mut i: usize = 0;
    assert(cfs@.subrange(0, cfs@.len() as int) =~= cfs@);
    while i < cfs.len()
        invariant
            i <= cfs@.len(),
            find_cf(cfs@, name@) == find_cf(cfs@.subrange(i as int, cfs@.len() as int), name@),
        decreases cfs@.len() - i,
    {
        let c = cfs[i];
        assert(cfs@.subrange(i as int, cfs@.len() as int).drop_first() =~= cfs@.subrange(
            i + 1,
            cfs@.len() as int,
        ));
        if str_eq(name, c) {
            return Some(c);
        }
        i = i + 1;
    }
    None
}

/// Looks `name` up among the sources of `table` and returns the paired target.
fn find_mapped_cf_in(table: &[(CfName, CfName)], name: &str) -> (r: Option<CfName>)
    ensures
        r == find_mapped_cf(table@, name@),
{
    let mut i: usize = 0;
    assert(table@.subrange(0, table@.len() as int) =~= table@);
    while i < table.len()
        invariant
            i <= table@.len(),
            find_mapped_cf(table@, name@) == find_mapped_cf(
                table@.subrange(i as int, table@.len() as int),
                name@,
            ),
        decreases table@.len() - i,
    {
        let (source, target) = table[i];
        assert(table@.subrange(i as int, table@.len() as int).drop_first() =~= table@.subrange(
            i + 1,
            table@.len() as int,
        ));
        if str_eq(name, source) {
            return Some(target);
        }
        i = i + 1;
    }
    None
}

/// Resolves a column-family name to its canonical constant. The empty name
/// stands for the default column family; any other name must be one of
/// `ALL_CFS`.
pub fn name_to_cf(name: &str) -> (r: Option<CfName>)
    ensures
        r == spec_name_to_cf(name@),
{
    if name.is_empty() {
        return Some(CF_DEFAULT);
    }
    find_cf_in(&ALL_CFS, name)
}

/// Which on-disk layout raw KV uses.
#[derive(Clone, Copy, Debug, PartialEq, Eq, Structural)]
pub enum RawKvMode {
    /// Legacy layout: raw data shares the transactional column families.
    Unsafe,
    /// Isolated layout: raw data lives in column families of its own.
    Safe,
}

impl Default for RawKvMode {
    /// A process starts in the legacy layout.
    fn default() -> (r: RawKvMode)
        ensures
            r == RawKvMode::Unsafe,
    {
        RawKvMode::Unsafe
    }
}

impl RawKvMode {
    /// Whether raw data is isolated in its own column families.
    pub fn is_safe(&self) -> (r: bool)
        ensures
            r == (*self == RawKvMode::Safe),
    {
        match self {
            RawKvMode::Safe => true,
            RawKvMode::Unsafe => false,
        }
    }
}

/// The mode after `set_safe_rawkv(safe)`, whatever it was before.
pub open spec fn spec_set_safe_rawkv(mode: RawKvMode, safe: bool) -> RawKvMode {
    if safe {
        RawKvMode::Safe
    } else {
        RawKvMode::Unsafe
    }
}

/// Raw-KV resolution in the legacy layout: a transactional column family is
/// used as it is.
pub open spec fn spec_rawkv_cf_unsafe(name: Seq<char>) -> Option<CfName> {
    if name.len() == 0 {
        Some(CF_DEFAULT)
    } else {
        find_cf(TXN_DATA_CFS@, name)
    }
}

/// Raw-KV resolution in the isolated layout: a transactional column family is
/// replaced by its raw counterpart.
pub open spec fn spec_rawkv_cf_safe(name: Seq<char>) -> Option<CfName> {
    if name.len() == 0 {
        Some(CF_RAW_DEFAULT)
    } else {
        find_mapped_cf(RAW_DATA_CFS_MAPPING@, name)
    }
}

/// What `name_to_rawkv_cf` resolves `name` to in `mode`.
pub open spec fn spec_name_to_rawkv_cf(mode: RawKvMode, name: Seq<char>) -> Option<CfName> {
    match mode {
        RawKvMode::Safe => spec_rawkv_cf_safe(name),
        RawKvMode::Unsafe => spec_rawkv_cf_unsafe(name),
    }
}

fn name_to_rawkv_cf_unsafe(cf: &str) -> (r: Option<CfName>)
    ensures
        r == spec_rawkv_cf_unsafe(cf@),
{
    if cf.is_empty() {
        return Some(CF_DEFAULT);
    }
    find_cf_in(&TXN_DATA_CFS, cf)
}

fn name_to_rawkv_cf_safe(cf: &str) -> (r: Option<CfName>)
    ensures
        r == spec_rawkv_cf_safe(cf@),
{
    if cf.is_empty() {
        return Some(CF_RAW_DEFAULT);
    }
    find_mapped_cf_in(&RAW_DATA_CFS_MAPPING, cf)
}

/// Resolves the column family that a raw-KV request on `cf` targets in the
/// layout `mode`. The empty name stands for the default column family; any
/// other name must be a transactional data column family.
pub fn name_to_rawkv_cf(mode: RawKvMode, cf: &str) -> (r: Option<CfName>)
    ensures
        r == spec_name_to_rawkv_cf(mode, cf@),
{
    if mode.is_safe() {
        name_to_rawkv_cf_safe(cf)
    } else {
        name_to_rawkv_cf_unsafe(cf)
    }
}

/// Switches the raw-KV layout: isolated when `safe`, legacy otherwise.
pub fn set_safe_rawkv(mode: &mut RawKvMode, safe: bool)
    ensures
        *final(mode) == spec_set_safe_rawkv(*old(mode), safe),
{
    *mode = if safe {
        RawKvMode::Safe
    } else {
        RawKvMode::Unsafe
    };
}

} // verus!
