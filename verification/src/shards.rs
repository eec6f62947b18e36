//! The shard view: its rows, the per-state statistics, and the wildcard
//! filter the view applies to index names.

use vstd::prelude::*;
use vstd::string::*;

use crate::color::{generate_index_color, index_color_spec, shard_state_color, shard_state_color_spec};
use crate::text::{split_char, split_spec, str_equal};

verus! {

/// The shard page's query parameters.
pub struct ShardsQuery {
    pub pattern: String,
}

/// One shard row of the listing.
pub struct ShardInfo {
    pub index: String,
    pub shard: String,
    pub prirep: String,
    pub state: String,
    pub docs: String,
    pub store: String,
    pub node: String,
    pub unassigned_reason: Option<String>,
}

/// The shards grouped under one node.
pub struct NodeShards {
    pub node_name: String,
    pub shards: Vec<ShardInfo>,
}

/// The shard page's assembled data.
pub struct ShardsData {
    pub pattern: String,
    pub nodes: Vec<NodeShards>,
    pub all_shards: Vec<ShardInfo>,
    pub stats: ShardStats,
}

/// Counts over the filtered shards.
pub struct ShardStats {
    pub total: usize,
    pub primary: usize,
    pub replica: usize,
    pub started: usize,
    pub relocating: usize,
    pub unassigned: usize,
}

impl ShardsData {
    /// A stable HSL color for an index name.
    pub fn generate_index_color(&self, index_name: &str) -> (r: String)
        ensures
            r@ == index_color_spec(index_name@),
    {
        generate_index_color(index_name)
    }

    /// The border color for a shard's state.
    pub fn shard_state_color(&self, state: &str) -> (r: String)
        ensures
            r@ == shard_state_color_spec(state@),
    {
        shard_state_color(state)
    }
}

/// How many shards carry this primary-or-replica mark.
pub open spec fn count_prirep(shards: Seq<ShardInfo>, mark: Seq<char>) -> int
    decreases shards.len(),
{
    if shards.len() == 0 {
        0
    } else {
        count_prirep(shards.drop_last(), mark) + (if shards.last().prirep@ == mark {
            1int
        } else {
            0int
        })
    }
}

/// How many shards are in this state.
pub open spec fn count_state(shards: Seq<ShardInfo>, state: Seq<char>) -> int
    decreases shards.len(),
{
    if shards.len() == 0 {
        0
    } else {
        count_state(shards.drop_last(), state) + (if shards.last().state@ == state {
            1int
        } else {
            0int
        })
    }
}

/// Count the shards by kind and state.
pub fn shard_stats(shards: &Vec<ShardInfo>) -> (r: ShardStats)
    ensures
        r.total == shards@.len(),
        r.primary == count_prirep(shards@, "p"@),
        r.replica == count_prirep(shards@, "r"@),
        r.started == count_state(shards@, "STARTED"@),
        r.relocating == count_state(shards@, "RELOCATING"@),
        r.unassigned == count_state(shards@, "UNASSIGNED"@),
{
    let n = shards.len();
    let mut primary: usize = 0;
    let mut replica: usize = 0;
    let mut started: usize = 0;
    let mut relocating: usize = 0;
    let mut unassigned: usize = 0;
    let mut i: usize = 0;
    proof {
        assert(shards@.take(0) =~= Seq::<ShardInfo>::empty());
    }
    #[verifier::loop_isolation(false)]
    while i < n
        invariant
            0 <= i <= n,
            primary == count_prirep(shards@.take(i as int), "p"@),
            replica == count_prirep(shards@.take(i as int), "r"@),
            started == count_state(shards@.take(i as int), "STARTED"@),
            relocating == count_state(shards@.take(i as int), "RELOCATING"@),
            unassigned == count_state(shards@.take(i as int), "UNASSIGNED"@),
            primary <= i && replica <= i && started <= i && relocating <= i && unassigned <= i,
        decreases n - i,
    {
        proof {
            assert(shards@.take(i as int + 1).drop_last() =~= shards@.take(i as int));
            assert(shards@.take(i as int + 1).last() == shards@[i as int]);
        }
        let row = &shards[i];
        if str_equal(row.prirep.as_str(), "p") {
            primary = primary + 1;
        }
        if str_equal(row.prirep.as_str(), "r") {
            replica = replica + 1;
        }
        if str_equal(row.state.as_str(), "STARTED") {
            started = started + 1;
        }
        if str_equal(row.state.as_str(), "RELOCATING") {
            relocating = relocating + 1;
        }
        if str_equal(row.state.as_str(), "UNASSIGNED") {
            unassigned = unassigned + 1;
        }
        i = i + 1;
    }
    proof {
        assert(shards@.take(n as int) =~= shards@);
    }
    ShardStats { total: n, primary, replica, started, relocating, unassigned }
}

/// The shards whose node is `node`, in input order.
pub open spec fn filter_node(shards: Seq<ShardInfo>, node: Seq<char>) -> Seq<ShardInfo>
    decreases shards.len(),
{
    if shards.len() == 0 {
        Seq::empty()
    } else {
        filter_node(shards.drop_last(), node) + (if shards.last().node@ == node {
            seq![shards.last()]
        } else {
            Seq::empty()
        })
    }
}

/// A field-for-field copy of a shard row.
fn duplicate_shard(s: &ShardInfo) -> (r: ShardInfo)
    ensures
        r == *s,
{
    ShardInfo {
        index: s.index.clone(),
        shard: s.shard.clone(),
        prirep: s.prirep.clone(),
        state: s.state.clone(),
        docs: s.docs.clone(),
        store: s.store.clone(),
        node: s.node.clone(),
        unassigned_reason: match &s.unassigned_reason {
            Some(v) => Some(v.clone()),
            None => None,
        },
    }
}

/// Collect the shards of one node, in input order.
#[verifier::loop_isolation(false)]
fn collect_node(shards: &Vec<ShardInfo>, node: &str) -> (r: Vec<ShardInfo>)
    ensures
        r@ == filter_node(shards@, node@),
{
    let n = shards.len();
    let mut out: Vec<ShardInfo> = Vec::new();
    let mut i: usize = 0;
    proof {
        assert(shards@.take(0) =~= Seq::<ShardInfo>::empty());
        assert(out@ =~= filter_node(shards@.take(0), node@));
    }
    while i < n
        invariant
            0 <= i <= n,
            out@ == filter_node(shards@.take(i as int), node@),
        decreases n - i,
    {
        proof {
            assert(shards@.take(i as int + 1).drop_last() =~= shards@.take(i as int));
            assert(shards@.take(i as int + 1).last() == shards@[i as int]);
        }
        let row = &shards[i];
        if str_equal(row.node.as_str(), node) {
            out.push(duplicate_shard(row));
            proof {
                assert(out@ =~= filter_node(shards@.take(i as int + 1), node@));
            }
        } else {
            proof {
                assert(out@ =~= filter_node(shards@.take(i as int + 1), node@));
            }
        }
        i = i + 1;
    }
    proof {
        assert(shards@.take(n as int) =~= shards@);
    }
    out
}

/// Some group carries this node name.
pub open spec fn has_group(groups: Seq<NodeShards>, node: Seq<char>) -> bool {
    exists|j: int| 0 <= j < groups.len() && #[trigger] groups[j].node_name@ == node
}

/// Group the shards under their nodes, one group per node name in order of
/// first appearance, each holding exactly that node's shards in input order.
#[verifier::loop_isolation(false)]
pub fn group_by_node(shards: &Vec<ShardInfo>) -> (r: Vec<NodeShards>)
    ensures
        forall|j: int|
            0 <= j < r@.len() ==> #[trigger] r@[j].shards@ == filter_node(
                shards@,
                r@[j].node_name@,
            ),
        forall|j: int, k: int| 0 <= j < k < r@.len() ==> r@[j].node_name@ != r@[k].node_name@,
        forall|i: int| 0 <= i < shards@.len() ==> has_group(r@, #[trigger] shards@[i].node@),
{
    let n = shards.len();
    let mut groups: Vec<NodeShards> = Vec::new();
    let mut i: usize = 0;
    while i < n
        invariant
            0 <= i <= n,
            forall|j: int|
                0 <= j < groups@.len() ==> #[trigger] groups@[j].shards@ == filter_node(
                    shards@,
                    groups@[j].node_name@,
                ),
            forall|j: int, k: int|
                0 <= j < k < groups@.len() ==> groups@[j].node_name@ != groups@[k].node_name@,
            forall|q: int| 0 <= q < i ==> has_group(groups@, #[trigger] shards@[q].node@),
        decreases n - i,
    {
        let row = &shards[i];
        let mut seen = false;
        let ng = groups.len();
        let mut j: usize = 0;
        while j < ng
            invariant
                0 <= j <= ng,
                ng == groups@.len(),
                i < n,
                n == shards@.len(),
                seen ==> has_group(groups@, shards@[i as int].node@),
                !seen ==> forall|k: int|
                    0 <= k < j ==> groups@[k].node_name@ != shards@[i as int].node@,
            decreases ng - j,
        {
            if str_equal(groups[j].node_name.as_str(), row.node.as_str()) {
                seen = true;
            }
            j = j + 1;
        }
        if !seen {
            let members = collect_node(shards, row.node.as_str());
            let ghost old_groups = groups@;
            groups.push(NodeShards { node_name: row.node.clone(), shards: members });
            proof {
                assert forall|q: int| 0 <= q < i + 1 implies has_group(
                    groups@,
                    #[trigger] shards@[q].node@,
                ) by {
                    if q < i {
                        let j0 = choose|j: int|
                            0 <= j < old_groups.len() && #[trigger] old_groups[j].node_name@
                                == shards@[q].node@;
                        assert(groups@[j0].node_name@ == shards@[q].node@);
                    } else {
                        assert(groups@[groups@.len() - 1].node_name@ == shards@[q].node@);
                    }
                }
            }
        } else {
            proof {
                assert forall|q: int| 0 <= q < i + 1 implies has_group(
                    groups@,
                    #[trigger] shards@[q].node@,
                ) by {
                }
            }
        }
        i = i + 1;
    }
    groups
}

// ---------------------------------------------------------------------------
// Wildcard matching
// ---------------------------------------------------------------------------
/// The needle occurs in the haystack at position `j`.
pub open spec fn occurs_at(h: Seq<char>, needle: Seq<char>, j: int) -> bool {
    0 <= j && j + needle.len() <= h.len() && h.subrange(j, j + needle.len()) == needle
}

/// The first occurrence of the needle, scanning from the front.
pub open spec fn find_sub(h: Seq<char>, needle: Seq<char>) -> Option<int>
    decreases h.len(),
{
    if needle.len() == 0 {
        Some(0)
    } else if h.len() < needle.len() {
        None
    } else if h.take(needle.len() as int) == needle {
        Some(0)
    } else {
        match find_sub(h.drop_first(), needle) {
            Some(j) => Some(j + 1),
            None => None,
        }
    }
}

/// The first occurrence of the needle at or after `pos`.
pub open spec fn find_from(h: Seq<char>, pos: int, needle: Seq<char>) -> Option<int> {
    match find_sub(h.skip(pos), needle) {
        Some(j) => Some(pos + j),
        None => None,
    }
}

/// The name starts with the prefix.
pub open spec fn has_prefix(h: Seq<char>, p: Seq<char>) -> bool {
    p.len() <= h.len() && h.take(p.len() as int) == p
}

/// The name ends with the suffix.
pub open spec fn has_suffix(h: Seq<char>, p: Seq<char>) -> bool {
    p.len() <= h.len() && h.skip(h.len() - p.len()) == p
}

/// The wildcard walk over the pattern's star-separated parts, as the filter
/// applies it: the first part anchors at the front, the last part — when the
/// pattern does not end in a star — anchors at the back, and the parts
/// between must occur in order.  (The final anchor deliberately ignores the
/// scan position, and a pattern without a star only checks its one part as a
/// prefix: the filter is forgiving by design.)
pub open spec fn mp_walk(name: Seq<char>, parts: Seq<Seq<char>>, i: int, pos: int) -> bool
    decreases parts.len() - i,
{
    if i >= parts.len() {
        true
    } else {
        let part = parts[i];
        if part.len() == 0 {
            mp_walk(name, parts, i + 1, pos)
        } else if i == 0 {
            if has_prefix(name, part) {
                mp_walk(name, parts, 1, part.len() as int)
            } else {
                false
            }
        } else if i == parts.len() - 1 {
            has_suffix(name, part)
        } else {
            match find_from(name, pos, part) {
                Some(j) => mp_walk(name, parts, i + 1, j + part.len()),
                None => false,
            }
        }
    }
}

/// What the shard filter accepts: the wildcard walk over the pattern split
/// on `*`.
pub open spec fn matches_pattern_spec(name: Seq<char>, pattern: Seq<char>) -> bool {
    mp_walk(name, split_spec(pattern, '*'), 0, 0)
}

/// The prefix test.
fn starts_with_str(h: &str, p: &str) -> (r: bool)
    ensures
        r == has_prefix(h@, p@),
{
    let nh = h.unicode_len();
    let np = p.unicode_len();
    if np > nh {
        return false;
    }
    let head = h.substring_char(0, np);
    str_equal(head, p)
}

/// The suffix test.
fn ends_with_str(h: &str, p: &str) -> (r: bool)
    ensures
        r == has_suffix(h@, p@),
{
    let nh = h.unicode_len();
    let np = p.unicode_len();
    if np > nh {
        return false;
    }
    let tail = h.substring_char(nh - np, nh);
    str_equal(tail, p)
}

/// The first occurrence of the needle at or after `pos`, scanning forward.
#[verifier::loop_isolation(false)]
fn find_sub_from(h: &str, pos: usize, needle: &str) -> (r: Option<usize>)
    requires
        pos <= h@.len(),
        needle@.len() > 0,
    ensures
        r matches Some(j) ==> find_from(h@, pos as int, needle@) == Some(j as int) && pos <= j
            && j + needle@.len() <= h@.len(),
        r is None ==> find_from(h@, pos as int, needle@) is None,
{
    let nh = h.unicode_len();
    let m = needle.unicode_len();
    if m > nh {
        proof {
            assert(h@.skip(pos as int).len() < needle@.len());
        }
        return None;
    }
    let mut j: usize = pos;
    while j <= nh - m
        invariant
            pos <= j,
            j <= nh,
            find_sub(h@.skip(pos as int), needle@) == match find_sub(h@.skip(j as int), needle@) {
                Some(x) => Some(x + (j - pos)),
                None => None::<int>,
            },
        decreases nh - j,
    {
        let candidate = h.substring_char(j, j + m);
        proof {
            assert(candidate@ =~= h@.skip(j as int).take(m as int));
        }
        if str_equal(candidate, needle) {
            proof {
                assert(find_sub(h@.skip(j as int), needle@) == Some(0int));
            }
            return Some(j);
        }
        proof {
            assert(h@.skip(j as int).drop_first() =~= h@.skip(j as int + 1));
        }
        j = j + 1;
    }
    proof {
        assert(h@.skip(j as int).len() < needle@.len());
        assert(find_sub(h@.skip(j as int), needle@) is None);
    }
    None
}

/// Does an index name pass the view's wildcard filter?  `*` stands for any
/// stretch of characters.
pub fn matches_pattern(index_name: &str, pattern: &str) -> (r: bool)
    ensures
        r == matches_pattern_spec(index_name@, pattern@),
{
    let parts = split_char(pattern, '*');
    let ghost views = parts@.map_values(|p: String| p@);
    let np = parts.len();
    let n = index_name.unicode_len();
    let mut pos: usize = 0;
    let mut i: usize = 0;
    #[verifier::loop_isolation(false)]
    while i < np
        invariant
            0 <= i <= np,
            pos <= n,
            matches_pattern_spec(index_name@, pattern@) == mp_walk(
                index_name@,
                views,
                i as int,
                pos as int,
            ),
        decreases np - i,
    {
        let part = &parts[i];
        let m = part.as_str().unicode_len();
        proof {
            assert(views[i as int] == part@);
        }
        if m == 0 {
            i = i + 1;
        } else if i == 0 {
            if !starts_with_str(index_name, part.as_str()) {
                return false;
            }
            pos = m;
            i = 1;
        } else if i == np - 1 {
            return ends_with_str(index_name, part.as_str());
        } else {
            match find_sub_from(index_name, pos, part.as_str()) {
                Some(j) => {
                    pos = j + m;
                    i = i + 1;
                },
                None => {
                    return false;
                },
            }
        }
    }
    true
}

} // verus!
