//! Deterministic colors for the shard view: a stable hue per index name and
//! a fixed palette per shard state.

use vstd::prelude::*;
use vstd::string::*;

use std::hash::{Hash, Hasher};

use crate::text::{dec_u64, str_equal, u64_to_dec};

verus! {

/// What the standard library's default hasher yields for a string: hashers
/// made through `DefaultHasher::new` are documented to hash alike, so the
/// value is a function of the string alone within one build.
pub uninterp spec fn default_hash_of(s: Seq<char>) -> u64;

/// Relies on `std::collections::hash_map::DefaultHasher` through
/// `Hash::hash` and `Hasher::finish`: `DefaultHasher::new` takes no
/// per-process seed, so equal strings hash equal.
#[verifier::external_body]
fn default_hash(s: &str) -> (r: u64)
    ensures
        r == default_hash_of(s@),
{
    let mut hasher = std::collections::hash_map::DefaultHasher::new();
    s.hash(&mut hasher);
    hasher.finish()
}

/// The color an index name maps to: its hash picks the hue, saturation and
/// lightness are fixed for contrast.
pub open spec fn index_color_spec(name: Seq<char>) -> Seq<char> {
    "hsl("@ + dec_u64((default_hash_of(name) % 360) as int) + ", 70%, 40%)"@
}

/// A stable HSL color for an index name.
pub fn generate_index_color(index_name: &str) -> (r: String)
    ensures
        r@ == index_color_spec(index_name@),
{
    let hue = default_hash(index_name) % 360;
    let mut out: String = "hsl(".to_owned();
    let digits = u64_to_dec(hue);
    out.append(digits.as_str());
    out.append(", 70%, 40%)");
    out
}

/// The border color of a shard state: green for started, orange for
/// relocating, blue for initializing, red for unassigned, gray for anything
/// unknown.
pub open spec fn shard_state_color_spec(state: Seq<char>) -> Seq<char> {
    if state == "STARTED"@ {
        "#2fb344"@
    } else if state == "RELOCATING"@ {
        "#f59f00"@
    } else if state == "INITIALIZING"@ {
        "#206bc4"@
    } else if state == "UNASSIGNED"@ {
        "#d63939"@
    } else {
        "#626976"@
    }
}

/// The border color for a shard's state.
pub fn shard_state_color(state: &str) -> (r: String)
    ensures
        r@ == shard_state_color_spec(state@),
{
    if str_equal(state, "STARTED") {
        "#2fb344".to_owned()
    } else if str_equal(state, "RELOCATING") {
        "#f59f00".to_owned()
    } else if str_equal(state, "INITIALIZING") {
        "#206bc4".to_owned()
    } else if str_equal(state, "UNASSIGNED") {
        "#d63939".to_owned()
    } else {
        "#626976".to_owned()
    }
}

} // verus!
