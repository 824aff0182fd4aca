//! The want validator: a prefix-set membership test on command paths.
//!
//! A want is admitted when it starts with one of a configured set of
//! recognized prefixes. The set is configuration handed to each gate, not a
//! hardcoded literal, so it can be extended without recompilation.

use vstd::prelude::*;

use crate::text::str_has_prefix;

verus! {

/// A want is valid for a prefix set when some prefix of the set starts it.
pub open spec fn spec_want_valid(want: Seq<char>, prefixes: Seq<Seq<char>>) -> bool {
    exists|i: int| 0 <= i < prefixes.len() && prefixes[i].is_prefix_of(want)
}

/// The default prefix set.
pub open spec fn spec_default_wants() -> Seq<Seq<char>> {
    seq!["/mirror/0GROK0"@, "/liquid/"@, "/hedge/"@]
}

/// The default set of recognized want prefixes.
pub fn default_wants() -> (r: Vec<String>)
    ensures
        r.deep_view() == spec_default_wants(),
{
    let mut wants: Vec<String> = Vec::new();
    wants.push(String::from_str("/mirror/0GROK0"));
    wants.push(String::from_str("/liquid/"));
    wants.push(String::from_str("/hedge/"));
    proof {
        assert(wants.deep_view() =~= spec_default_wants());
    }
    wants
}

/// True iff the want starts with one of the recognized prefixes.
/// Side-effect-free.
pub fn validate_want(want: &str, prefixes: &Vec<String>) -> (r: bool)
    ensures
        r == spec_want_valid(want@, prefixes.deep_view()),
{
    let len = prefixes.len();
    let mut i: usize = 0;
    while i < len
        invariant
            i <= len,
            len == prefixes.len(),
            forall|k: int| 0 <= k < i ==> !(#[trigger] prefixes.deep_view()[k]).is_prefix_of(
                want@,
            ),
        decreases len - i,
    {
        if str_has_prefix(want, prefixes[i].as_str()) {
            proof {
                assert(prefixes.deep_view()[i as int].is_prefix_of(want@));
            }
            return true;
        }
        i = i + 1;
    }
    false
}

} // verus!
