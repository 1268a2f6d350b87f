//! Filesystem paths, modeled as plain strings.
//!
//! The store works with paths only as values to hand to its callers and to
//! the nested-repository bootstrap collaborator; it never touches the
//! filesystem itself. A path is therefore an ordinary string, and joining a
//! single component onto a base directory follows the usual convention: an
//! empty base leaves the component alone, a base with a trailing separator
//! gets the component appended directly, and any other base gets a `/`
//! between the two.

use vstd::prelude::*;
use vstd::string::StrSliceExecFns;
use vstd::string::StringExecFns;

verus! {

/// The path of a single component under a base directory.
pub open spec fn spec_join(base: Seq<char>, component: Seq<char>) -> Seq<char> {
    if base.len() == 0 {
        component
    } else if base.last() == '/' {
        base + component
    } else {
        base + seq!['/'] + component
    }
}

/// Joins one path component onto a base directory.
pub fn path_join(base: &str, component: &str) -> (r: String)
    ensures
        r@ == spec_join(base@, component@),
{
    let n = base.unicode_len();
    if n == 0 {
        component.to_owned()
    } else if base.get_char(n - 1) == '/' {
        let mut r = base.to_owned();
        r.append(component);
        r
    } else {
        let mut r = base.to_owned();
        r.append("/");
        r.append(component);
        proof {
            reveal_strlit("/");
            assert("/"@ =~= seq!['/']);
            assert(r@ =~= base@ + seq!['/'] + component@);
        }
        r
    }
}

/// Joining distinct components onto one base yields distinct paths.
pub proof fn lemma_join_component_injective(base: Seq<char>, c1: Seq<char>, c2: Seq<char>)
    requires
        c1 != c2,
    ensures
        spec_join(base, c1) != spec_join(base, c2),
{
    if spec_join(base, c1) == spec_join(base, c2) {
        if base.len() == 0 {
            assert(false);
        } else {
            let prefix = if base.last() == '/' {
                base
            } else {
                base + seq!['/']
            };
            assert(spec_join(base, c1) =~= prefix + c1);
            assert(spec_join(base, c2) =~= prefix + c2);
            assert(c1.len() == c2.len());
            assert forall|i: int| 0 <= i < c1.len() implies c1[i] == c2[i] by {
                assert((prefix + c1)[prefix.len() + i] == c1[i]);
                assert((prefix + c2)[prefix.len() + i] == c2[i]);
            }
            assert(c1 =~= c2);
        }
    }
}

} // verus!
