//! Usage Oracle support: the namespaced-access search pattern handed to the
//! external textual search.  The search itself runs outside the library; a
//! `true` verdict only costs a missed removal, a wrong `false` is caught by
//! the verification pipeline.

use vstd::prelude::*;

verus! {

/// Hyphens in a dependency name join as underscores in source identifiers.
pub open spec fn dash_to_underscore(c: char) -> char {
    if c == '-' {
        '_'
    } else {
        c
    }
}

/// The search pattern for a dependency name: the name with hyphens normalized
/// to underscores, followed by the namespace-access token.
pub open spec fn spec_pattern(name: Seq<char>) -> Seq<char> {
    name.map_values(|c: char| dash_to_underscore(c)) + seq![':', ':']
}

/// Builds the usage-search pattern for a dependency name.
pub fn usage_pattern(name: &str) -> (r: String)
    ensures
        r@ == spec_pattern(name@),
{
    let n = name.unicode_len();
    let mut out = String::new();
    let mut i: usize = 0;
    while i < n
        invariant
            i <= n,
            n == name@.len(),
            out@ == name@.subrange(0, i as int).map_values(|c: char| dash_to_underscore(c)),
        decreases n - i,
    {
        let c = name.get_char(i);
        if c == '-' {
            out.append("_");
            proof {
                reveal_strlit("_");
            }
        } else {
            let piece = name.substring_char(i, i + 1);
            out.append(piece);
        }
        proof {
            assert(out@ =~= name@.subrange(0, i + 1 as int).map_values(
                |c: char| dash_to_underscore(c),
            ));
        }
        i += 1;
    }
    proof {
        assert(name@.subrange(0, n as int) =~= name@);
    }
    out.append("::");
    proof {
        reveal_strlit("::");
        assert("::"@ =~= seq![':', ':']);
        assert(out@ =~= spec_pattern(name@));
    }
    out
}

} // verus!
