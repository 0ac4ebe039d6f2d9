//! Workspace discovery support: extracting a module's root directory from
//! the build tool's member identifier, which for a path member reads
//! `path+file://<dir>#<name and version>`.

use vstd::prelude::*;

verus! {

/// The position of the first `c` in `s` at or after `from`.
pub open spec fn first_index_of(s: Seq<char>, c: char, from: int) -> Option<int>
    decreases s.len() - from,
{
    if from < 0 || from >= s.len() {
        None
    } else if s[from] == c {
        Some(from)
    } else {
        first_index_of(s, c, from + 1)
    }
}

pub open spec fn starts_with(s: Seq<char>, prefix: Seq<char>) -> bool {
    prefix.len() <= s.len() && s.subrange(0, prefix.len() as int) == prefix
}

/// The module directory a member identifier names: the text between the
/// `path+file://` scheme and the first `#`; `None` for any other shape.
pub open spec fn spec_member_dir(r: Seq<char>) -> Option<Seq<char>> {
    if starts_with(r, "path+file://"@) {
        match first_index_of(r, '#', "path+file://"@.len() as int) {
            Some(p) => Some(r.subrange("path+file://"@.len() as int, p)),
            None => None,
        }
    } else {
        None
    }
}

proof fn lemma_first_index_found(s: Seq<char>, c: char, from: int, i: int)
    requires
        0 <= from <= i < s.len(),
        s[i] == c,
        forall|k: int| from <= k < i ==> s[k] != c,
    ensures
        first_index_of(s, c, from) == Some(i),
    decreases i - from,
{
    if from < i {
        lemma_first_index_found(s, c, from + 1, i);
    }
}

proof fn lemma_first_index_none(s: Seq<char>, c: char, from: int)
    requires
        0 <= from,
        forall|k: int| from <= k < s.len() ==> s[k] != c,
    ensures
        first_index_of(s, c, from) is None,
    decreases s.len() - from,
{
    if from < s.len() {
        lemma_first_index_none(s, c, from + 1);
    }
}

/// Extracts the module directory from one member identifier.  Identifiers of
/// any other shape yield `None`; the caller treats that as malformed
/// discovery output, which is fatal.
pub fn member_dir(repr: &str) -> (r: Option<String>)
    ensures
        match r {
            Some(d) => spec_member_dir(repr@) == Some(d@),
            None => spec_member_dir(repr@) is None,
        },
{
    let prefix = "path+file://";
    proof {
        reveal_strlit("path+file://");
    }
    let n = repr.unicode_len();
    let plen = prefix.unicode_len();
    if n < plen {
        return None;
    }
    let mut j: usize = 0;
    while j < plen
        invariant
            j <= plen,
            plen <= n,
            n == repr@.len(),
            plen == prefix@.len(),
            prefix@ == "path+file://"@,
            forall|k: int| 0 <= k < j ==> repr@[k] == prefix@[k],
        decreases plen - j,
    {
        if repr.get_char(j) != prefix.get_char(j) {
            proof {
                assert(!starts_with(repr@, "path+file://"@)) by {
                    if starts_with(repr@, "path+file://"@) {
                        assert(repr@.subrange(0, plen as int)[j as int] == repr@[j as int]);
                    }
                }
            }
            return None;
        }
        j += 1;
    }
    proof {
        assert(starts_with(repr@, "path+file://"@)) by {
            assert(repr@.subrange(0, plen as int) =~= "path+file://"@);
        }
    }
    let mut i: usize = plen;
    while i < n
        invariant
            plen <= i <= n,
            n == repr@.len(),
            plen == "path+file://"@.len(),
            starts_with(repr@, "path+file://"@),
            forall|k: int| plen <= k < i ==> repr@[k] != '#',
        decreases n - i,
    {
        if repr.get_char(i) == '#' {
            let dir = repr.substring_char(plen, i);
            proof {
                lemma_first_index_found(repr@, '#', plen as int, i as int);
            }
            return Some(String::from_str(dir));
        }
        i += 1;
    }
    proof {
        lemma_first_index_none(repr@, '#', plen as int);
    }
    None
}

} // verus!
