//! URL and file-name construction for index pointers and leaf references.
//!
//! A sub-index lives at `base ++ vendor ++ ".pidx"` (no separator inserted);
//! a leaf artifact at `base [++ "/"] ++ vendor ++ "." ++ name ++ ".pdsc"`,
//! with the separator inserted only when the base lacks a trailing slash;
//! and a leaf's destination file is named `vendor.name.version.pdsc`, a pure
//! function of the identity triple alone.

use vstd::prelude::*;
use vstd::string::*;

use crate::model::{PdscRef, Pidx};

verus! {

/// The URL a vendor sub-index is fetched from.
pub open spec fn spec_sub_index_url(url: Seq<char>, vendor: Seq<char>) -> Seq<char> {
    url + vendor + ".pidx"@
}

/// The URL a leaf artifact is fetched from: a `/` separates base and file
/// only when the base does not already end with one.
pub open spec fn spec_leaf_url(url: Seq<char>, vendor: Seq<char>, name: Seq<char>) -> Seq<char> {
    if url.len() > 0 && url.last() == '/' {
        url + vendor + "."@ + name + ".pdsc"@
    } else {
        url + "/"@ + vendor + "."@ + name + ".pdsc"@
    }
}

/// The file name a leaf artifact is stored under: a function of the
/// `(vendor, name, version)` identity triple and of nothing else.
pub open spec fn spec_dest_file_name(
    vendor: Seq<char>,
    name: Seq<char>,
    version: Seq<char>,
) -> Seq<char> {
    vendor + "."@ + name + "."@ + version + ".pdsc"@
}

/// Builds the fetch URL of the sub-index `p` points to.
pub fn sub_index_url(p: &Pidx) -> (r: String)
    ensures
        r@ == spec_sub_index_url(p.url@, p.vendor@),
{
    let mut s = p.url.clone();
    s.append(p.vendor.as_str());
    s.append(".pidx");
    s
}

/// Builds the fetch URL of the artifact `r` refers to.
pub fn leaf_url(r: &PdscRef) -> (u: String)
    ensures
        u@ == spec_leaf_url(r.url@, r.vendor@, r.name@),
{
    let base = r.url.as_str();
    let n = base.unicode_len();
    let mut s = r.url.clone();
    if !(n > 0 && base.get_char(n - 1) == '/') {
        s.append("/");
    }
    s.append(r.vendor.as_str());
    s.append(".");
    s.append(r.name.as_str());
    s.append(".pdsc");
    s
}

/// Builds the destination file name of the artifact `r` refers to.
pub fn dest_file_name(r: &PdscRef) -> (f: String)
    ensures
        f@ == spec_dest_file_name(r.vendor@, r.name@, r.version@),
{
    let mut s = r.vendor.clone();
    s.append(".");
    s.append(r.name.as_str());
    s.append(".");
    s.append(r.version.as_str());
    s.append(".pdsc");
    s
}

/// Holds when no character of `s` is a dot. The identity components of a
/// well-formed leaf reference are dot-free; a dot inside one would let two
/// different triples collide on one destination, a data-model violation.
pub open spec fn dot_free(s: Seq<char>) -> bool {
    forall|i: int| 0 <= i < s.len() ==> s[i] != '.'
}

/// A dot-free prefix before a dot is uniquely decodable: two such splits of
/// the same string agree on both sides.
proof fn lemma_dot_split_unique(a1: Seq<char>, r1: Seq<char>, a2: Seq<char>, r2: Seq<char>)
    requires
        dot_free(a1),
        dot_free(a2),
        a1 + "."@ + r1 == a2 + "."@ + r2,
    ensures
        a1 == a2,
        r1 == r2,
{
    reveal_strlit(".");
    let s = a1 + "."@ + r1;
    assert(s[a1.len() as int] == '.');
    assert(s[a2.len() as int] == '.');
    if a1.len() < a2.len() {
        assert(s[a1.len() as int] == a2[a1.len() as int]);
        assert(false);
    }
    if a2.len() < a1.len() {
        assert(s[a2.len() as int] == a1[a2.len() as int]);
        assert(false);
    }
    assert(a1 =~= a2) by {
        assert forall|i: int| 0 <= i < a1.len() implies a1[i] == a2[i] by {
            assert(s[i] == a1[i]);
            assert(s[i] == a2[i]);
        }
    }
    assert(r1 =~= r2) by {
        assert(s.len() == (a1 + "."@).len() + r1.len());
        assert((a2 + "."@ + r2).len() == (a2 + "."@).len() + r2.len());
        assert forall|j: int| 0 <= j < r1.len() implies r1[j] == r2[j] by {
            assert(((a1 + "."@) + r1)[(a1 + "."@).len() + j] == r1[j]);
            assert(((a2 + "."@) + r2)[(a2 + "."@).len() + j] == r2[j]);
            assert((a1 + "."@).len() == (a2 + "."@).len());
        }
    }
}

/// The destination mapping is injective on well-formed identity triples:
/// two leaf references whose dot-free `(vendor, name, version)` triples
/// differ never resolve to the same destination file name.
pub proof fn lemma_dest_file_name_injective(
    v1: Seq<char>,
    n1: Seq<char>,
    ver1: Seq<char>,
    v2: Seq<char>,
    n2: Seq<char>,
    ver2: Seq<char>,
)
    requires
        dot_free(v1),
        dot_free(n1),
        dot_free(ver1),
        dot_free(v2),
        dot_free(n2),
        dot_free(ver2),
        !(v1 == v2 && n1 == n2 && ver1 == ver2),
    ensures
        spec_dest_file_name(v1, n1, ver1) != spec_dest_file_name(v2, n2, ver2),
{
    if spec_dest_file_name(v1, n1, ver1) == spec_dest_file_name(v2, n2, ver2) {
        assert(spec_dest_file_name(v1, n1, ver1) =~= v1 + "."@ + (n1 + "."@ + (version_tail(
            ver1,
        ))));
        assert(spec_dest_file_name(v2, n2, ver2) =~= v2 + "."@ + (n2 + "."@ + (version_tail(
            ver2,
        ))));
        lemma_dot_split_unique(
            v1,
            n1 + "."@ + version_tail(ver1),
            v2,
            n2 + "."@ + version_tail(ver2),
        );
        lemma_dot_split_unique(n1, version_tail(ver1), n2, version_tail(ver2));
        assert(version_tail(ver1) =~= ver1 + "."@ + "pdsc"@) by {
            reveal_strlit(".pdsc");
            reveal_strlit(".");
            reveal_strlit("pdsc");
        }
        assert(version_tail(ver2) =~= ver2 + "."@ + "pdsc"@) by {
            reveal_strlit(".pdsc");
            reveal_strlit(".");
            reveal_strlit("pdsc");
        }
        lemma_dot_split_unique(ver1, "pdsc"@, ver2, "pdsc"@);
        assert(false);
    }
}

/// The rest of a destination name after the artifact name: the version and
/// the fixed extension.
pub open spec fn version_tail(version: Seq<char>) -> Seq<char> {
    version + ".pdsc"@
}

/// Two leaf references with the same identity triple map to the same
/// destination file name, whatever their source URLs: the destination is a
/// function of the triple alone.
pub proof fn lemma_same_key_same_dest(a: PdscRef, b: PdscRef)
    requires
        a.vendor@ == b.vendor@,
        a.name@ == b.name@,
        a.version@ == b.version@,
    ensures
        spec_dest_file_name(a.vendor@, a.name@, a.version@) == spec_dest_file_name(
            b.vendor@,
            b.name@,
            b.version@,
        ),
{
}

} // verus!
