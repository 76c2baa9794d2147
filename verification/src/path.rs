//! Directory paths as text, with `/` between their parts.

use vstd::prelude::*;
use vstd::string::StrSliceExecFns;
use vstd::string::StringExecFns;

verus! {

/// A path that starts at the root of the file system.
pub open spec fn absolute(p: Seq<char>) -> bool {
    p.len() > 0 && p[0] == '/'
}

/// `rel` below `base`: an absolute `rel` stands for itself, and a `/` is put
/// between the two unless `base` is empty or already ends in one.
pub open spec fn joined(base: Seq<char>, rel: Seq<char>) -> Seq<char> {
    if absolute(rel) {
        rel
    } else if base.len() == 0 || base.last() == '/' {
        base + rel
    } else {
        base + seq!['/'] + rel
    }
}

pub fn is_absolute(p: &str) -> (r: bool)
    ensures
        r == absolute(p@),
{
    p.unicode_len() > 0 && p.get_char(0) == '/'
}

pub fn join(base: &str, rel: &str) -> (r: String)
    ensures
        r@ == joined(base@, rel@),
{
    if is_absolute(rel) {
        return String::from_str(rel);
    }
    let n = base.unicode_len();
    let mut out = String::from_str(base);
    if n > 0 && base.get_char(n - 1) != '/' {
        proof {
            reveal_strlit("/");
            assert("/"@ == seq!['/']);
        }
        out.append("/");
    }
    out.append(rel);
    out
}

/// Two paths below one base with one first part are equal only if their
/// last parts are.
pub proof fn lemma_joined_injective_in_last(
    base: Seq<char>,
    first: Seq<char>,
    a: Seq<char>,
    b: Seq<char>,
)
    requires
        joined(base, first + seq!['/'] + a) == joined(base, first + seq!['/'] + b),
    ensures
        a == b,
{
    let ra = first + seq!['/'] + a;
    let rb = first + seq!['/'] + b;
    assert(ra[0] == rb[0]);
    let pre = if absolute(ra) {
        Seq::<char>::empty()
    } else if base.len() == 0 || base.last() == '/' {
        base
    } else {
        base + seq!['/']
    };
    let head = pre + first + seq!['/'];
    assert(joined(base, ra) == head + a);
    assert(joined(base, rb) == head + b);
    assert((head + a).len() == (head + b).len());
    assert(a.len() == b.len());
    assert forall|i: int| 0 <= i < a.len() implies a[i] == b[i] by {
        assert((head + a)[head.len() + i] == a[i]);
        assert((head + b)[head.len() + i] == b[i]);
    }
    assert(a == b);
}

} // verus!
