//! Discovery of candidate model artifacts by extension.
//!
//! The surrounding process enumerates the application data directory —
//! the set of files there can change from outside the process at any
//! time, so each call re-enumerates — and hands the entries in; which of
//! them count as model artifacts is decided here.

use vstd::prelude::*;

verus! {

/// The artifact file extension, including its dot.
pub open spec fn gguf_suffix() -> Seq<char> {
    seq!['.', 'g', 'g', 'u', 'f']
}

/// Whether `p` names a candidate artifact: it ends in `.gguf` and has a
/// non-empty stem before the extension.
pub open spec fn is_gguf_path(p: Seq<char>) -> bool {
    p.len() > 5 && p.subrange(p.len() - 5, p.len() as int) == gguf_suffix()
}

/// The entries of `v` that name a candidate artifact, in order.
pub open spec fn gguf_models(v: Seq<String>) -> Seq<String> {
    v.filter(|s: String| is_gguf_path(s@))
}

/// Decides whether `path` names a candidate artifact.
pub fn has_gguf_extension(path: &String) -> (r: bool)
    ensures
        r == is_gguf_path(path@),
{
    let s = path.as_str();
    let n = s.unicode_len();
    if n <= 5 {
        return false;
    }
    let ok = s.get_char(n - 5) == '.' && s.get_char(n - 4) == 'g' && s.get_char(n - 3) == 'g'
        && s.get_char(n - 2) == 'u' && s.get_char(n - 1) == 'f';
    proof {
        let p = path@;
        let sub = p.subrange(p.len() - 5, p.len() as int);
        assert(sub.len() == 5);
        assert(sub[0] == p[p.len() - 5]);
        assert(sub[1] == p[p.len() - 4]);
        assert(sub[2] == p[p.len() - 3]);
        assert(sub[3] == p[p.len() - 2]);
        assert(sub[4] == p[p.len() - 1]);
        if ok {
            assert(sub =~= gguf_suffix());
        } else {
            assert(sub != gguf_suffix());
        }
    }
    ok
}

/// Keeps exactly the directory entries that name a candidate artifact,
/// in the order they were handed in.
pub fn list_available_gguf_models(entries: Vec<String>) -> (r: Vec<String>)
    ensures
        r@ == gguf_models(entries@),
{
    let mut r: Vec<String> = Vec::new();
    let n = entries.len();
    let mut k: usize = 0;
    while k < n
        invariant
            n == entries@.len(),
            k <= n,
            r@ == gguf_models(entries@.subrange(0, k as int)),
        decreases n - k,
    {
        let e = &entries[k];
        let ghost pre = r@;
        if has_gguf_extension(e) {
            r.push(e.clone());
        }
        proof {
            let prefix = entries@.subrange(0, k as int);
            let grown = entries@.subrange(0, k + 1 as int);
            assert(grown =~= prefix.push(entries@[k as int]));
            reveal(Seq::filter);
            assert(grown.drop_last() =~= prefix);
            assert(r@ == gguf_models(grown));
        }
        k = k + 1;
    }
    proof {
        assert(entries@.subrange(0, n as int) =~= entries@);
    }
    r
}

} // verus!
