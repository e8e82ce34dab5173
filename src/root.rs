use vstd::prelude::*;

verus! {

/// `s` with every run of `/` shortened to one, and a leading `/` dropped.
pub open spec fn collapse_slashes(s: Seq<char>) -> Seq<char>
    decreases s.len(),
{
    if s.len() == 0 {
        Seq::empty()
    } else {
        let p = s.drop_last();
        if s.last() != '/' {
            collapse_slashes(p).push(s.last())
        } else if p.len() > 0 && p.last() != '/' {
            collapse_slashes(p).push('/')
        } else {
            collapse_slashes(p)
        }
    }
}

/// The canonical form of a root directory: its non-empty path segments,
/// each followed by `/`, after a leading `/`. An empty root is `/`.
pub open spec fn normalized_root(s: Seq<char>) -> Seq<char> {
    if s.len() > 0 && s.last() != '/' {
        seq!['/'] + collapse_slashes(s) + seq!['/']
    } else {
        seq!['/'] + collapse_slashes(s)
    }
}

/// Brings a root directory into its canonical form, `/a/b/`.
pub fn normalize_root(root: &str) -> (r: String)
    ensures
        r@ == normalized_root(root@),
{
    proof {
        reveal_strlit("/");
    }
    let n = root.unicode_len();
    let mut out = String::from_str("/");
    let mut prev_is_slash = true;
    let mut i: usize = 0;
    while i < n
        invariant
            n == root@.len(),
            i <= n,
            out@ == seq!['/'] + collapse_slashes(root@.subrange(0, i as int)),
            prev_is_slash == (i == 0 || root@[i - 1] == '/'),
        decreases n - i,
    {
        let c = root.get_char(i);
        let ghost p = root@.subrange(0, i as int);
        assert(root@.subrange(0, i + 1).drop_last() =~= p);
        if c != '/' {
            let one = root.substring_char(i, i + 1);
            assert(one@ =~= seq![c]);
            out.append(one);
            assert(out@ =~= seq!['/'] + collapse_slashes(root@.subrange(0, i + 1)));
        } else if !prev_is_slash {
            assert(p.len() > 0 && p.last() == root@[i - 1]);
            proof {
                reveal_strlit("/");
            }
            assert("/"@ =~= seq!['/']);
            out.append("/");
            assert(out@ =~= seq!['/'] + collapse_slashes(root@.subrange(0, i + 1)));
        } else {
            assert(out@ =~= seq!['/'] + collapse_slashes(root@.subrange(0, i + 1)));
        }
        prev_is_slash = c == '/';
        i = i + 1;
    }
    assert(root@.subrange(0, n as int) =~= root@);
    if !prev_is_slash {
        proof {
            reveal_strlit("/");
        }
        assert("/"@ =~= seq!['/']);
        out.append("/");
    }
    out
}

} // verus!
