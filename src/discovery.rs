//! Deterministic ordering of the discovered input files.
use vstd::prelude::*;
use vstd::string::StrSliceExecFns;
use vstd::utf8::{encode_utf8, encode_utf8_decode_utf8};

verus! {

/// Byte-wise lexicographic order; a proper prefix comes first.
pub open spec fn bytes_less(a: Seq<u8>, b: Seq<u8>) -> bool
    decreases a.len(),
{
    if b.len() == 0 {
        false
    } else if a.len() == 0 {
        true
    } else if a[0] != b[0] {
        a[0] < b[0]
    } else {
        bytes_less(a.drop_first(), b.drop_first())
    }
}

/// The UTF-8 encoding of a path's text, by which paths are ordered.
pub open spec fn path_bytes(p: String) -> Seq<u8> {
    encode_utf8(p@)
}

/// Each path comes strictly before every later one.
pub open spec fn strictly_ordered(paths: Seq<String>) -> bool {
    forall|i: int, j: int|
        0 <= i < j < paths.len() ==> bytes_less(path_bytes(paths[i]), path_bytes(paths[j]))
}

/// Some path of the list has the given text.
pub open spec fn lists(paths: Seq<String>, text: Seq<char>) -> bool {
    exists|i: int| 0 <= i < paths.len() && paths[i]@ == text
}

proof fn lemma_less_trans(a: Seq<u8>, b: Seq<u8>, c: Seq<u8>)
    requires
        bytes_less(a, b),
        bytes_less(b, c),
    ensures
        bytes_less(a, c),
    decreases a.len(),
{
    if a.len() > 0 && b.len() > 0 && c.len() > 0 && a[0] == b[0] && b[0] == c[0] {
        lemma_less_trans(a.drop_first(), b.drop_first(), c.drop_first());
    }
}

proof fn lemma_less_total(a: Seq<u8>, b: Seq<u8>)
    requires
        a != b,
    ensures
        bytes_less(a, b) || bytes_less(b, a),
    decreases a.len(),
{
    if a.len() == 0 && b.len() == 0 {
        assert(a =~= b);
    }
    if a.len() > 0 && b.len() > 0 && a[0] == b[0] {
        if a.drop_first() == b.drop_first() {
            assert(a =~= seq![a[0]] + a.drop_first());
            assert(b =~= seq![b[0]] + b.drop_first());
        }
        lemma_less_total(a.drop_first(), b.drop_first());
    }
}

fn less(a: &Vec<u8>, b: &Vec<u8>) -> (r: bool)
    ensures
        r == bytes_less(a@, b@),
{
    let mut i: usize = 0;
    assert(a@.skip(0) =~= a@ && b@.skip(0) =~= b@);
    while i < a.len() && i < b.len() && a[i] == b[i]
        invariant
            i <= a@.len(),
            i <= b@.len(),
            bytes_less(a@, b@) == bytes_less(a@.skip(i as int), b@.skip(i as int)),
        decreases a@.len() - i,
    {
        assert(a@.skip(i as int).drop_first() =~= a@.skip(i + 1));
        assert(b@.skip(i as int).drop_first() =~= b@.skip(i + 1));
        i = i + 1;
    }
    if i == b.len() {
        false
    } else if i == a.len() {
        true
    } else {
        a[i] < b[i]
    }
}

/// The texts of a list of paths.
pub open spec fn texts(paths: Seq<String>) -> Set<Seq<char>> {
    Set::new(|t: Seq<char>| lists(paths, t))
}

/// Each key is the encoding of the path at its position.
pub open spec fn keyed(out: Seq<String>, keys: Seq<Vec<u8>>) -> bool {
    &&& keys.len() == out.len()
    &&& forall|i: int| 0 <= i < out.len() ==> (#[trigger] keys[i])@ == path_bytes(out[i])
}

proof fn lemma_texts_take_step(paths: Seq<String>, n: int)
    requires
        0 <= n < paths.len(),
    ensures
        texts(paths.take(n + 1)) == texts(paths.take(n)).insert(paths[n]@),
{
    let longer = paths.take(n + 1);
    let shorter = paths.take(n);
    assert forall|t: Seq<char>| lists(longer, t) implies texts(shorter).insert(paths[n]@).contains(
        t,
    ) by {
        let w = choose|w: int| 0 <= w < longer.len() && longer[w]@ == t;
        if w < n {
            assert(shorter[w]@ == t);
        }
    }
    assert forall|t: Seq<char>| texts(shorter).insert(paths[n]@).contains(t) implies lists(
        longer,
        t,
    ) by {
        if t == paths[n]@ {
            assert(longer[n]@ == t);
        } else {
            let w = choose|w: int| 0 <= w < shorter.len() && shorter[w]@ == t;
            assert(longer[w]@ == t);
        }
    }
    assert(texts(longer) =~= texts(shorter).insert(paths[n]@));
}

/// Puts `p` into the ordered list unless a path with the same text is there.
fn place(out: &mut Vec<String>, keys: &mut Vec<Vec<u8>>, p: &String)
    requires
        keyed(old(out)@, old(keys)@),
        strictly_ordered(old(out)@),
    ensures
        keyed(final(out)@, final(keys)@),
        strictly_ordered(final(out)@),
        texts(final(out)@) == texts(old(out)@).insert(p@),
{
    let k = p.as_str().as_bytes_vec();
    assert(k@ == path_bytes(*p));
    let mut pos: usize = 0;
    while pos < keys.len() && less(&keys[pos], &k)
        invariant
            keyed(out@, keys@),
            pos <= keys@.len(),
            forall|i: int| 0 <= i < pos ==> bytes_less(path_bytes(#[trigger] out@[i]), k@),
        decreases keys@.len() - pos,
    {
        pos = pos + 1;
    }
    if pos < keys.len() && !less(&k, &keys[pos]) {
        proof {
            let q = out@[pos as int];
            if keys@[pos as int]@ != k@ {
                lemma_less_total(keys@[pos as int]@, k@);
            }
            encode_utf8_decode_utf8(q@);
            encode_utf8_decode_utf8(p@);
            assert(q@ == p@);
            assert(lists(out@, p@));
            assert(texts(out@) =~= texts(out@).insert(p@));
        }
    } else {
        let ghost o = out@;
        let ghost ok = keys@;
        let ghost n = pos as int;
        out.insert(pos, p.clone());
        keys.insert(pos, k);
        proof {
            o.insert_ensures(n, *p);
            ok.insert_ensures(n, k);
            assert forall|i: int| 0 <= i < out@.len() implies (#[trigger] keys@[i])@ == path_bytes(
                out@[i],
            ) by {
                if i > n {
                    assert(keys@[i] == ok[i - 1] && out@[i] == o[i - 1]);
                }
            }
            assert forall|i: int, j: int| 0 <= i < j < out@.len() implies bytes_less(
                path_bytes(out@[i]),
                path_bytes(out@[j]),
            ) by {
                if j == n {
                    assert(out@[i] == o[i]);
                } else if i == n {
                    assert(out@[j] == o[j - 1]);
                    assert(bytes_less(k@, ok[n]@));
                    if j - 1 > n {
                        lemma_less_trans(k@, path_bytes(o[n]), path_bytes(o[j - 1]));
                    }
                } else if i < n && j > n {
                    assert(out@[i] == o[i] && out@[j] == o[j - 1]);
                } else if i > n {
                    assert(out@[i] == o[i - 1] && out@[j] == o[j - 1]);
                } else {
                    assert(out@[i] == o[i] && out@[j] == o[j]);
                }
            }
            assert forall|t: Seq<char>| lists(out@, t) implies texts(o).insert(p@).contains(t) by {
                let w = choose|w: int| 0 <= w < out@.len() && out@[w]@ == t;
                if w < n {
                    assert(o[w]@ == t);
                } else if w > n {
                    assert(o[w - 1]@ == t);
                }
            }
            assert forall|t: Seq<char>| texts(o).insert(p@).contains(t) implies lists(out@, t) by {
                if t == p@ {
                    assert(out@[n]@ == t);
                } else {
                    let w = choose|w: int| 0 <= w < o.len() && o[w]@ == t;
                    if w < n {
                        assert(out@[w] == o[w]);
                    } else {
                        assert(out@[w + 1] == o[w]);
                    }
                }
            }
            assert(texts(out@) =~= texts(o).insert(p@));
        }
    }
}

/// The discovered paths without repeats, in byte-wise lexicographic order of
/// their text, so that every run visits the files in the same order.
pub fn order_paths(paths: Vec<String>) -> (r: Vec<String>)
    ensures
        strictly_ordered(r@),
        forall|t: Seq<char>| lists(r@, t) == lists(paths@, t),
{
    let mut out: Vec<String> = Vec::new();
    let mut keys: Vec<Vec<u8>> = Vec::new();
    let mut idx: usize = 0;
    assert(texts(out@) =~= texts(paths@.take(0)));
    while idx < paths.len()
        invariant
            idx <= paths@.len(),
            keyed(out@, keys@),
            strictly_ordered(out@),
            texts(out@) == texts(paths@.take(idx as int)),
        decreases paths@.len() - idx,
    {
        place(&mut out, &mut keys, &paths[idx]);
        proof {
            lemma_texts_take_step(paths@, idx as int);
        }
        idx = idx + 1;
    }
    assert(paths@.take(paths@.len() as int) =~= paths@);
    assert forall|t: Seq<char>| lists(out@, t) == lists(paths@, t) by {
        assert(texts(out@).contains(t) == lists(out@, t));
        assert(texts(paths@).contains(t) == lists(paths@, t));
    }
    out
}

} // verus!
