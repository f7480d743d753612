//! What is done with the addresses that bridge discovery returns.

use vstd::prelude::*;
use crate::text::views;

verus! {

/// The addresses in the order of their first appearance, each once.
pub open spec fn deduped(s: Seq<Seq<char>>) -> Seq<Seq<char>>
    decreases s.len(),
{
    if s.len() == 0 {
        Seq::empty()
    } else {
        let d = deduped(s.drop_last());
        if d.contains(s.last()) {
            d
        } else {
            d.push(s.last())
        }
    }
}

/// Removes repeated addresses, keeping the first appearance of each in its
/// place.
pub fn dedup_addresses(found: &Vec<String>) -> (r: Vec<String>)
    ensures
        views(r@) == deduped(views(found@)),
{
    let mut out: Vec<String> = Vec::new();
    let mut i: usize = 0;
    while i < found.len()
        invariant
            i <= found.len(),
            views(out@) == deduped(views(found@).take(i as int)),
        decreases found.len() - i,
    {
        let mut seen = false;
        let mut j: usize = 0;
        while j < out.len()
            invariant
                i < found.len(),
                j <= out.len(),
                seen == views(out@).take(j as int).contains(found@[i as int]@),
            decreases out.len() - j,
        {
            let same = out[j] == found[i];
            proof {
                let x = found@[i as int]@;
                let p = views(out@).take(j as int);
                let t = views(out@).take(j + 1);
                assert(t =~= p.push(out@[j as int]@));
                if p.contains(x) {
                    let k = choose|k: int| 0 <= k < p.len() && p[k] == x;
                    assert(t[k] == x);
                }
                if same {
                    assert(t[j as int] == x);
                }
                if t.contains(x) {
                    let k = choose|k: int| 0 <= k < t.len() && t[k] == x;
                    if k < j {
                        assert(p[k] == x);
                    }
                }
            }
            if same {
                seen = true;
            }
            j = j + 1;
        }
        assert(views(out@).take(j as int) =~= views(out@));
        let ghost v = views(found@).take(i + 1);
        assert(v.drop_last() =~= views(found@).take(i as int));
        assert(v.last() == found@[i as int]@);
        if !seen {
            out.push(found[i].clone());
        }
        assert(views(out@) =~= deduped(v));
        i = i + 1;
    }
    assert(views(found@).take(i as int) =~= views(found@));
    out
}

/// Every address of a deduplicated list was found, every address found is
/// in it, and none appears twice.
pub proof fn lemma_dedup(s: Seq<Seq<char>>)
    ensures
        forall|x: Seq<char>| deduped(s).contains(x) <==> s.contains(x),
        deduped(s).no_duplicates(),
    decreases s.len(),
{
    if s.len() > 0 {
        let p = s.drop_last();
        let l = s.last();
        let d = deduped(p);
        lemma_dedup(p);
        assert(s =~= p.push(l));
        assert forall|x: Seq<char>| s.contains(x) <==> (p.contains(x) || x == l) by {
            if s.contains(x) {
                let k = choose|k: int| 0 <= k < s.len() && s[k] == x;
                if k < s.len() - 1 {
                    assert(p[k] == x);
                }
            }
            if p.contains(x) {
                let k = choose|k: int| 0 <= k < p.len() && p[k] == x;
                assert(s[k] == x);
            }
            if x == l {
                assert(s[s.len() - 1] == x);
            }
        }
        if !d.contains(l) {
            let e = d.push(l);
            assert forall|x: Seq<char>| e.contains(x) <==> (d.contains(x) || x == l) by {
                if e.contains(x) {
                    let k = choose|k: int| 0 <= k < e.len() && e[k] == x;
                    if k < d.len() {
                        assert(d[k] == x);
                    }
                }
                if d.contains(x) {
                    let k = choose|k: int| 0 <= k < d.len() && d[k] == x;
                    assert(e[k] == x);
                }
                if x == l {
                    assert(e[d.len() as int] == x);
                }
            }
            assert forall|i: int, j: int| 0 <= i < e.len() && 0 <= j < e.len() && i != j
                implies e[i] != e[j] by {
                if i == d.len() {
                    assert(d[j] == e[j]);
                } else if j == d.len() {
                    assert(d[i] == e[i]);
                }
            }
        }
    }
}

/// The message when discovery finds no bridge.
pub open spec fn no_bridge_message() -> Seq<char> {
    "No bridge found"@
}

/// The bridge taken from a discovery result: the first address found; an
/// empty result or a failure of discovery is an error.
pub fn pick_discovered(found: Result<Vec<String>, String>) -> (r: Result<String, String>)
    ensures
        found is Ok && found->Ok_0@.len() > 0 ==> r == Ok::<String, String>(found->Ok_0@[0]),
        found is Ok && found->Ok_0@.len() == 0 ==> r is Err && r->Err_0@ == no_bridge_message(),
        found is Err ==> r == Err::<String, String>(found->Err_0),
{
    match found {
        Ok(v) => {
            if v.len() > 0 {
                Ok(v[0].clone())
            } else {
                Err("No bridge found".to_owned())
            }
        },
        Err(e) => Err(e),
    }
}

/// The bridge to register on: the one given, else the one picked from
/// the discovery result. `found` is `None` when discovery was not run;
/// without a given bridge that is an error too.
pub fn register_bridge(given: Option<String>, found: Option<Result<Vec<String>, String>>) -> (r: Result<
    String,
    String,
>)
    ensures
        given is Some ==> r == Ok::<String, String>(given->Some_0),
        given is None && found is Some && found->Some_0 is Ok && found->Some_0->Ok_0@.len() > 0
            ==> r == Ok::<String, String>(found->Some_0->Ok_0@[0]),
        given is None && found is Some && found->Some_0 is Ok && found->Some_0->Ok_0@.len() == 0
            ==> r is Err && r->Err_0@ == no_bridge_message(),
        given is None && found is Some && found->Some_0 is Err ==> r == Err::<String, String>(
            found->Some_0->Err_0,
        ),
        given is None && found is None ==> r is Err && r->Err_0@ == no_bridge_message(),
{
    match given {
        Some(h) => Ok(h),
        None => match found {
            Some(f) => pick_discovered(f),
            None => Err("No bridge found".to_owned()),
        },
    }
}

} // verus!
