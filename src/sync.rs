//! One pass of the watcher: which freshly extracted posts are new.

use crate::post::{ForumPost, PostView};
use vstd::prelude::*;

verus! {

pub open spec fn views(v: Seq<ForumPost>) -> Seq<PostView> {
    v.map_values(|p: ForumPost| p@)
}

/// The urls that the records of `stored` carry.
pub open spec fn known_urls(stored: Seq<PostView>) -> Set<Seq<char>> {
    Set::new(|u: Seq<char>| exists|k: int| 0 <= k < stored.len() && #[trigger] stored[k].url == Some(u))
}

/// The characters of each text of `v`.
pub open spec fn text_set(v: Seq<String>) -> Set<Seq<char>> {
    Set::new(|u: Seq<char>| exists|k: int| 0 <= k < v.len() && #[trigger] v[k]@ == u)
}

/// The positions, from `i` on, of the candidates to insert: each that has a
/// url which is neither in `known` nor carried by an earlier such candidate.
/// Candidates without a url are passed over.
pub open spec fn fresh_from(cands: Seq<PostView>, known: Set<Seq<char>>, i: int) -> Seq<int>
    decreases cands.len() - i,
{
    if i < 0 || i >= cands.len() {
        Seq::empty()
    } else {
        match cands[i].url {
            Some(u) => if known.contains(u) {
                fresh_from(cands, known, i + 1)
            } else {
                seq![i] + fresh_from(cands, known.insert(u), i + 1)
            },
            None => fresh_from(cands, known, i + 1),
        }
    }
}

/// The positions of the new candidates of a pass against the stored records.
pub open spec fn fresh(cands: Seq<PostView>, stored: Seq<PostView>) -> Seq<int> {
    fresh_from(cands, known_urls(stored), 0)
}

/// The urls of the candidates at positions `idx`.
pub open spec fn urls_at(cands: Seq<PostView>, idx: Seq<int>) -> Set<Seq<char>> {
    Set::new(|u: Seq<char>| exists|k: int| 0 <= k < idx.len() && #[trigger] cands[idx[k]].url == Some(u))
}

fn contains_text(v: &Vec<String>, u: &String) -> (r: bool)
    ensures
        r == text_set(v@).contains(u@),
{
    let mut i: usize = 0;
    while i < v.len()
        invariant
            i <= v.len(),
            forall|k: int| 0 <= k < i ==> v@[k]@ != u@,
        decreases v.len() - i,
    {
        if v[i] == *u {
            assert(text_set(v@).contains(u@));
            return true;
        }
        i = i + 1;
    }
    false
}

proof fn lemma_text_set_push(v: Seq<String>, s: String)
    ensures
        text_set(v.push(s)) == text_set(v).insert(s@),
{
    assert forall|u: Seq<char>| text_set(v.push(s)).contains(u) implies text_set(v).insert(s@).contains(u) by {
        let k = choose|k: int| 0 <= k < v.push(s).len() && #[trigger] v.push(s)[k]@ == u;
        if k < v.len() {
            assert(v[k]@ == u);
        }
    }
    assert forall|u: Seq<char>| text_set(v).insert(s@).contains(u) implies text_set(v.push(s)).contains(u) by {
        if u == s@ {
            assert(v.push(s)[v.len() as int]@ == u);
        } else {
            let k = choose|k: int| 0 <= k < v.len() && #[trigger] v[k]@ == u;
            assert(v.push(s)[k]@ == u);
        }
    }
    assert(text_set(v.push(s)) =~= text_set(v).insert(s@));
}

/// Every pick has a url, and that url was not known before the pass: a
/// candidate without a url is never inserted nor announced.
pub proof fn lemma_picks_have_new_urls(cands: Seq<PostView>, known: Set<Seq<char>>, i: int)
    requires
        0 <= i,
    ensures
        forall|k: int|
            0 <= k < fresh_from(cands, known, i).len() ==> {
                let j = #[trigger] fresh_from(cands, known, i)[k];
                &&& i <= j < cands.len()
                &&& cands[j].url is Some
                &&& !known.contains(cands[j].url->0)
            },
    decreases cands.len() - i,
{
    if i < cands.len() {
        lemma_picks_have_new_urls(cands, known, i + 1);
        if let Some(u) = cands[i].url {
            if !known.contains(u) {
                lemma_picks_have_new_urls(cands, known.insert(u), i + 1);
                let f = fresh_from(cands, known, i);
                assert forall|k: int| 0 <= k < f.len() implies {
                    let j = #[trigger] f[k];
                    &&& i <= j < cands.len()
                    &&& cands[j].url is Some
                    &&& !known.contains(cands[j].url->0)
                } by {
                    if k > 0 {
                        assert(f[k] == fresh_from(cands, known.insert(u), i + 1)[k - 1]);
                    }
                }
            }
        }
    }
}

/// Each candidate url from position `i` on is known before the pass or is
/// the url of a pick.
proof fn lemma_urls_covered(cands: Seq<PostView>, known: Set<Seq<char>>, i: int)
    requires
        0 <= i,
    ensures
        forall|j: int|
            i <= j < cands.len() && #[trigger] cands[j].url is Some ==> known.contains(cands[j].url->0)
                || urls_at(cands, fresh_from(cands, known, i)).contains(cands[j].url->0),
    decreases cands.len() - i,
{
    if i < cands.len() {
        let f = fresh_from(cands, known, i);
        match cands[i].url {
            Some(u) => {
                if known.contains(u) {
                    lemma_urls_covered(cands, known, i + 1);
                } else {
                    let g = fresh_from(cands, known.insert(u), i + 1);
                    lemma_urls_covered(cands, known.insert(u), i + 1);
                    assert(f == seq![i] + g);
                    assert(cands[f[0]].url == Some(u));
                    assert forall|j: int|
                        i <= j < cands.len() && #[trigger] cands[j].url is Some implies known.contains(
                            cands[j].url->0,
                        ) || urls_at(cands, f).contains(cands[j].url->0) by {
                        let v = cands[j].url->0;
                        if v == u {
                            assert(cands[f[0]].url == Some(v));
                        } else if j > i && !known.contains(v) {
                            assert(urls_at(cands, g).contains(v));
                            let k = choose|k: int| 0 <= k < g.len() && #[trigger] cands[g[k]].url == Some(v);
                            assert(f[k + 1] == g[k]);
                            assert(cands[f[k + 1]].url == Some(v));
                        }
                    }
                }
            },
            None => {
                lemma_urls_covered(cands, known, i + 1);
            },
        }
    }
}

/// Where every candidate url from position `i` on is known, nothing is new.
proof fn lemma_all_known(cands: Seq<PostView>, known: Set<Seq<char>>, i: int)
    requires
        0 <= i,
        forall|j: int| i <= j < cands.len() && #[trigger] cands[j].url is Some ==> known.contains(cands[j].url->0),
    ensures
        fresh_from(cands, known, i).len() == 0,
    decreases cands.len() - i,
{
    if i < cands.len() {
        lemma_all_known(cands, known, i + 1);
    }
}

/// A second pass over the same candidates, once the picks of the first pass
/// are stored, picks nothing: no insert and no announcement.
pub proof fn lemma_second_pass_picks_nothing(cands: Seq<PostView>, stored: Seq<PostView>)
    ensures
        fresh_from(cands, known_urls(stored).union(urls_at(cands, fresh(cands, stored))), 0).len() == 0,
{
    let known = known_urls(stored);
    let known2 = known.union(urls_at(cands, fresh(cands, stored)));
    lemma_urls_covered(cands, known, 0);
    lemma_all_known(cands, known2, 0);
}

/// Picks out the new posts of a pass: the positions in `candidates`, in
/// order, of those whose url is set, is carried by no record of `stored`,
/// and is not that of an earlier pick. Candidates without a url are never
/// picked.
pub fn new_posts(candidates: &Vec<ForumPost>, stored: &Vec<ForumPost>) -> (r: Vec<usize>)
    ensures
        r@.map_values(|i: usize| i as int) == fresh(views(candidates@), views(stored@)),
{
    let ghost sv = views(stored@);
    let ghost cv = views(candidates@);
    let mut known: Vec<String> = Vec::new();
    let mut j: usize = 0;
    while j < stored.len()
        invariant
            sv == views(stored@),
            j <= stored.len(),
            text_set(known@) == known_urls(sv.take(j as int)),
        decreases stored.len() - j,
    {
        let ghost before = known@;
        if let Some(u) = &stored[j].url {
            known.push(u.clone());
            proof {
                lemma_text_set_push(before, *u);
            }
        }
        assert(known_urls(sv.take(j + 1)) =~= text_set(known@)) by {
            assert forall|u: Seq<char>| known_urls(sv.take(j + 1)).contains(u) implies text_set(known@).contains(u) by {
                let k = choose|k: int| 0 <= k < sv.take(j + 1).len() && #[trigger] sv.take(j + 1)[k].url == Some(u);
                if k < j {
                    assert(sv.take(j as int)[k].url == Some(u));
                }
            }
            assert forall|u: Seq<char>| text_set(known@).contains(u) implies known_urls(sv.take(j + 1)).contains(u) by {
                if known_urls(sv.take(j as int)).contains(u) {
                    let k = choose|k: int| 0 <= k < sv.take(j as int).len() && #[trigger] sv.take(j as int)[k].url == Some(u);
                    assert(sv.take(j + 1)[k].url == Some(u));
                } else {
                    assert(sv.take(j + 1)[j as int].url == Some(u));
                }
            }
        }
        j = j + 1;
    }
    assert(sv.take(stored.len() as int) =~= sv);
    let mut picked: Vec<usize> = Vec::new();
    let mut i: usize = 0;
    while i < candidates.len()
        invariant
            cv == views(candidates@),
            sv == views(stored@),
            i <= candidates.len(),
            picked@.map_values(|i: usize| i as int) + fresh_from(cv, text_set(known@), i as int)
                == fresh(cv, sv),
        decreases candidates.len() - i,
    {
        let ghost before = known@;
        let ghost pv = picked@.map_values(|i: usize| i as int);
        if let Some(u) = &candidates[i].url {
            if !contains_text(&known, u) {
                picked.push(i);
                known.push(u.clone());
                proof {
                    lemma_text_set_push(before, *u);
                    assert(picked@.map_values(|i: usize| i as int) =~= pv.push(i as int));
                    assert(pv.push(i as int) + fresh_from(cv, text_set(known@), i + 1) =~= pv + (seq![i as int] + fresh_from(cv, text_set(known@), i + 1)));
                }
            }
        }
        i = i + 1;
    }
    picked
}

} // verus!
