//! The model cache's representation and its meaning. The cache is a vector
//! of models with pairwise-distinct ids; it denotes the mapping from id to
//! model that re-inserting every model of a fetched list into a map, keyed by
//! its id, would produce — a later entry overrides an earlier one with the
//! same id.

use vstd::prelude::*;

use crate::domain::{Model, ModelId};

verus! {

/// Whether some entry of `ms` carries the id `id`.
pub open spec fn seq_has_id(ms: Seq<Model>, id: Seq<char>) -> bool {
    exists|i: int| 0 <= i < ms.len() && ms[i].id@ == id
}

/// A well-formed cache holds no two entries with the same id.
pub open spec fn cache_wf(s: Seq<Model>) -> bool {
    forall|i: int, j: int| 0 <= i < j < s.len() ==> s[i].id@ != s[j].id@
}

/// The mapping a list of models denotes: every model keyed by its id, later
/// entries overriding earlier ones.
pub open spec fn models_map(ms: Seq<Model>) -> Map<Seq<char>, Model>
    decreases ms.len(),
{
    if ms.len() == 0 {
        Map::empty()
    } else {
        models_map(ms.drop_last()).insert(ms.last().id@, ms.last())
    }
}

/// The mapping a list denotes holds exactly the ids that occur in the list.
pub proof fn lemma_models_map_domain(ms: Seq<Model>)
    ensures
        forall|id: Seq<char>|
            #![trigger models_map(ms).contains_key(id)]
            #![trigger seq_has_id(ms, id)]
            models_map(ms).contains_key(id) <==> seq_has_id(ms, id),
    decreases ms.len(),
{
    if ms.len() == 0 {
    } else {
        lemma_models_map_domain(ms.drop_last());
        assert forall|id: Seq<char>| models_map(ms).contains_key(id) implies seq_has_id(
            ms,
            id,
        ) by {
            if id == ms.last().id@ {
                assert(ms[ms.len() - 1].id@ == id);
            } else {
                assert(models_map(ms.drop_last()).contains_key(id));
                assert(seq_has_id(ms.drop_last(), id));
                let i = choose|i: int|
                    0 <= i < ms.drop_last().len() && ms.drop_last()[i].id@ == id;
                assert(ms.drop_last()[i] == ms[i]);
                assert(ms[i].id@ == id);
            }
        }
        assert forall|id: Seq<char>| seq_has_id(ms, id) implies models_map(ms).contains_key(
            id,
        ) by {
            let i = choose|i: int| 0 <= i < ms.len() && ms[i].id@ == id;
            if i < ms.len() - 1 {
                assert(ms.drop_last()[i].id@ == id);
                assert(seq_has_id(ms.drop_last(), id));
            }
        }
    }
}

/// An entry that no later entry shadows is what its id maps to.
pub proof fn lemma_models_map_last(ms: Seq<Model>, i: int)
    requires
        0 <= i < ms.len(),
        forall|j: int| i < j < ms.len() ==> ms[j].id@ != ms[i].id@,
    ensures
        models_map(ms).contains_key(ms[i].id@),
        models_map(ms)[ms[i].id@] == ms[i],
    decreases ms.len(),
{
    if i == ms.len() - 1 {
    } else {
        assert(ms.drop_last()[i] == ms[i]);
        lemma_models_map_last(ms.drop_last(), i);
        assert(ms.last().id@ != ms[i].id@);
    }
}

/// Prepending a model changes the denoted mapping only where no later entry
/// carries the same id.
pub proof fn lemma_models_map_cons(m: Model, s: Seq<Model>)
    ensures
        models_map(seq![m] + s) == if seq_has_id(s, m.id@) {
            models_map(s)
        } else {
            models_map(s).insert(m.id@, m)
        },
    decreases s.len(),
{
    let t = seq![m] + s;
    if s.len() == 0 {
        assert(t.len() == 1);
        assert(t.last() == m);
        assert(t.drop_last() =~= Seq::<Model>::empty());
        assert(models_map(t.drop_last()) == Map::<Seq<char>, Model>::empty());
        assert(models_map(t) == Map::<Seq<char>, Model>::empty().insert(m.id@, m));
        assert(models_map(s) == Map::<Seq<char>, Model>::empty());
        assert(models_map(t) == models_map(s).insert(m.id@, m));
        assert(!seq_has_id(s, m.id@));
    } else {
        assert(t.last() == s.last());
        assert(t.drop_last() =~= seq![m] + s.drop_last());
        lemma_models_map_cons(m, s.drop_last());
        lemma_models_map_domain(s);
        lemma_models_map_domain(s.drop_last());
        if seq_has_id(s.drop_last(), m.id@) {
            let i = choose|i: int|
                0 <= i < s.drop_last().len() && s.drop_last()[i].id@ == m.id@;
            assert(s[i].id@ == m.id@);
            assert(seq_has_id(s, m.id@));
            assert(models_map(t) == models_map(s));
        } else {
            if s.last().id@ == m.id@ {
                assert(s[s.len() - 1].id@ == m.id@);
                assert(seq_has_id(s, m.id@));
                assert(models_map(t) =~= models_map(s));
            } else {
                if seq_has_id(s, m.id@) {
                    let i = choose|i: int| 0 <= i < s.len() && s[i].id@ == m.id@;
                    assert(i < s.len() - 1);
                    assert(s.drop_last()[i] == s[i]);
                    assert(seq_has_id(s.drop_last(), m.id@));
                    assert(false);
                }
                assert(models_map(t) == models_map(s.drop_last()).insert(m.id@, m).insert(
                    s.last().id@,
                    s.last(),
                ));
                assert(models_map(s).insert(m.id@, m) == models_map(s.drop_last()).insert(
                    s.last().id@,
                    s.last(),
                ).insert(m.id@, m));
                assert(models_map(s.drop_last()).insert(m.id@, m).insert(s.last().id@, s.last())
                    =~= models_map(s.drop_last()).insert(s.last().id@, s.last()).insert(
                    m.id@,
                    m,
                ));
                assert(models_map(t) =~= models_map(s).insert(m.id@, m));
            }
        }
    }
}

/// In a well-formed cache the number of entries equals the number of
/// distinct ids it holds.
pub proof fn lemma_models_map_len(s: Seq<Model>)
    requires
        cache_wf(s),
    ensures
        models_map(s).dom().len() == s.len(),
        models_map(s).dom().finite(),
    decreases s.len(),
{
    if s.len() == 0 {
        assert(models_map(s).dom() =~= Set::<Seq<char>>::empty());
    } else {
        assert(cache_wf(s.drop_last()));
        lemma_models_map_len(s.drop_last());
        lemma_models_map_domain(s.drop_last());
        if seq_has_id(s.drop_last(), s.last().id@) {
            let i = choose|i: int|
                0 <= i < s.drop_last().len() && s.drop_last()[i].id@ == s.last().id@;
            assert(s[i].id@ == s[s.len() - 1].id@);
            assert(false);
        }
        assert(!models_map(s.drop_last()).contains_key(s.last().id@));
        assert(models_map(s).dom() =~= models_map(s.drop_last()).dom().insert(s.last().id@));
    }
}

/// What a successful refresh leaves cached: exactly the ids occurring in the
/// fetched list, and every entry that no later entry shadows — for a list of
/// pairwise-distinct ids, every entry — mapped to the exact model fetched
/// with it.
pub proof fn lemma_cache_exactly_fetched(ms: Seq<Model>)
    ensures
        forall|id: Seq<char>|
            #![trigger models_map(ms).contains_key(id)]
            #![trigger seq_has_id(ms, id)]
            models_map(ms).contains_key(id) <==> seq_has_id(ms, id),
        forall|i: int|
            (0 <= i < ms.len() && (forall|j: int| i < j < ms.len() ==> ms[j].id@ != ms[i].id@))
                ==> #[trigger] models_map(ms)[ms[i].id@] == ms[i],
{
    lemma_models_map_domain(ms);
    assert forall|i: int|
        0 <= i < ms.len() && (forall|j: int|
            i < j < ms.len() ==> ms[j].id@ != ms[i].id@) implies #[trigger] models_map(
        ms,
    )[ms[i].id@] == ms[i] by {
        lemma_models_map_last(ms, i);
    }
}

/// Index of the entry carrying `id`, where the cache holds one.
pub fn find_model_index(cache: &Vec<Model>, id: &ModelId) -> (r: Option<usize>)
    ensures
        match r {
            Some(i) => i < cache@.len() && cache@[i as int].id@ == id@,
            None => !seq_has_id(cache@, id@),
        },
{
    let mut i: usize = 0;
    while i < cache.len()
        invariant
            i <= cache.len(),
            forall|j: int| 0 <= j < i ==> cache@[j].id@ != id@,
        decreases cache.len() - i,
    {
        if cache[i].id.id == id.id {
            return Some(i);
        }
        i = i + 1;
    }
    None
}

/// Look `id` up in a well-formed cache; a hit returns exactly the model the
/// cache's mapping assigns to it.
pub fn cache_lookup(cache: &Vec<Model>, id: &ModelId) -> (r: Option<Model>)
    requires
        cache_wf(cache@),
    ensures
        match r {
            Some(m) => models_map(cache@).contains_key(id@) && m == models_map(cache@)[id@],
            None => !models_map(cache@).contains_key(id@),
        },
{
    match find_model_index(cache, id) {
        Some(i) => {
            proof {
                assert forall|j: int| i < j < cache@.len() implies cache@[j].id@
                    != cache@[i as int].id@ by {}
                lemma_models_map_last(cache@, i as int);
            }
            Some(cache[i].clone())
        },
        None => {
            proof {
                lemma_models_map_domain(cache@);
            }
            None
        },
    }
}

/// Build a well-formed cache holding exactly the mapping `models` denotes:
/// every fetched model keyed by its id, later entries overriding earlier
/// ones.
pub fn rebuild_cache(models: &Vec<Model>) -> (r: Vec<Model>)
    ensures
        cache_wf(r@),
        models_map(r@) == models_map(models@),
{
    let mut cache: Vec<Model> = Vec::new();
    let mut i: usize = models.len();
    proof {
        assert(models@.skip(i as int) =~= Seq::<Model>::empty());
    }
    while i > 0
        invariant
            i <= models.len(),
            cache_wf(cache@),
            models_map(cache@) == models_map(models@.skip(i as int)),
        decreases i,
    {
        i = i - 1;
        let m = &models[i];
        let ghost suffix = models@.skip(i as int + 1);
        proof {
            assert(models@.skip(i as int) =~= seq![models@[i as int]] + suffix);
            lemma_models_map_cons(models@[i as int], suffix);
            lemma_models_map_domain(cache@);
            lemma_models_map_domain(suffix);
        }
        match find_model_index(&cache, &m.id) {
            Some(k) => {
                proof {
                    assert(cache@[k as int].id@ == m.id@);
                    assert(seq_has_id(cache@, m.id@));
                    assert(seq_has_id(suffix, m.id@));
                }
            },
            None => {
                let ghost pre = cache@;
                cache.push(m.clone());
                proof {
                    assert(cache@.drop_last() =~= pre);
                    assert(cache@.last() == models@[i as int]);
                    assert(!seq_has_id(suffix, m.id@));
                    assert(models_map(cache@) == models_map(pre).insert(
                        models@[i as int].id@,
                        models@[i as int],
                    ));
                    assert forall|a: int, b: int| 0 <= a < b < cache@.len() implies cache@[a].id@
                        != cache@[b].id@ by {
                        if b == cache@.len() - 1 {
                            if cache@[a].id@ == m.id@ {
                                assert(pre[a].id@ == m.id@);
                                assert(seq_has_id(pre, m.id@));
                            }
                        } else {
                            assert(pre[a].id@ != pre[b].id@);
                        }
                    }
                }
            },
        }
    }
    proof {
        assert(models@.skip(0) =~= models@);
    }
    cache
}

} // verus!
