//! The fast and the capable model of subagents, ranked by what the catalog says of them.
use crate::text::{comes_before, same_text, text_before};
use vstd::prelude::*;

verus! {

/// A model of the catalog.
#[derive(Clone, Debug, PartialEq, Eq)]
pub struct CatalogModel {
    pub id: String,
    pub model: String,
    /// Rank of the model; one without a rank takes no part.
    pub capable_model: Option<i64>,
}

/// Whether the model ranks below the other: by rank, then by id.
pub open spec fn ranks_below(left: CatalogModel, right: CatalogModel) -> bool {
    &&& left.capable_model is Some
    &&& right.capable_model is Some
    &&& left.capable_model->0 < right.capable_model->0 || (left.capable_model->0
        == right.capable_model->0 && text_before(left.id@, right.id@))
}

/// How many models take part.
pub open spec fn participants(models: Seq<CatalogModel>) -> nat
    decreases models.len(),
{
    if models.len() == 0 {
        0
    } else {
        participants(models.drop_last()) + if models.last().capable_model is Some {
            1nat
        } else {
            0nat
        }
    }
}

/// Whether the host's model takes part.
pub open spec fn host_participates(models: Seq<CatalogModel>, host: Seq<char>) -> bool {
    exists|i: int|
        0 <= i < models.len() && (#[trigger] models[i]).model@ == host
            && models[i].capable_model is Some
}

/// Whether the model is the lowest (or the highest) of those that take part.
pub open spec fn is_extreme(models: Seq<CatalogModel>, at: int, lowest: bool) -> bool {
    &&& 0 <= at < models.len()
    &&& models[at].capable_model is Some
    &&& forall|j: int|
        0 <= j < models.len() && (#[trigger] models[j]).capable_model is Some ==> if lowest {
            !ranks_below(models[j], models[at])
        } else {
            !ranks_below(models[at], models[j])
        }
}

fn below(left: &CatalogModel, right: &CatalogModel) -> (yes: bool)
    ensures
        yes == ranks_below(*left, *right),
{
    match (left.capable_model, right.capable_model) {
        (Some(l), Some(r)) => l < r || (l == r && comes_before(
            left.id.as_str(),
            right.id.as_str(),
        )),
        _ => false,
    }
}

proof fn text_order_is_asymmetric(a: Seq<char>, b: Seq<char>)
    ensures
        text_before(a, b) ==> !text_before(b, a),
        !text_before(a, b) && !text_before(b, a) ==> a == b,
    decreases a.len(),
{
    if a.len() > 0 && b.len() > 0 {
        text_order_is_asymmetric(a.drop_first(), b.drop_first());
        if a[0] == b[0] && a.drop_first() == b.drop_first() {
            assert(a =~= seq![a[0]] + a.drop_first());
            assert(b =~= seq![b[0]] + b.drop_first());
        }
    } else if a.len() == 0 && b.len() == 0 {
        assert(a =~= b);
    }
}

proof fn text_order_is_transitive(a: Seq<char>, b: Seq<char>, c: Seq<char>)
    ensures
        text_before(a, b) && text_before(b, c) ==> text_before(a, c),
    decreases a.len(),
{
    if a.len() > 0 && b.len() > 0 && c.len() > 0 {
        text_order_is_transitive(a.drop_first(), b.drop_first(), c.drop_first());
    }
}

/// Texts are in a total order, so that what is not before a text is it or after it.
proof fn text_before_is_an_order(a: Seq<char>, b: Seq<char>, c: Seq<char>)
    ensures
        !text_before(a, a),
        text_before(a, b) && text_before(b, c) ==> text_before(a, c),
        !text_before(a, b) && !text_before(b, c) ==> !text_before(a, c),
{
    text_order_is_asymmetric(a, a);
    text_order_is_asymmetric(a, b);
    text_order_is_asymmetric(b, c);
    text_order_is_asymmetric(a, c);
    text_order_is_transitive(a, b, c);
    text_order_is_transitive(c, b, a);
}

fn extreme(models: &Vec<CatalogModel>, lowest: bool) -> (at: usize)
    requires
        participants(models@) > 0,
    ensures
        is_extreme(models@, at as int, lowest),
{
    let mut best: Option<usize> = None;
    let mut i: usize = 0;
    assert(models@.take(0) =~= Seq::empty());
    while i < models.len()
        invariant
            0 <= i <= models.len(),
            best is None <==> participants(models@.take(i as int)) == 0,
            best matches Some(at) ==> at < i && is_extreme(
                models@.take(i as int),
                at as int,
                lowest,
            ),
        decreases models.len() - i,
    {
        let ghost seen = models@.take(i as int);
        let ghost next = models@.take(i + 1);
        proof {
            assert(next.drop_last() =~= seen);
            assert(next.last() == models@[i as int]);
            assert(forall|j: int| 0 <= j < i ==> seen[j] == #[trigger] next[j]);
        }
        if models[i].capable_model.is_some() {
            let better = match best {
                None => true,
                Some(at) => if lowest {
                    below(&models[i], &models[at])
                } else {
                    below(&models[at], &models[i])
                },
            };
            proof {
                if best is None {
                    no_participants(seen);
                }
                let new = models@[i as int];
                text_before_is_an_order(new.id@, new.id@, new.id@);
                if best is Some {
                    let old_best = models@[best->0 as int];
                    assert(seen[best->0 as int] == old_best);
                    assert forall|j: int|
                        0 <= j < i && (#[trigger] next[j]).capable_model is Some implies if better {
                        if lowest {
                            !ranks_below(next[j], new)
                        } else {
                            !ranks_below(new, next[j])
                        }
                    } else {
                        if lowest {
                            !ranks_below(next[j], old_best)
                        } else {
                            !ranks_below(old_best, next[j])
                        }
                    } by {
                        assert(seen[j] == next[j]);
                        text_before_is_an_order(next[j].id@, new.id@, old_best.id@);
                        text_before_is_an_order(old_best.id@, new.id@, next[j].id@);
                        text_before_is_an_order(new.id@, next[j].id@, old_best.id@);
                        text_before_is_an_order(old_best.id@, next[j].id@, new.id@);
                    }
                }
            }
            if better {
                best = Some(i);
            }
        }
        i = i + 1;
    }
    assert(models@.take(i as int) =~= models@);
    match best {
        Some(at) => at,
        None => 0,
    }
}

proof fn no_participants(models: Seq<CatalogModel>)
    requires
        participants(models) == 0,
    ensures
        forall|j: int| 0 <= j < models.len() ==> (#[trigger] models[j]).capable_model is None,
    decreases models.len(),
{
    if models.len() > 0 {
        no_participants(models.drop_last());
        assert forall|j: int| 0 <= j < models.len() implies (#[trigger] models[j]).capable_model
            is None by {
            if j < models.len() - 1 {
                assert(models.drop_last()[j] == models[j]);
            }
        }
    }
}

fn count_participants(models: &Vec<CatalogModel>) -> (count: usize)
    ensures
        count == participants(models@),
{
    let mut count: usize = 0;
    let mut i: usize = 0;
    while i < models.len()
        invariant
            0 <= i <= models.len(),
            count == participants(models@.take(i as int)),
            count <= i,
        decreases models.len() - i,
    {
        proof {
            assert(models@.take(i + 1).drop_last() =~= models@.take(i as int));
            assert(models@.take(i + 1).last() == models@[i as int]);
        }
        if models[i].capable_model.is_some() {
            count = count + 1;
        }
        i = i + 1;
    }
    assert(models@.take(i as int) =~= models@);
    count
}

fn host_takes_part(models: &Vec<CatalogModel>, host: &str) -> (yes: bool)
    ensures
        yes == host_participates(models@, host@),
{
    let mut i: usize = 0;
    while i < models.len()
        invariant
            0 <= i <= models.len(),
            forall|j: int|
                0 <= j < i ==> !((#[trigger] models@[j]).model@ == host@
                    && models@[j].capable_model is Some),
        decreases models.len() - i,
    {
        if same_text(models[i].model.as_str(), host) && models[i].capable_model.is_some() {
            assert(models@[i as int].model@ == host@);
            return true;
        }
        i = i + 1;
    }
    false
}

/// The ids of the fast and the capable model for subagents: the lowest and the highest of
/// the models that take part. There are none unless the host's own model takes part and at
/// least one other does.
pub fn resolve_tier_keys(models: &Vec<CatalogModel>, host_model: &str) -> (keys: Option<
    (String, String),
>)
    ensures
        keys is None <==> !host_participates(models@, host_model@) || participants(models@) < 2,
        keys matches Some((fast, capable)) ==> (exists|low: int, high: int|
            is_extreme(models@, low, true) && is_extreme(models@, high, false)
                && fast == #[trigger] models@[low].id && capable == #[trigger] models@[high].id),
{
    if !host_takes_part(models, host_model) {
        return None;
    }
    if count_participants(models) < 2 {
        return None;
    }
    let low: usize = extreme(models, true);
    let high: usize = extreme(models, false);
    let fast = models[low].id.clone();
    let capable = models[high].id.clone();
    assert(fast == models@[low as int].id && capable == models@[high as int].id);
    Some((fast, capable))
}

/// The capable model never ranks below the fast one.
pub proof fn capable_is_at_least_fast(models: Seq<CatalogModel>, low: int, high: int)
    requires
        is_extreme(models, low, true),
        is_extreme(models, high, false),
    ensures
        models[low].capable_model->0 <= models[high].capable_model->0,
        !ranks_below(models[high], models[low]),
{
    assert(!ranks_below(models[high], models[low]));
}

} // verus!
