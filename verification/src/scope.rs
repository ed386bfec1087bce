//! The scope registry: the scopes that a repository's configuration allows.

use vstd::prelude::*;

verus! {

/// The configuration key whose values are the allowed scopes.
pub open spec fn scope_key() -> Seq<char> {
    "ce.scope"@
}

/// The values that could be read as text, in their order.
pub open spec fn readable(values: Seq<Option<Seq<char>>>) -> Seq<Seq<char>>
    decreases values.len(),
{
    if values.len() == 0 {
        Seq::empty()
    } else {
        let before = readable(values.drop_last());
        match values.last() {
            Some(value) => before.push(value),
            None => before,
        }
    }
}

/// The registry for the configured `values`: the empty entry, which stands
/// for "no scope", and behind it the readable values in their order.
pub open spec fn scope_entries(values: Seq<Option<Seq<char>>>) -> Seq<Seq<char>> {
    seq![Seq::<char>::empty()] + readable(values)
}

/// The name of the multi-valued configuration entry to read the scopes from.
pub fn key() -> (r: &'static str)
    ensures
        r@ == scope_key(),
{
    "ce.scope"
}

/// Builds the registry from the values of the configuration entry, `None`
/// standing for a value that is no text.
pub fn scope_list(values: &[Option<String>]) -> (r: Vec<String>)
    ensures
        r.deep_view() == scope_entries(values.deep_view()),
{
    let mut scopes: Vec<String> = Vec::new();
    scopes.push(String::new());
    let ghost all = values.deep_view();
    assert(scopes.deep_view() =~= scope_entries(all.take(0)));
    let mut i: usize = 0;
    while i < values.len()
        invariant
            i <= values.len(),
            all == values.deep_view(),
            scopes.deep_view() == scope_entries(all.take(i as int)),
        decreases values.len() - i,
    {
        proof {
            assert(all.take(i + 1).drop_last() =~= all.take(i as int));
            assert(all.take(i + 1).last() == values[i as int].deep_view());
        }
        let ghost before = scopes.deep_view();
        match &values[i] {
            Some(value) => {
                scopes.push(value.clone());
                assert(scopes.deep_view() =~= before.push(value@));
                assert(scopes.deep_view() =~= scope_entries(all.take(i + 1)));
            },
            None => {},
        }
        i += 1;
    }
    assert(all.take(values.len() as int) =~= all);
    scopes
}

/// The registry opens with the entry for "no scope", and every readable
/// value follows it.
pub proof fn lemma_registry_keeps_sentinel(values: Seq<Option<Seq<char>>>)
    ensures
        scope_entries(values).len() == 1 + readable(values).len(),
        scope_entries(values)[0].len() == 0,
        scope_entries(values).contains(Seq::<char>::empty()),
{
    assert(scope_entries(values)[0] == Seq::<char>::empty());
}

/// Without a readable value the registry holds the entry for "no scope"
/// alone; with one it holds more.
pub proof fn lemma_registry_size(values: Seq<Option<Seq<char>>>)
    ensures
        scope_entries(values).len() == 1 <==> forall|i: int|
            0 <= i < values.len() ==> values[i] is None,
    decreases values.len(),
{
    if values.len() > 0 {
        let front = values.drop_last();
        lemma_registry_size(front);
        if readable(values).len() == 0 {
            assert forall|i: int| 0 <= i < values.len() implies values[i] is None by {
                if i < front.len() {
                    assert(front[i] == values[i]);
                }
            }
        } else if values.last() is None {
            let k = choose|k: int| 0 <= k < front.len() && !(front[k] is None);
            assert(values[k] == front[k]);
        }
    }
}

} // verus!
