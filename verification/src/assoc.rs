//! Maps kept as parallel sequences of keys and values.

use vstd::prelude::*;

verus! {

/// The map built from parallel key and value sequences (later keys win).
pub open spec fn spec_map_of<V>(keys: Seq<Seq<char>>, vals: Seq<V>) -> Map<Seq<char>, V>
    decreases keys.len(),
{
    if keys.len() == 0 || vals.len() == 0 {
        Map::empty()
    } else {
        spec_map_of(keys.drop_last(), vals.drop_last()).insert(keys.last(), vals.last())
    }
}

pub proof fn lemma_map_of_index<V>(keys: Seq<Seq<char>>, vals: Seq<V>)
    requires
        keys.len() == vals.len(),
        keys.no_duplicates(),
    ensures
        spec_map_of(keys, vals).dom() == keys.to_set(),
        forall|i: int| 0 <= i < keys.len() ==> #[trigger] spec_map_of(keys, vals)[keys[i]] == vals[i],
    decreases keys.len(),
{
    if keys.len() > 0 {
        let k0 = keys.drop_last();
        let v0 = vals.drop_last();
        assert(k0.no_duplicates());
        lemma_map_of_index(k0, v0);
        assert(spec_map_of(keys, vals).dom() =~= keys.to_set()) by {
            assert forall|x: Seq<char>| keys.to_set().contains(x) <==> k0.to_set().insert(keys.last()).contains(x) by {
                if keys.to_set().contains(x) {
                    let i = choose|i: int| 0 <= i < keys.len() && keys[i] == x;
                    if i < keys.len() - 1 {
                        assert(k0[i] == x);
                    }
                }
                if k0.to_set().contains(x) {
                    let i = choose|i: int| 0 <= i < k0.len() && k0[i] == x;
                    assert(keys[i] == x);
                }
            }
        }
        assert forall|i: int| 0 <= i < keys.len() implies #[trigger] spec_map_of(keys, vals)[keys[i]] == vals[i] by {
            if i < keys.len() - 1 {
                assert(k0[i] == keys[i]);
                assert(keys[i] != keys.last());
            }
        }
    } else {
        assert(keys.to_set() =~= Set::empty());
    }
}

} // verus!
