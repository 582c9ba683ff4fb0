//! Building blocks for records: copying the fields of one record into another.
use crate::json::{json_model, log_entries, log_fields, log_insert, Fields, Log};
use vstd::prelude::*;

verus! {

/// The names that stand in `entries` at index `from` or later.
pub open spec fn names_from(entries: Seq<(String, serde_json::Value)>, from: int) -> Set<
    Seq<char>,
> {
    Set::new(
        |name: Seq<char>|
            exists|j: int| from <= j < entries.len() && #[trigger] entries[j].0@ == name,
    )
}

/// The fields of `target` after those of `source` were copied into it: a
/// name that both hold has the value from `source`.
pub open spec fn merged(target: Fields, source: Fields) -> Fields {
    target.union_prefer_right(source)
}

/// Copies every field of `source` into `target`. A field of `target` with
/// the name of one in `source` is replaced; the others stay.
pub fn merge_fields(target: &mut Log, source: &Log)
    ensures
        log_fields(*final(target)) == merged(log_fields(*old(target)), log_fields(*source)),
{
    let ghost before = log_fields(*target);
    let ghost src = log_fields(*source);
    let mut entries = log_entries(source);
    let ghost all = entries@;
    assert(log_fields(*target) =~= merged(before, src.restrict(names_from(all, all.len() as int))));
    while entries.len() > 0
        invariant
            entries@ == all.subrange(0, entries@.len() as int),
            entries@.len() <= all.len(),
            forall|i: int|
                0 <= i < all.len() ==> #[trigger] src.contains_pair(
                    all[i].0@,
                    json_model(all[i].1),
                ),
            log_fields(*target) == merged(
                before,
                src.restrict(names_from(all, entries@.len() as int)),
            ),
        decreases entries.len(),
    {
        let ghost n = entries@.len() as int;
        let entry = entries.pop().unwrap();
        let ghost name = entry.0@;
        let ghost model = json_model(entry.1);
        assert(entry == all[n - 1]);
        assert(src.contains_pair(all[n - 1].0@, json_model(all[n - 1].1)));
        log_insert(target, entry.0, entry.1);
        assert(log_fields(*target) =~= merged(before, src.restrict(names_from(all, n - 1)))) by {
            let earlier = merged(before, src.restrict(names_from(all, n)));
            let later = merged(before, src.restrict(names_from(all, n - 1)));
            assert(names_from(all, n - 1).contains(name));
            assert forall|other: Seq<char>| other != name implies names_from(all, n).contains(
                other,
            ) == names_from(all, n - 1).contains(other) by {
                if names_from(all, n - 1).contains(other) {
                    let j = choose|j: int|
                        n - 1 <= j < all.len() && #[trigger] all[j].0@ == other;
                    assert(n <= j < all.len() && all[j].0@ == other);
                }
            }
            assert forall|other: Seq<char>| #[trigger]
                earlier.insert(name, model).dom().contains(other) == later.dom().contains(
                    other,
                ) by {}
            assert forall|other: Seq<char>| #[trigger]
                earlier.insert(name, model).dom().contains(other) implies earlier.insert(
                name,
                model,
            )[other] == later[other] by {}
        }
    }
    assert(src.restrict(names_from(all, 0)) =~= src);
}

} // verus!
