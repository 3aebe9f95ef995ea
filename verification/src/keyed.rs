//! Rows found by key: the mathematics that the in-memory tables share.
//!
//! A table is a sequence of rows in which no key occurs twice.  What it
//! holds is the map from each key to its row.

use vstd::prelude::*;

verus! {

/// No two rows have the same key.
pub open spec fn distinct_keys<R, K>(rows: Seq<R>, key_of: spec_fn(R) -> K) -> bool {
    forall|i: int, j: int|
        0 <= i < rows.len() && 0 <= j < rows.len() && i != j ==> key_of(#[trigger] rows[i])
            != key_of(#[trigger] rows[j])
}

/// Some row has the key.
pub open spec fn has_key<R, K>(rows: Seq<R>, key_of: spec_fn(R) -> K, key: K) -> bool {
    exists|i: int| 0 <= i < rows.len() && key_of(#[trigger] rows[i]) == key
}

/// The place of a row with the key, where there is one.
pub open spec fn place_of<R, K>(rows: Seq<R>, key_of: spec_fn(R) -> K, key: K) -> int {
    choose|i: int| 0 <= i < rows.len() && key_of(#[trigger] rows[i]) == key
}

/// The map from each key to what its row holds.
pub open spec fn as_map<R, K, V>(
    rows: Seq<R>,
    key_of: spec_fn(R) -> K,
    value_of: spec_fn(R) -> V,
) -> Map<K, V> {
    Map::new(
        |key: K| has_key(rows, key_of, key),
        |key: K| value_of(rows[place_of(rows, key_of, key)]),
    )
}

/// In a table, the row at a place is the row the map holds for its key.
pub proof fn lemma_row_in_map<R, K, V>(
    rows: Seq<R>,
    key_of: spec_fn(R) -> K,
    value_of: spec_fn(R) -> V,
    i: int,
)
    requires
        distinct_keys(rows, key_of),
        0 <= i < rows.len(),
    ensures
        as_map(rows, key_of, value_of).contains_key(key_of(rows[i])),
        as_map(rows, key_of, value_of)[key_of(rows[i])] == value_of(rows[i]),
        place_of(rows, key_of, key_of(rows[i])) == i,
{
    let key = key_of(rows[i]);
    assert(has_key(rows, key_of, key));
    let p = place_of(rows, key_of, key);
    assert(0 <= p < rows.len() && key_of(rows[p]) == key);
    assert(p == i);
}

/// A key that no row has is not in the map.
pub proof fn lemma_absent_key<R, K, V>(
    rows: Seq<R>,
    key_of: spec_fn(R) -> K,
    value_of: spec_fn(R) -> V,
    key: K,
)
    requires
        forall|i: int| 0 <= i < rows.len() ==> key_of(#[trigger] rows[i]) != key,
    ensures
        !as_map(rows, key_of, value_of).contains_key(key),
{
}

/// Appending a row with a fresh key inserts it into the map and keeps the
/// table a table.
pub proof fn lemma_push_fresh<R, K, V>(
    rows: Seq<R>,
    key_of: spec_fn(R) -> K,
    value_of: spec_fn(R) -> V,
    row: R,
)
    requires
        distinct_keys(rows, key_of),
        !as_map(rows, key_of, value_of).contains_key(key_of(row)),
    ensures
        distinct_keys(rows.push(row), key_of),
        as_map(rows.push(row), key_of, value_of) == as_map(rows, key_of, value_of).insert(
            key_of(row),
            value_of(row),
        ),
{
    let after = rows.push(row);
    assert forall|i: int, j: int|
        0 <= i < after.len() && 0 <= j < after.len() && i != j implies key_of(#[trigger] after[i])
        != key_of(#[trigger] after[j]) by {
        if i < rows.len() {
            assert(after[i] == rows[i]);
            lemma_row_in_map(rows, key_of, value_of, i);
        }
        if j < rows.len() {
            assert(after[j] == rows[j]);
            lemma_row_in_map(rows, key_of, value_of, j);
        }
    }
    let wanted = as_map(rows, key_of, value_of).insert(key_of(row), value_of(row));
    assert forall|key: K|
        as_map(after, key_of, value_of).contains_key(key) <==> wanted.contains_key(key) by {
        if has_key(after, key_of, key) {
            let p = place_of(after, key_of, key);
            if p < rows.len() {
                assert(after[p] == rows[p]);
                assert(has_key(rows, key_of, key));
            }
        }
        if has_key(rows, key_of, key) {
            let p = place_of(rows, key_of, key);
            assert(after[p] == rows[p]);
            assert(has_key(after, key_of, key));
        }
        if key == key_of(row) {
            assert(after[rows.len() as int] == row);
            assert(has_key(after, key_of, key));
        }
    }
    assert forall|key: K| as_map(after, key_of, value_of).contains_key(key) implies as_map(
        after,
        key_of,
        value_of,
    )[key] == wanted[key] by {
        let p = place_of(after, key_of, key);
        lemma_row_in_map(after, key_of, value_of, p);
        if p < rows.len() {
            assert(after[p] == rows[p]);
            lemma_row_in_map(rows, key_of, value_of, p);
        } else {
            assert(after[p] == row);
        }
    }
    assert(as_map(after, key_of, value_of) =~= wanted);
}

/// Replacing a row by one with the same key replaces it in the map and
/// keeps the table a table.
pub proof fn lemma_replace_row<R, K, V>(
    rows: Seq<R>,
    key_of: spec_fn(R) -> K,
    value_of: spec_fn(R) -> V,
    i: int,
    row: R,
)
    requires
        distinct_keys(rows, key_of),
        0 <= i < rows.len(),
        key_of(row) == key_of(rows[i]),
    ensures
        distinct_keys(rows.update(i, row), key_of),
        as_map(rows.update(i, row), key_of, value_of) == as_map(rows, key_of, value_of).insert(
            key_of(row),
            value_of(row),
        ),
{
    let after = rows.update(i, row);
    assert forall|a: int| 0 <= a < after.len() implies key_of(#[trigger] after[a]) == key_of(
        rows[a],
    ) by {}
    assert forall|a: int, b: int|
        0 <= a < after.len() && 0 <= b < after.len() && a != b implies key_of(#[trigger] after[a])
        != key_of(#[trigger] after[b]) by {
        assert(key_of(after[a]) == key_of(rows[a]));
        assert(key_of(after[b]) == key_of(rows[b]));
    }
    let wanted = as_map(rows, key_of, value_of).insert(key_of(row), value_of(row));
    assert forall|key: K|
        as_map(after, key_of, value_of).contains_key(key) <==> wanted.contains_key(key) by {
        if has_key(after, key_of, key) {
            let p = place_of(after, key_of, key);
            assert(key_of(after[p]) == key_of(rows[p]));
            assert(has_key(rows, key_of, key));
        }
        if has_key(rows, key_of, key) {
            let p = place_of(rows, key_of, key);
            assert(key_of(after[p]) == key_of(rows[p]));
            assert(has_key(after, key_of, key));
        }
        if key == key_of(row) {
            assert(key_of(after[i]) == key);
            assert(has_key(after, key_of, key));
        }
    }
    assert forall|key: K| as_map(after, key_of, value_of).contains_key(key) implies as_map(
        after,
        key_of,
        value_of,
    )[key] == wanted[key] by {
        let p = place_of(after, key_of, key);
        lemma_row_in_map(after, key_of, value_of, p);
        assert(key_of(after[p]) == key_of(rows[p]));
        lemma_row_in_map(rows, key_of, value_of, p);
        if p == i {
        } else {
            assert(after[p] == rows[p]);
            lemma_row_in_map(rows, key_of, value_of, i);
        }
    }
    assert(as_map(after, key_of, value_of) =~= wanted);
}

/// The empty sequence is a table that holds nothing.
pub proof fn lemma_empty_table<R, K, V>(key_of: spec_fn(R) -> K, value_of: spec_fn(R) -> V)
    ensures
        distinct_keys(Seq::<R>::empty(), key_of),
        as_map(Seq::<R>::empty(), key_of, value_of) == Map::<K, V>::empty(),
{
    assert(as_map(Seq::<R>::empty(), key_of, value_of) =~= Map::<K, V>::empty());
}

/// A table holds as many keys as it has rows.
pub proof fn lemma_table_size<R, K, V>(
    rows: Seq<R>,
    key_of: spec_fn(R) -> K,
    value_of: spec_fn(R) -> V,
)
    requires
        distinct_keys(rows, key_of),
    ensures
        as_map(rows, key_of, value_of).dom().finite(),
        as_map(rows, key_of, value_of).dom().len() == rows.len(),
    decreases rows.len(),
{
    if rows.len() == 0 {
        lemma_empty_table(key_of, value_of);
        assert(rows =~= Seq::<R>::empty());
    } else {
        let front = rows.drop_last();
        let last = rows.last();
        assert forall|i: int, j: int|
            0 <= i < front.len() && 0 <= j < front.len() && i != j implies key_of(
            #[trigger] front[i],
        ) != key_of(#[trigger] front[j]) by {
            assert(front[i] == rows[i] && front[j] == rows[j]);
        }
        lemma_table_size(front, key_of, value_of);
        assert forall|i: int| 0 <= i < front.len() implies key_of(#[trigger] front[i]) != key_of(
            last,
        ) by {
            assert(front[i] == rows[i]);
            assert(last == rows[rows.len() - 1]);
        }
        lemma_absent_key(front, key_of, value_of, key_of(last));
        lemma_push_fresh(front, key_of, value_of, last);
        assert(front.push(last) =~= rows);
    }
}

} // verus!
