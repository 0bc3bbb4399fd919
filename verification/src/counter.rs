use vstd::prelude::*;
use crate::identity::Identity;

verus! {

/// The per-creator sequence allocator: hands out poll numbers 0, 1, 2, ...
/// and never reuses or decreases one.
#[derive(Clone, Copy, PartialEq, Eq, Structural, Debug)]
pub struct PollCounter {
    pub creator: Identity,
    pub poll_count: u64,
}

/// No two counters belong to the same creator.
pub open spec fn counters_distinct(s: Seq<PollCounter>) -> bool {
    forall|i: int, j: int|
        0 <= i < s.len() && 0 <= j < s.len() && i != j ==> (#[trigger] s[i]).creator != (
        #[trigger] s[j]).creator
}

/// Some counter in `s` belongs to `owner`.
pub open spec fn has_counter_in(s: Seq<PollCounter>, owner: Identity) -> bool {
    exists|i: int| 0 <= i < s.len() && (#[trigger] s[i]).creator == owner
}

/// The position of `owner`'s counter; meaningful only when one exists.
pub open spec fn counter_index_in(s: Seq<PollCounter>, owner: Identity) -> int {
    choose|i: int| 0 <= i < s.len() && (#[trigger] s[i]).creator == owner
}

/// The value `owner`'s counter will hand out next; meaningful only when
/// the counter exists.
pub open spec fn counter_value_in(s: Seq<PollCounter>, owner: Identity) -> u64 {
    s[counter_index_in(s, owner)].poll_count
}

/// In a distinct sequence, the counter at any position is the one its
/// creator's lookup finds.
pub proof fn lemma_counter_lookup(s: Seq<PollCounter>, i: int)
    requires
        counters_distinct(s),
        0 <= i < s.len(),
    ensures
        has_counter_in(s, s[i].creator),
        counter_index_in(s, s[i].creator) == i,
        counter_value_in(s, s[i].creator) == s[i].poll_count,
{
    assert(has_counter_in(s, s[i].creator));
    let j = counter_index_in(s, s[i].creator);
    assert(0 <= j < s.len() && s[j].creator == s[i].creator);
}

/// Appending a counter for a creator who had none keeps the sequence
/// distinct, gives that creator the new value, and leaves every other
/// lookup as it was.
pub proof fn lemma_counter_push(s: Seq<PollCounter>, c: PollCounter)
    requires
        counters_distinct(s),
        !has_counter_in(s, c.creator),
    ensures
        counters_distinct(s.push(c)),
        has_counter_in(s.push(c), c.creator),
        counter_value_in(s.push(c), c.creator) == c.poll_count,
        forall|o: Identity| o != c.creator ==> has_counter_in(s.push(c), o) == has_counter_in(s, o),
        forall|o: Identity|
            o != c.creator && has_counter_in(s, o) ==> counter_value_in(s.push(c), o)
                == counter_value_in(s, o),
{
    let t = s.push(c);
    assert forall|i: int, j: int|
        0 <= i < t.len() && 0 <= j < t.len() && i != j implies t[i].creator != t[j].creator by {
        if i < s.len() && j < s.len() {
        } else if i == s.len() {
            assert(t[j] == s[j]);
        } else {
            assert(t[i] == s[i]);
        }
    }
    assert(t[s.len() as int] == c);
    lemma_counter_lookup(t, s.len() as int);
    assert forall|o: Identity| o != c.creator implies has_counter_in(t, o) == has_counter_in(
        s,
        o,
    ) by {
        if has_counter_in(s, o) {
            let i = counter_index_in(s, o);
            assert(t[i] == s[i]);
            assert(has_counter_in(t, o));
        }
        if has_counter_in(t, o) {
            let i = counter_index_in(t, o);
            assert(i < s.len() && t[i] == s[i]);
            assert(has_counter_in(s, o));
        }
    }
    assert forall|o: Identity| o != c.creator && has_counter_in(s, o) implies counter_value_in(
        t,
        o,
    ) == counter_value_in(s, o) by {
        let i = counter_index_in(s, o);
        assert(0 <= i < s.len() && s[i].creator == o);
        assert(t[i] == s[i]);
        lemma_counter_lookup(t, i);
    }
}

/// Replacing a counter by one for the same creator keeps the sequence
/// distinct, makes the new value that creator's lookup result, and leaves
/// every other lookup as it was.
pub proof fn lemma_counter_update(s: Seq<PollCounter>, i: int, c: PollCounter)
    requires
        counters_distinct(s),
        0 <= i < s.len(),
        c.creator == s[i].creator,
    ensures
        counters_distinct(s.update(i, c)),
        has_counter_in(s.update(i, c), c.creator),
        counter_value_in(s.update(i, c), c.creator) == c.poll_count,
        forall|o: Identity|
            o != c.creator ==> has_counter_in(s.update(i, c), o) == has_counter_in(s, o),
        forall|o: Identity|
            o != c.creator && has_counter_in(s, o) ==> counter_value_in(s.update(i, c), o)
                == counter_value_in(s, o),
{
    let t = s.update(i, c);
    assert forall|x: int, y: int|
        0 <= x < t.len() && 0 <= y < t.len() && x != y implies t[x].creator != t[y].creator by {
        assert(t[x].creator == s[x].creator);
        assert(t[y].creator == s[y].creator);
    }
    lemma_counter_lookup(t, i);
    assert forall|o: Identity| o != c.creator implies has_counter_in(t, o) == has_counter_in(
        s,
        o,
    ) by {
        if has_counter_in(s, o) {
            let x = counter_index_in(s, o);
            assert(t[x].creator == s[x].creator);
            assert(has_counter_in(t, o));
        }
        if has_counter_in(t, o) {
            let x = counter_index_in(t, o);
            assert(s[x].creator == t[x].creator);
            assert(has_counter_in(s, o));
        }
    }
    assert forall|o: Identity| o != c.creator && has_counter_in(s, o) implies counter_value_in(
        t,
        o,
    ) == counter_value_in(s, o) by {
        let x = counter_index_in(s, o);
        assert(0 <= x < s.len() && s[x].creator == o);
        assert(x != i);
        assert(t[x] == s[x]);
        lemma_counter_lookup(t, x);
    }
}

/// Find the position of `owner`'s counter, if one exists.
pub fn find_counter(counters: &Vec<PollCounter>, owner: Identity) -> (r: Option<usize>)
    ensures
        match r {
            Some(i) => i < counters@.len() && counters@[i as int].creator == owner,
            None => !has_counter_in(counters@, owner),
        },
{
    let n = counters.len();
    let mut i: usize = 0;
    while i < n
        invariant
            n == counters@.len(),
            i <= n,
            forall|j: int| 0 <= j < i ==> (#[trigger] counters@[j]).creator != owner,
        decreases n - i,
    {
        if counters[i].creator == owner {
            return Some(i);
        }
        i = i + 1;
    }
    None
}

} // verus!
