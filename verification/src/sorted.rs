//! Lists of texts in order and without repetition.

use vstd::prelude::*;
use vstd::string::*;

use crate::text;

verus! {

/// `left` comes before `right` by their code points, which is also the order of their UTF-8 bytes.
pub open spec fn precedes(left: Seq<char>, right: Seq<char>) -> bool
    decreases left.len(),
{
    if right.len() == 0 {
        false
    } else if left.len() == 0 {
        true
    } else if left[0] != right[0] {
        left[0] < right[0]
    } else {
        precedes(left.skip(1), right.skip(1))
    }
}

proof fn lemma_common_start(left: Seq<char>, right: Seq<char>, count: int)
    requires
        0 <= count <= left.len(),
        count <= right.len(),
        forall|i: int| 0 <= i < count ==> left[i] == right[i],
    ensures
        precedes(left, right) == precedes(left.skip(count), right.skip(count)),
    decreases count,
{
    if count == 0 {
        assert(left.skip(0) =~= left);
        assert(right.skip(0) =~= right);
    } else {
        assert(left[0] == right[0]);
        lemma_common_start(left.skip(1), right.skip(1), count - 1);
        assert(left.skip(1).skip(count - 1) =~= left.skip(count));
        assert(right.skip(1).skip(count - 1) =~= right.skip(count));
    }
}

pub proof fn lemma_precedes_transitive(a: Seq<char>, b: Seq<char>, c: Seq<char>)
    requires
        precedes(a, b),
        precedes(b, c),
    ensures
        precedes(a, c),
    decreases a.len(),
{
    if a.len() > 0 && b.len() > 0 && c.len() > 0 && a[0] == b[0] && b[0] == c[0] {
        lemma_precedes_transitive(a.skip(1), b.skip(1), c.skip(1));
    }
}

pub proof fn lemma_precedes_irreflexive(a: Seq<char>)
    ensures
        !precedes(a, a),
    decreases a.len(),
{
    if a.len() > 0 {
        lemma_precedes_irreflexive(a.skip(1));
    }
}

pub proof fn lemma_precedes_total(a: Seq<char>, b: Seq<char>)
    ensures
        a == b || precedes(a, b) || precedes(b, a),
    decreases a.len(),
{
    if a.len() > 0 && b.len() > 0 && a[0] == b[0] {
        lemma_precedes_total(a.skip(1), b.skip(1));
        if a.skip(1) == b.skip(1) {
            assert(a =~= seq![a[0]] + a.skip(1));
            assert(b =~= seq![b[0]] + b.skip(1));
        }
    } else if a.len() == 0 && b.len() == 0 {
        assert(a =~= b);
    }
}

fn is_before(left: &str, right: &str) -> (yes: bool)
    ensures
        yes == precedes(left@, right@),
{
    let a = text::chars_of(left);
    let b = text::chars_of(right);
    let mut i: usize = 0;
    while i < a.len() && i < b.len()
        invariant
            i <= a@.len(),
            i <= b@.len(),
            a@ == left@,
            b@ == right@,
            forall|j: int| 0 <= j < i ==> a@[j] == b@[j],
        decreases a@.len() - i,
    {
        if a[i] != b[i] {
            proof {
                lemma_common_start(left@, right@, i as int);
                assert(left@.skip(i as int)[0] == a@[i as int]);
                assert(right@.skip(i as int)[0] == b@[i as int]);
            }
            return a[i] < b[i];
        }
        i = i + 1;
    }
    proof {
        lemma_common_start(left@, right@, i as int);
    }
    i < b.len()
}

/// A list in order with `item` put in its place, unless it is there already.
pub open spec fn inserted(list: Seq<Seq<char>>, item: Seq<char>) -> Seq<Seq<char>>
    decreases list.len(),
{
    if list.len() == 0 {
        seq![item]
    } else if list.last() == item {
        list
    } else if precedes(list.last(), item) {
        list.push(item)
    } else {
        inserted(list.drop_last(), item).push(list.last())
    }
}

/// The items of a list in order, each once.
pub open spec fn tidy(list: Seq<Seq<char>>) -> Seq<Seq<char>>
    decreases list.len(),
{
    if list.len() == 0 {
        Seq::empty()
    } else {
        inserted(tidy(list.drop_last()), list.last())
    }
}

/// Every item comes before the next.
pub open spec fn increasing(list: Seq<Seq<char>>) -> bool {
    forall|i: int, j: int| 0 <= i < j < list.len() ==> precedes(#[trigger] list[i], #[trigger] list[j])
}

proof fn lemma_inserted(list: Seq<Seq<char>>, item: Seq<char>)
    requires
        increasing(list),
    ensures
        increasing(inserted(list, item)),
        forall|x: Seq<char>| #[trigger]
            inserted(list, item).contains(x) <==> list.contains(x) || x == item,
    decreases list.len(),
{
    let result = inserted(list, item);
    if list.len() == 0 {
        assert(result[0] == item);
        assert(result.contains(item));
    } else if list.last() == item {
        assert(list[list.len() - 1] == item);
        assert(list.contains(item));
    } else if precedes(list.last(), item) {
        assert forall|i: int, j: int| 0 <= i < j < result.len() implies precedes(
            #[trigger] result[i],
            #[trigger] result[j],
        ) by {
            if j == list.len() {
                if i < list.len() - 1 {
                    assert(precedes(list[i], list[list.len() - 1]));
                    lemma_precedes_transitive(list[i], list.last(), item);
                }
            }
        }
        assert forall|x: Seq<char>| #[trigger] result.contains(x) <==> list.contains(x) || x == item by {
            if list.contains(x) {
                let k = choose|k: int| 0 <= k < list.len() && list[k] == x;
                assert(result[k] == x);
            }
            if x == item {
                assert(result[list.len() as int] == x);
            }
            if result.contains(x) {
                let k = choose|k: int| 0 <= k < result.len() && result[k] == x;
                if k < list.len() {
                    assert(list[k] == x);
                }
            }
        }
    } else {
        let shorter = list.drop_last();
        let rest = inserted(shorter, item);
        assert(increasing(shorter)) by {
            assert forall|i: int, j: int| 0 <= i < j < shorter.len() implies precedes(
                #[trigger] shorter[i],
                #[trigger] shorter[j],
            ) by {
                assert(precedes(list[i], list[j]));
            }
        }
        lemma_inserted(shorter, item);
        lemma_precedes_total(list.last(), item);
        assert forall|i: int, j: int| 0 <= i < j < result.len() implies precedes(
            #[trigger] result[i],
            #[trigger] result[j],
        ) by {
            if j == rest.len() {
                assert(rest.contains(rest[i]));
                if rest[i] != item {
                    assert(shorter.contains(rest[i]));
                    let k = choose|k: int| 0 <= k < shorter.len() && shorter[k] == rest[i];
                    assert(precedes(list[k], list[list.len() - 1]));
                }
            } else {
                assert(precedes(rest[i], rest[j]));
            }
        }
        assert forall|x: Seq<char>| #[trigger] result.contains(x) <==> list.contains(x) || x == item by {
            if list.contains(x) {
                let k = choose|k: int| 0 <= k < list.len() && list[k] == x;
                if k < list.len() - 1 {
                    assert(shorter[k] == x);
                    assert(shorter.contains(x));
                    assert(rest.contains(x));
                    let m = choose|m: int| 0 <= m < rest.len() && rest[m] == x;
                    assert(result[m] == x);
                } else {
                    assert(result[rest.len() as int] == x);
                }
            }
            if x == item {
                assert(rest.contains(x));
                let m = choose|m: int| 0 <= m < rest.len() && rest[m] == x;
                assert(result[m] == x);
            }
            if result.contains(x) {
                let k = choose|k: int| 0 <= k < result.len() && result[k] == x;
                if k < rest.len() {
                    assert(rest[k] == x);
                    assert(rest.contains(x));
                    if shorter.contains(x) {
                        let m = choose|m: int| 0 <= m < shorter.len() && shorter[m] == x;
                        assert(list[m] == x);
                    }
                } else {
                    assert(list[list.len() - 1] == x);
                }
            }
        }
    }
}

/// A tidied list is in order, holds nothing twice, and holds exactly the items of the list.
pub proof fn tidied_lists(list: Seq<Seq<char>>)
    ensures
        increasing(tidy(list)),
        forall|x: Seq<char>| #[trigger] tidy(list).contains(x) <==> list.contains(x),
        tidy(list).len() == 0 <==> list.len() == 0,
    decreases list.len(),
{
    if list.len() > 0 {
        let shorter = list.drop_last();
        tidied_lists(shorter);
        lemma_inserted(tidy(shorter), list.last());
        assert forall|x: Seq<char>| #[trigger] tidy(list).contains(x) <==> list.contains(x) by {
            if list.contains(x) {
                let k = choose|k: int| 0 <= k < list.len() && list[k] == x;
                if k < list.len() - 1 {
                    assert(shorter[k] == x);
                    assert(shorter.contains(x));
                }
            }
            if shorter.contains(x) {
                let k = choose|k: int| 0 <= k < shorter.len() && shorter[k] == x;
                assert(list[k] == x);
            }
            assert(list[list.len() - 1] == list.last());
        }
        assert(tidy(list).contains(list.last())) by {
            assert(list[list.len() - 1] == list.last());
        }
    }
}

/// Puts `item` in its place in a list in order, unless it is there already.
fn insert(list: &mut Vec<String>, item: String)
    ensures
        text::views(final(list)@) == inserted(text::views(old(list)@), item@),
    decreases old(list)@.len(),
{
    let ghost before = list@;
    match list.pop() {
        None => {
            list.push(item);
            proof {
                assert(text::views(list@) =~= seq![item@]);
            }
        },
        Some(last) => {
            proof {
                assert(text::views(before).drop_last() =~= text::views(list@));
                assert(text::views(before).last() == last@);
                assert(before =~= list@.push(last));
            }
            if text::same_text(last.as_str(), item.as_str()) {
                list.push(last);
                proof {
                    assert(text::views(list@) =~= text::views(before));
                }
            } else if is_before(last.as_str(), item.as_str()) {
                list.push(last);
                list.push(item);
                proof {
                    assert(text::views(list@) =~= text::views(before).push(item@));
                }
            } else {
                insert(list, item);
                let ghost middle = list@;
                list.push(last);
                proof {
                    assert(text::views(list@) =~= text::views(middle).push(last@));
                }
            }
        },
    }
}

/// The items of a list in order, each once.
pub fn tidied(list: &Vec<String>) -> (kept: Vec<String>)
    ensures
        text::views(kept@) == tidy(text::views(list@)),
{
    let mut kept: Vec<String> = Vec::new();
    let mut i: usize = 0;
    proof {
        assert(text::views(kept@) =~= Seq::<Seq<char>>::empty());
        assert(text::views(list@).take(0) =~= Seq::<Seq<char>>::empty());
    }
    while i < list.len()
        invariant
            i <= list@.len(),
            text::views(kept@) == tidy(text::views(list@).take(i as int)),
        decreases list@.len() - i,
    {
        insert(&mut kept, list[i].clone());
        proof {
            let all = text::views(list@);
            assert(all.take(i + 1).drop_last() =~= all.take(i as int));
            assert(all.take(i + 1).last() == all[i as int]);
        }
        i = i + 1;
    }
    proof {
        assert(text::views(list@).take(i as int) =~= text::views(list@));
    }
    kept
}

} // verus!
