//! The order in which persons are listed: by given name.
//!
//! Names are ordered as their UTF-8 bytes are, byte by byte, a name that is a
//! prefix of another first. A person without a given name is listed as one
//! whose given name is empty. Persons whose names are equal keep the order in
//! which they came.

use vstd::prelude::*;
use vstd::seq_lib::seq_to_set_is_finite;
use vstd::set_lib::lemma_int_range;
use vstd::set_lib::lemma_subset_equality;
use vstd::set_lib::set_int_range;
use vstd::utf8::encode_utf8;
use crate::models::person::Person;
use crate::models::person::PersonView;

verus! {

/// Whether `a` is at most `b`, byte by byte.
pub open spec fn bytes_le(a: Seq<u8>, b: Seq<u8>) -> bool
    decreases a.len(),
{
    if a.len() == 0 {
        true
    } else if b.len() == 0 {
        false
    } else if a[0] != b[0] {
        a[0] < b[0]
    } else {
        bytes_le(a.drop_first(), b.drop_first())
    }
}

/// Of any two texts one is at most the other.
pub proof fn lemma_bytes_le_total(a: Seq<u8>, b: Seq<u8>)
    ensures
        bytes_le(a, b) || bytes_le(b, a),
    decreases a.len(),
{
    if a.len() > 0 && b.len() > 0 && a[0] == b[0] {
        lemma_bytes_le_total(a.drop_first(), b.drop_first());
    }
}

/// What is at most a text that is at most a third is at most the third.
pub proof fn lemma_bytes_le_transitive(a: Seq<u8>, b: Seq<u8>, c: Seq<u8>)
    requires
        bytes_le(a, b),
        bytes_le(b, c),
    ensures
        bytes_le(a, c),
    decreases a.len(),
{
    if a.len() > 0 && a[0] == b[0] && b[0] == c[0] {
        lemma_bytes_le_transitive(a.drop_first(), b.drop_first(), c.drop_first());
    }
}

/// Two texts of which each is at most the other are the same text.
pub proof fn lemma_bytes_le_antisymmetric(a: Seq<u8>, b: Seq<u8>)
    requires
        bytes_le(a, b),
        bytes_le(b, a),
    ensures
        a == b,
    decreases a.len(),
{
    if a.len() > 0 {
        lemma_bytes_le_antisymmetric(a.drop_first(), b.drop_first());
        assert(a =~= seq![a[0]] + a.drop_first());
        assert(b =~= seq![b[0]] + b.drop_first());
    } else {
        assert(a =~= b);
    }
}

/// Tells whether `a` is at most `b`, byte by byte.
pub fn text_le(a: &[u8], b: &[u8]) -> (le: bool)
    ensures
        le == bytes_le(a@, b@),
{
    let mut i: usize = 0;
    assert(a@.skip(0) =~= a@ && b@.skip(0) =~= b@);
    while i < a.len() && i < b.len() && a[i] == b[i]
        invariant
            i <= a@.len(),
            i <= b@.len(),
            bytes_le(a@, b@) == bytes_le(a@.skip(i as int), b@.skip(i as int)),
        decreases a@.len() - i,
    {
        proof {
            assert(a@.skip(i as int).drop_first() =~= a@.skip(i + 1));
            assert(b@.skip(i as int).drop_first() =~= b@.skip(i + 1));
        }
        i += 1;
    }
    if i == a.len() {
        true
    } else if i == b.len() {
        false
    } else {
        a[i] < b[i]
    }
}

/// The bytes by which a person is ordered: those of the given name, or none
/// where there is no given name.
pub open spec fn given_name_key(person: PersonView) -> Seq<u8> {
    match person.given_name {
        Some(name) => encode_utf8(name),
        None => Seq::empty(),
    }
}

/// The keys of a list of persons.
pub open spec fn given_name_keys(persons: Seq<Person>) -> Seq<Seq<u8>> {
    Seq::new(persons.len(), |i: int| given_name_key(persons[i]@))
}

/// Whether the person at `i` is listed before the person at `j`: its key is
/// smaller, or the keys are equal and it came first.
pub open spec fn goes_before(keys: Seq<Seq<u8>>, i: int, j: int) -> bool {
    if bytes_le(keys[j], keys[i]) {
        bytes_le(keys[i], keys[j]) && i < j
    } else {
        true
    }
}

/// Whether `order` lists each position of `keys` once, ordered by key, with
/// equal keys in the order in which they came.
pub open spec fn is_listing_order(keys: Seq<Seq<u8>>, order: Seq<usize>) -> bool {
    &&& order.len() == keys.len()
    &&& forall|i: int| 0 <= i < order.len() ==> #[trigger] order[i] < keys.len()
    &&& forall|i: int, j: int|
        0 <= i < j < order.len() ==> goes_before(
            keys,
            #[trigger] order[i] as int,
            #[trigger] order[j] as int,
        )
}

/// In a listing order no position occurs twice.
pub proof fn lemma_listing_order_distinct(keys: Seq<Seq<u8>>, order: Seq<usize>)
    requires
        is_listing_order(keys, order),
    ensures
        forall|i: int, j: int|
            0 <= i < j < order.len() ==> #[trigger] order[i] != #[trigger] order[j],
{
    assert forall|i: int, j: int| 0 <= i < j < order.len() implies #[trigger] order[i]
        != #[trigger] order[j] by {
        assert(goes_before(keys, order[i] as int, order[j] as int));
        lemma_bytes_le_total(keys[order[i] as int], keys[order[i] as int]);
    }
}

/// A listing order holds every position of `keys`.
pub proof fn lemma_listing_order_complete(keys: Seq<Seq<u8>>, order: Seq<usize>, x: int)
    requires
        is_listing_order(keys, order),
        0 <= x < keys.len(),
    ensures
        exists|i: int| 0 <= i < order.len() && #[trigger] order[i] == x,
{
    lemma_listing_order_distinct(keys, order);
    let positions = Seq::new(order.len(), |i: int| order[i] as int);
    let all = set_int_range(0, keys.len() as int);
    assert(positions.no_duplicates());
    positions.unique_seq_to_set();
    seq_to_set_is_finite(positions);
    lemma_int_range(0, keys.len() as int);
    assert(positions.to_set().subset_of(all)) by {
        assert forall|p: int| positions.to_set().contains(p) implies all.contains(p) by {
            let i = choose|i: int| 0 <= i < positions.len() && positions[i] == p;
            assert(order[i] < keys.len());
        }
    }
    lemma_subset_equality(positions.to_set(), all);
    assert(all.contains(x));
    assert(positions.to_set().contains(x));
    let i = choose|i: int| 0 <= i < positions.len() && positions[i] == x;
    assert(order[i] == x);
}

/// Of two positions with `goes_before` one way, it does not hold the other
/// way.
pub proof fn lemma_goes_before_one_way(keys: Seq<Seq<u8>>, x: int, y: int)
    requires
        goes_before(keys, x, y),
    ensures
        !goes_before(keys, y, x),
{
    lemma_bytes_le_total(keys[x], keys[y]);
}

/// There is one listing order only: two listing orders of the same keys are
/// the same.
pub proof fn lemma_listing_order_unique(keys: Seq<Seq<u8>>, first: Seq<usize>, second: Seq<usize>)
    requires
        is_listing_order(keys, first),
        is_listing_order(keys, second),
    ensures
        first == second,
{
    assert forall|i: int| 0 <= i < first.len() implies first[i] == second[i] by {
        lemma_same_up_to(keys, first, second, i + 1);
    }
    assert(first =~= second);
}

/// Two listing orders of the same keys agree on their first `n` places.
proof fn lemma_same_up_to(keys: Seq<Seq<u8>>, first: Seq<usize>, second: Seq<usize>, n: int)
    requires
        is_listing_order(keys, first),
        is_listing_order(keys, second),
        0 <= n <= keys.len(),
    ensures
        forall|k: int| 0 <= k < n ==> first[k] == second[k],
    decreases n,
{
    if n > 0 {
        lemma_same_up_to(keys, first, second, n - 1);
        let i = n - 1;
        let x = first[i] as int;
        let y = second[i] as int;
        if x != y {
            lemma_listing_order_distinct(keys, first);
            lemma_listing_order_distinct(keys, second);
            // x stands behind place i in the second order
            lemma_listing_order_complete(keys, second, x);
            let j = choose|j: int| 0 <= j < second.len() && #[trigger] second[j] == x;
            if j < i {
                assert(first[j] == second[j]);
                assert(first[j] != first[i]);
            }
            assert(goes_before(keys, second[i] as int, second[j] as int));
            // and y stands behind place i in the first
            lemma_listing_order_complete(keys, first, y);
            let k = choose|k: int| 0 <= k < first.len() && #[trigger] first[k] == y;
            if k < i {
                assert(first[k] == second[k]);
                assert(second[k] != second[i]);
            }
            assert(goes_before(keys, first[i] as int, first[k] as int));
            lemma_goes_before_one_way(keys, x, y);
        }
    }
}

/// The listing order of `keys`.
pub open spec fn listing_order(keys: Seq<Seq<u8>>) -> Seq<usize> {
    choose|order: Seq<usize>| is_listing_order(keys, order)
}

/// Tells whether the given name of `a` is at most that of `b`.
pub fn given_name_le(a: &Person, b: &Person) -> (le: bool)
    ensures
        le == bytes_le(given_name_key(a@), given_name_key(b@)),
{
    match &a.given_name {
        None => true,
        Some(x) => match &b.given_name {
            None => x.as_str().as_bytes().len() == 0,
            Some(y) => text_le(x.as_str().as_bytes(), y.as_str().as_bytes()),
        },
    }
}

/// The order in which `persons` are listed: their positions, sorted by given
/// name, persons of equal names in the order in which they came.
pub fn order_by_given_name(persons: &Vec<Person>) -> (order: Vec<usize>)
    ensures
        is_listing_order(given_name_keys(persons@), order@),
        order@ == listing_order(given_name_keys(persons@)),
{
    let ghost keys = given_name_keys(persons@);
    let mut order: Vec<usize> = Vec::new();
    for n in 0..persons.len()
        invariant
            keys == given_name_keys(persons@),
            order@.len() == n,
            forall|i: int| 0 <= i < order@.len() ==> #[trigger] order@[i] < n,
            forall|i: int, j: int|
                0 <= i < j < order@.len() ==> goes_before(
                    keys,
                    #[trigger] order@[i] as int,
                    #[trigger] order@[j] as int,
                ),
    {
        let mut pos: usize = order.len();
        while pos > 0 && !given_name_le(&persons[order[pos - 1]], &persons[n])
            invariant
                keys == given_name_keys(persons@),
                n < persons@.len(),
                pos <= order@.len(),
                forall|i: int| 0 <= i < order@.len() ==> #[trigger] order@[i] < n,
                forall|k: int|
                    pos <= k < order@.len() ==> !bytes_le(
                        keys[#[trigger] order@[k] as int],
                        keys[n as int],
                    ),
            decreases pos,
        {
            pos -= 1;
        }
        proof {
            let before = order@;
            let after = before.insert(pos as int, n);
            assert forall|i: int, j: int| 0 <= i < j < after.len() implies goes_before(
                keys,
                #[trigger] after[i] as int,
                #[trigger] after[j] as int,
            ) by {
                if j == pos {
                    // what stays in front of the new position is at most the new key
                    let last = before[pos - 1] as int;
                    let x = before[i] as int;
                    assert(bytes_le(keys[last], keys[n as int]));
                    if i < pos - 1 {
                        assert(goes_before(keys, before[i] as int, before[pos - 1] as int));
                        lemma_bytes_le_total(keys[x], keys[last]);
                        lemma_bytes_le_transitive(keys[x], keys[last], keys[n as int]);
                    }
                } else if i == pos {
                    assert(after[j] == before[j - 1]);
                } else if i < pos && j < pos {
                    assert(after[i] == before[i] && after[j] == before[j]);
                } else if i < pos {
                    assert(after[i] == before[i] && after[j] == before[j - 1]);
                } else {
                    assert(after[i] == before[i - 1] && after[j] == before[j - 1]);
                }
            }
            assert forall|i: int| 0 <= i < after.len() implies #[trigger] after[i] < n + 1 by {
                if i < pos {
                    assert(after[i] == before[i]);
                } else if i > pos {
                    assert(after[i] == before[i - 1]);
                }
            }
        }
        order.insert(pos, n);
    }
    proof {
        lemma_listing_order_unique(keys, order@, listing_order(keys));
    }
    order
}

} // verus!
