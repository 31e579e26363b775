//! Sorted lists without repetition: identities by number, names by their bytes.

use vstd::prelude::*;
use vstd::string::*;
use vstd::utf8::{encode_utf8, encode_utf8_decode_utf8};

verus! {

/// Lexicographic order of byte sequences.
pub open spec fn lex_lt(a: Seq<u8>, b: Seq<u8>) -> bool
    decreases a.len(),
{
    if b.len() == 0 {
        false
    } else if a.len() == 0 {
        true
    } else if a[0] != b[0] {
        a[0] < b[0]
    } else {
        lex_lt(a.skip(1), b.skip(1))
    }
}

/// Order of names: by the bytes of their text.
pub open spec fn name_lt(a: Seq<char>, b: Seq<char>) -> bool {
    lex_lt(encode_utf8(a), encode_utf8(b))
}

/// Whether names are in ascending order without repetition.
pub open spec fn names_ascending(names: Seq<String>) -> bool {
    forall|i: int, j: int|
        #![trigger names[i], names[j]]
        0 <= i < j < names.len() ==> name_lt(names[i]@, names[j]@)
}

/// Whether a list holds a name.
pub open spec fn has_name(names: Seq<String>, name: Seq<char>) -> bool {
    exists|i: int| 0 <= i < names.len() && (#[trigger] names[i])@ == name
}

/// Whether numbers are in ascending order without repetition.
pub open spec fn ascending(numbers: Seq<u64>) -> bool {
    forall|i: int, j: int|
        #![trigger numbers[i], numbers[j]]
        0 <= i < j < numbers.len() ==> numbers[i] < numbers[j]
}

proof fn lemma_lex_irreflexive(a: Seq<u8>)
    ensures
        !lex_lt(a, a),
    decreases a.len(),
{
    if a.len() > 0 {
        lemma_lex_irreflexive(a.skip(1));
    }
}

proof fn lemma_lex_transitive(a: Seq<u8>, b: Seq<u8>, c: Seq<u8>)
    requires
        lex_lt(a, b),
        lex_lt(b, c),
    ensures
        lex_lt(a, c),
    decreases a.len(),
{
    if a.len() > 0 && a[0] == b[0] && b[0] == c[0] {
        lemma_lex_transitive(a.skip(1), b.skip(1), c.skip(1));
    }
}

proof fn lemma_lex_total(a: Seq<u8>, b: Seq<u8>)
    ensures
        lex_lt(a, b) || a == b || lex_lt(b, a),
    decreases a.len(),
{
    if a.len() == 0 || b.len() == 0 {
        assert(a.len() == 0 && b.len() == 0 ==> a =~= b);
    } else if a[0] == b[0] {
        lemma_lex_total(a.skip(1), b.skip(1));
        if a.skip(1) == b.skip(1) {
            assert forall|i: int| 0 <= i < a.len() && a.len() == b.len() implies a[i] == b[i] by {
                if i > 0 {
                    assert(a[i] == a.skip(1)[i - 1]);
                    assert(b[i] == b.skip(1)[i - 1]);
                }
            }
            assert(a.skip(1).len() == b.skip(1).len());
            assert(a =~= b);
        }
    }
}

/// The order of names is strict and total: of two different names exactly one comes first.
pub proof fn law_name_order_is_strict_and_total(a: Seq<char>, b: Seq<char>)
    ensures
        !name_lt(a, a),
        a != b ==> (name_lt(a, b) <==> !name_lt(b, a)),
{
    lemma_lex_irreflexive(encode_utf8(a));
    lemma_lex_total(encode_utf8(a), encode_utf8(b));
    if name_lt(a, b) && name_lt(b, a) {
        lemma_lex_transitive(encode_utf8(a), encode_utf8(b), encode_utf8(a));
    }
    if encode_utf8(a) == encode_utf8(b) {
        encode_utf8_decode_utf8(a);
        encode_utf8_decode_utf8(b);
    }
}

/// Whether one name comes before another.
pub fn name_precedes(a: &String, b: &String) -> (precedes: bool)
    ensures
        precedes == name_lt(a@, b@),
{
    let left = a.as_str().as_bytes();
    let right = b.as_str().as_bytes();
    let mut i: usize = 0;
    proof {
        assert(left@.skip(0) =~= left@);
        assert(right@.skip(0) =~= right@);
    }
    while i < left.len() && i < right.len()
        invariant
            i <= left@.len(),
            i <= right@.len(),
            left@ == encode_utf8(a@),
            right@ == encode_utf8(b@),
            lex_lt(left@, right@) == lex_lt(left@.skip(i as int), right@.skip(i as int)),
        decreases left@.len() - i,
    {
        proof {
            assert(left@.skip(i as int)[0] == left@[i as int]);
            assert(right@.skip(i as int)[0] == right@[i as int]);
        }
        if left[i] != right[i] {
            return left[i] < right[i];
        }
        proof {
            assert(left@.skip(i as int).skip(1) =~= left@.skip(i + 1));
            assert(right@.skip(i as int).skip(1) =~= right@.skip(i + 1));
        }
        i = i + 1;
    }
    i < right.len()
}

/// Adds a name to an ascending list, unless it is there.
pub fn insert_name(names: &mut Vec<String>, name: String)
    requires
        names_ascending(old(names)@),
    ensures
        names_ascending(final(names)@),
        forall|other: Seq<char>| #[trigger]
            has_name(final(names)@, other) <==> has_name(old(names)@, other) || other == name@,
{
    let ghost before = names@;
    let mut i: usize = 0;
    while i < names.len() && name_precedes(&names[i], &name)
        invariant
            i <= names@.len(),
            names@ == before,
            forall|j: int| 0 <= j < i ==> name_lt((#[trigger] names@[j])@, name@),
        decreases names@.len() - i,
    {
        i = i + 1;
    }
    if i < names.len() && names[i] == name {
        proof {
            assert(before[i as int]@ == name@);
        }
        return;
    }
    proof {
        if i < names@.len() {
            law_name_order_is_strict_and_total(names@[i as int]@, name@);
            assert forall|j: int| i <= j < names@.len() implies name_lt(
                name@,
                (#[trigger] names@[j])@,
            ) by {
                if j > i {
                    assert(name_lt(names@[i as int]@, names@[j]@));
                    lemma_lex_transitive(
                        encode_utf8(name@),
                        encode_utf8(names@[i as int]@),
                        encode_utf8(names@[j]@),
                    );
                }
            }
        }
    }
    names.insert(i, name);
    proof {
        let after = names@;
        assert forall|a: int, b: int|
            #![trigger after[a], after[b]]
            0 <= a < b < after.len() implies name_lt(after[a]@, after[b]@) by {
            if a < i && b < i {
                assert(name_lt(before[a]@, before[b]@));
            } else if a < i && b > i {
                assert(name_lt(before[a]@, before[b - 1]@));
            } else if a > i {
                assert(name_lt(before[a - 1]@, before[b - 1]@));
            } else if a == i {
                assert(name_lt(name@, before[b - 1]@));
            }
        }
        assert forall|other: Seq<char>| #[trigger] has_name(after, other) <==> has_name(
            before,
            other,
        ) || other == name@ by {
            if has_name(after, other) && other != name@ {
                let k = choose|k: int| 0 <= k < after.len() && (#[trigger] after[k])@ == other;
                if k < i {
                    assert(before[k]@ == other);
                } else {
                    assert(before[k - 1]@ == other);
                }
            }
            if has_name(before, other) {
                let k = choose|k: int| 0 <= k < before.len() && (#[trigger] before[k])@ == other;
                if k < i {
                    assert(after[k]@ == other);
                } else {
                    assert(after[k + 1]@ == other);
                }
            }
            if other == name@ {
                assert(after[i as int]@ == other);
            }
        }
    }
}

/// Adds a number to an ascending list.
fn insert_number(numbers: &mut Vec<u64>, number: u64)
    requires
        ascending(old(numbers)@),
        !old(numbers)@.contains(number),
    ensures
        ascending(final(numbers)@),
        final(numbers)@.len() == old(numbers)@.len() + 1,
        forall|other: u64| #[trigger]
            final(numbers)@.contains(other) <==> old(numbers)@.contains(other) || other == number,
{
    let ghost before = numbers@;
    let mut i: usize = 0;
    while i < numbers.len() && numbers[i] < number
        invariant
            i <= numbers@.len(),
            numbers@ == before,
            forall|j: int| 0 <= j < i ==> #[trigger] numbers@[j] < number,
        decreases numbers@.len() - i,
    {
        i = i + 1;
    }
    proof {
        if i < before.len() {
            assert(before.contains(before[i as int]));
            assert(number < before[i as int]);
            assert forall|j: int| i <= j < before.len() implies number < #[trigger] before[j] by {
                if j > i {
                    assert(before[i as int] < before[j]);
                }
            }
        }
    }
    numbers.insert(i, number);
    proof {
        let after = numbers@;
        assert forall|a: int, b: int|
            #![trigger after[a], after[b]]
            0 <= a < b < after.len() implies after[a] < after[b] by {
            if a < i && b < i {
                assert(before[a] < before[b]);
            } else if a < i && b > i {
                assert(before[a] < before[b - 1]);
            } else if a > i {
                assert(before[a - 1] < before[b - 1]);
            } else if a == i {
                assert(number < before[b - 1]);
            }
        }
        assert forall|other: u64| #[trigger] after.contains(other) <==> before.contains(other)
            || other == number by {
            if after.contains(other) && other != number {
                let k = choose|k: int| 0 <= k < after.len() && after[k] == other;
                if k < i {
                    assert(before[k] == other);
                } else {
                    assert(before[k - 1] == other);
                }
            }
            if before.contains(other) {
                let k = choose|k: int| 0 <= k < before.len() && before[k] == other;
                if k < i {
                    assert(after[k] == other);
                } else {
                    assert(after[k + 1] == other);
                }
            }
            if other == number {
                assert(after[i as int] == other);
            }
        }
    }
}

/// The same numbers in ascending order.
pub fn sorted(numbers: &Vec<u64>) -> (sorted: Vec<u64>)
    requires
        numbers@.no_duplicates(),
    ensures
        ascending(sorted@),
        sorted@.len() == numbers@.len(),
        forall|number: u64| #[trigger] sorted@.contains(number) <==> numbers@.contains(number),
{
    let mut sorted: Vec<u64> = Vec::new();
    let mut i: usize = 0;
    while i < numbers.len()
        invariant
            i <= numbers@.len(),
            numbers@.no_duplicates(),
            ascending(sorted@),
            sorted@.len() == i,
            forall|number: u64| #[trigger]
                sorted@.contains(number) <==> numbers@.take(i as int).contains(number),
        decreases numbers@.len() - i,
    {
        let ghost before = sorted@;
        proof {
            let taken = numbers@.take(i as int);
            if taken.contains(numbers@[i as int]) {
                let k = choose|k: int| 0 <= k < taken.len() && taken[k] == numbers@[i as int];
                assert(numbers@[k] == numbers@[i as int]);
            }
        }
        insert_number(&mut sorted, numbers[i]);
        proof {
            let taken = numbers@.take(i as int);
            let more = numbers@.take(i + 1);
            assert(more =~= taken.push(numbers@[i as int]));
            assert forall|number: u64| #[trigger] sorted@.contains(number) <==> more.contains(
                number,
            ) by {
                if more.contains(number) {
                    let k = choose|k: int| 0 <= k < more.len() && more[k] == number;
                    if k < i {
                        assert(taken[k] == number);
                        assert(taken.contains(number));
                        assert(before.contains(number));
                    }
                }
                if sorted@.contains(number) {
                    if number == numbers@[i as int] {
                        assert(more[i as int] == number);
                    } else {
                        assert(before.contains(number));
                        assert(taken.contains(number));
                        let k = choose|k: int| 0 <= k < taken.len() && taken[k] == number;
                        assert(more[k] == number);
                    }
                }
            }
        }
        i = i + 1;
    }
    proof {
        assert(numbers@.take(i as int) =~= numbers@);
    }
    sorted
}

/// Names are ordered as byte strings: the first byte that differs decides, and a name comes before
/// every longer one that begins with it.
pub proof fn law_the_first_difference_decides(a: Seq<u8>, b: Seq<u8>, i: int)
    requires
        0 <= i <= a.len(),
        i < b.len(),
        forall|j: int| 0 <= j < i ==> a[j] == #[trigger] b[j],
        i < a.len() ==> a[i] != b[i],
    ensures
        lex_lt(a, b) <==> (i == a.len() || a[i] < b[i]),
    decreases i,
{
    if i > 0 {
        assert(a[0] == b[0]);
        assert forall|j: int| 0 <= j < i - 1 implies a.skip(1)[j] == #[trigger] b.skip(1)[j] by {
            assert(a[j + 1] == b[j + 1]);
        }
        law_the_first_difference_decides(a.skip(1), b.skip(1), i - 1);
    }
}

/// The order of names is that of their bytes.
pub proof fn law_names_are_ordered_by_their_bytes(a: Seq<char>, b: Seq<char>, i: int)
    requires
        0 <= i <= encode_utf8(a).len(),
        i < encode_utf8(b).len(),
        forall|j: int| 0 <= j < i ==> encode_utf8(a)[j] == #[trigger] encode_utf8(b)[j],
        i < encode_utf8(a).len() ==> encode_utf8(a)[i] != encode_utf8(b)[i],
    ensures
        name_lt(a, b) <==> (i == encode_utf8(a).len() || encode_utf8(a)[i] < encode_utf8(b)[i]),
{
    law_the_first_difference_decides(encode_utf8(a), encode_utf8(b), i);
}

/// A list in order holds nothing twice and its neighbours are in order; a listed name is found.
pub proof fn law_sorted_lists_repeat_nothing(numbers: Seq<u64>, names: Seq<String>, i: int, j: int)
    requires
        ascending(numbers),
        names_ascending(names),
    ensures
        0 <= i < j < numbers.len() ==> numbers[i] < numbers[j],
        0 <= i < j < names.len() ==> name_lt(names[i]@, names[j]@) && names[i]@ != names[j]@,
        0 <= i < names.len() ==> has_name(names, names[i]@),
{
    if 0 <= i < j < names.len() {
        law_name_order_is_strict_and_total(names[i]@, names[j]@);
    }
}

} // verus!
