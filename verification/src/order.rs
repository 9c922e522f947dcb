//! The order in which headers are sent.
//!
//! A profile may name headers in the order in which its build sends them.
//! The headers it names go first, in that order; the others follow in
//! alphabetical order.

use vstd::prelude::*;
use crate::header::has_field;
use crate::header::header_names;
use crate::text::chars_of;
use crate::text::str_eq;

verus! {

/// Whether `a` stands before `b` in the alphabet, or is `b`.
pub open spec fn lex_le(a: Seq<char>, b: Seq<char>) -> bool
    decreases a.len(),
{
    if a.len() == 0 {
        true
    } else if b.len() == 0 {
        false
    } else if a[0] != b[0] {
        a[0] < b[0]
    } else {
        lex_le(a.skip(1), b.skip(1))
    }
}

/// Of two names one stands before the other or is the other.
pub proof fn lemma_lex_total(a: Seq<char>, b: Seq<char>)
    ensures
        lex_le(a, b) || lex_le(b, a),
    decreases a.len(),
{
    if a.len() > 0 && b.len() > 0 && a[0] == b[0] {
        lemma_lex_total(a.skip(1), b.skip(1));
    }
}

/// What stands before a name stands before what the name stands before.
pub proof fn lemma_lex_transitive(a: Seq<char>, b: Seq<char>, c: Seq<char>)
    requires
        lex_le(a, b),
        lex_le(b, c),
    ensures
        lex_le(a, c),
    decreases a.len(),
{
    if a.len() > 0 && b.len() > 0 && c.len() > 0 && a[0] == b[0] && b[0] == c[0] {
        lemma_lex_transitive(a.skip(1), b.skip(1), c.skip(1));
    }
}

/// Whether `a` stands before `b` in the alphabet, or is `b`.
fn chars_le(a: &Vec<char>, b: &Vec<char>) -> (le: bool)
    ensures
        le == lex_le(a@, b@),
{
    let mut i: usize = 0;
    proof {
        assert(a@.skip(0) =~= a@);
        assert(b@.skip(0) =~= b@);
    }
    while i < a.len() && i < b.len()
        invariant
            i <= a.len(),
            i <= b.len(),
            lex_le(a@, b@) == lex_le(a@.skip(i as int), b@.skip(i as int)),
        decreases a.len() - i,
    {
        proof {
            assert(a@.skip(i as int)[0] == a@[i as int]);
            assert(b@.skip(i as int)[0] == b@[i as int]);
            assert(a@.skip(i as int).skip(1) =~= a@.skip(i + 1));
            assert(b@.skip(i as int).skip(1) =~= b@.skip(i + 1));
        }
        if a[i] != b[i] {
            return a[i] < b[i];
        }
        i += 1;
    }
    proof {
        assert(a@.skip(0) =~= a@);
    }
    i == a.len()
}

/// Whether `a` stands before `b` in the alphabet, or is `b`.
pub fn name_le(a: &str, b: &str) -> (le: bool)
    ensures
        le == lex_le(a@, b@),
{
    let x = chars_of(a);
    let y = chars_of(b);
    chars_le(&x, &y)
}

/// Whether the names of a list stand in alphabetical order.
pub open spec fn sorted(names: Seq<String>) -> bool {
    forall|i: int, j: int|
        0 <= i < j < names.len() ==> lex_le((#[trigger] names[i])@, (#[trigger] names[j])@)
}

/// Whether `name` is among `names`.
pub open spec fn among(names: Seq<String>, name: Seq<char>) -> bool {
    exists|i: int| 0 <= i < names.len() && (#[trigger] names[i])@ == name
}

/// Whether no name occurs twice in `names`.
pub open spec fn distinct(names: Seq<String>) -> bool {
    forall|i: int, j: int|
        0 <= i < j < names.len() ==> (#[trigger] names[i])@ != (#[trigger] names[j])@
}

/// Whether `name` is among `names`.
fn contains_name(names: &Vec<String>, name: &str) -> (found: bool)
    ensures
        found == among(names@, name@),
{
    let mut i: usize = 0;
    while i < names.len()
        invariant
            i <= names.len(),
            forall|k: int| 0 <= k < i ==> (#[trigger] names[k])@ != name@,
        decreases names.len() - i,
    {
        if str_eq(names[i].as_str(), name) {
            return true;
        }
        i += 1;
    }
    false
}

/// Puts `name` into the sorted list `names` at its place.
fn insert_sorted(names: &mut Vec<String>, name: String)
    requires
        sorted(old(names)@),
        distinct(old(names)@),
        !among(old(names)@, name@),
    ensures
        sorted(final(names)@),
        distinct(final(names)@),
        final(names)@.len() == old(names)@.len() + 1,
        forall|n: Seq<char>| among(final(names)@, n) == (among(old(names)@, n) || n == name@),
{
    let ghost before = names@;
    let mut at: usize = 0;
    while at < names.len() && name_le(names[at].as_str(), name.as_str())
        invariant
            at <= names.len(),
            names@ == before,
            forall|k: int| 0 <= k < at ==> lex_le((#[trigger] before[k])@, name@),
        decreases names.len() - at,
    {
        at += 1;
    }
    names.insert(at, name);
    proof {
        let after = names@;
        assert forall|i: int, j: int| 0 <= i < j < after.len() implies lex_le(
            (#[trigger] after[i])@,
            (#[trigger] after[j])@,
        ) by {
            if j < at {
                assert(after[i] == before[i] && after[j] == before[j]);
            } else if j == at {
                assert(after[i] == before[i]);
            } else if i == at {
                assert(after[j] == before[j - 1]);
                lemma_lex_total(before[at as int]@, name@);
                if j - 1 > at {
                    assert(lex_le(before[at as int]@, before[j - 1]@));
                    lemma_lex_transitive(name@, before[at as int]@, before[j - 1]@);
                }
            } else if i < at {
                assert(after[i] == before[i] && after[j] == before[j - 1]);
            } else {
                assert(after[i] == before[i - 1] && after[j] == before[j - 1]);
            }
        }
        assert forall|i: int, j: int| 0 <= i < j < after.len() implies (#[trigger] after[i])@ != (
        #[trigger] after[j])@ by {
            let si = if i < at {
                i
            } else {
                i - 1
            };
            let sj = if j < at {
                j
            } else {
                j - 1
            };
            if i == at {
                assert(after[j] == before[sj]);
            } else if j == at {
                assert(after[i] == before[si]);
            } else {
                assert(after[i] == before[si] && after[j] == before[sj]);
                assert(before[si]@ != before[sj]@);
            }
        }
        assert forall|n: Seq<char>| among(after, n) == (among(before, n) || n == name@) by {
            if among(after, n) {
                let i = choose|i: int| 0 <= i < after.len() && (#[trigger] after[i])@ == n;
                if i < at {
                    assert(before[i]@ == n);
                } else if i > at {
                    assert(before[i - 1]@ == n);
                }
            }
            if among(before, n) {
                let i = choose|i: int| 0 <= i < before.len() && (#[trigger] before[i])@ == n;
                if i < at {
                    assert(after[i]@ == n);
                } else {
                    assert(after[i + 1]@ == n);
                }
            }
            if n == name@ {
                assert(after[at as int]@ == n);
            }
        }
    }
}

/// Whether `names` is the order in which the headers `headers` are sent
/// where `order` names the headers that go first.
///
/// Every header is sent once. The first `leading` names are the headers
/// that `order` names, in the order of `order`; the others follow in
/// alphabetical order.
pub open spec fn is_send_order(
    names: Seq<String>,
    leading: int,
    headers: http::HeaderMap,
    order: Seq<String>,
) -> bool {
    &&& 0 <= leading <= names.len()
    &&& distinct(names)
    &&& forall|n: Seq<char>| among(names, n) == has_field(headers, n)
    &&& forall|i: int| 0 <= i < leading ==> among(order, (#[trigger] names[i])@)
    &&& forall|i: int| leading <= i < names.len() ==> !among(order, (#[trigger] names[i])@)
    &&& forall|i: int, j: int|
        0 <= i < j < leading ==> #[trigger] stands_before(order, names[i]@, names[j]@)
    &&& sorted(names.skip(leading))
}

/// Whether `order` names `x` at an earlier place than `y`.
pub open spec fn stands_before(order: Seq<String>, x: Seq<char>, y: Seq<char>) -> bool {
    exists|a: int, b: int|
        0 <= a < b < order.len() && (#[trigger] order[a])@ == x && (#[trigger] order[b])@ == y
}

/// The names of the headers in the order in which they are sent, and how
/// many of them go first because `order` names them.
pub struct SendOrder {
    pub names: Vec<String>,
    pub leading: usize,
}

/// Works out the order in which the headers are sent.
pub fn ordered_names(headers: &http::HeaderMap, order: &Vec<String>) -> (result: SendOrder)
    ensures
        is_send_order(result.names@, result.leading as int, *headers, order@),
{
    let present = header_names(headers);
    // The headers that `order` names, in its order, each once.
    let mut names: Vec<String> = Vec::new();
    let ghost mut sources: Seq<int> = Seq::empty();
    let mut i: usize = 0;
    while i < order.len()
        invariant
            i <= order.len(),
            distinct(names@),
            sources.len() == names@.len(),
            forall|k: int|
                0 <= k < names@.len() ==> 0 <= (#[trigger] sources[k]) < i && order@[sources[k]]@
                    == names@[k]@ && has_field(*headers, names@[k]@),
            forall|k: int, l: int|
                0 <= k < l < names@.len() ==> (#[trigger] sources[k]) < (#[trigger] sources[l]),
            forall|k: int|
                0 <= k < i && has_field(*headers, (#[trigger] order@[k])@) ==> among(
                    names@,
                    order@[k]@,
                ),
            forall|k: int| 0 <= k < present@.len() ==> has_field(*headers, #[trigger] present@[k]@),
            forall|n: Seq<char>| #[trigger]
                has_field(*headers, n) ==> exists|k: int|
                    0 <= k < present@.len() && present@[k]@ == n,
        decreases order.len() - i,
    {
        let name = order[i].as_str();
        if contains_name(&present, name) && !contains_name(&names, name) {
            let ghost before = names@;
            names.push(order[i].clone());
            proof {
                sources = sources.push(i as int);
                let k = choose|k: int| 0 <= k < present@.len() && (#[trigger] present@[k])@ == name@;
                assert(has_field(*headers, present@[k]@));
                assert forall|a: int, b: int| 0 <= a < b < names@.len() implies (
                #[trigger] names@[a])@ != (#[trigger] names@[b])@ by {
                    if b == names@.len() - 1 {
                        assert(names@[a] == before[a]);
                    } else {
                        assert(names@[a] == before[a] && names@[b] == before[b]);
                    }
                }
                assert forall|k: int|
                    0 <= k < i + 1 && has_field(*headers, (#[trigger] order@[k])@) implies among(
                    names@,
                    order@[k]@,
                ) by {
                    if k < i {
                        let at = choose|at: int|
                            0 <= at < before.len() && (#[trigger] before[at])@ == order@[k]@;
                        assert(names@[at]@ == order@[k]@);
                    } else {
                        assert(names@[names@.len() - 1]@ == order@[k]@);
                    }
                }
            }
        } else {
            proof {
                if has_field(*headers, order@[i as int]@) {
                    let k = choose|k: int|
                        0 <= k < present@.len() && present@[k]@ == order@[i as int]@;
                    assert(among(present@, name@));
                }
            }
        }
        i += 1;
    }
    let leading = names.len();
    let ghost first = names@;
    // The other headers, in alphabetical order.
    let mut rest: Vec<String> = Vec::new();
    let mut j: usize = 0;
    while j < present.len()
        invariant
            j <= present.len(),
            sorted(rest@),
            distinct(rest@),
            names@ == first,
            first.len() == leading,
            sources.len() == first.len(),
            distinct(first),
            forall|k: int|
                0 <= k < first.len() ==> 0 <= (#[trigger] sources[k]) < order@.len()
                    && order@[sources[k]]@ == first[k]@ && has_field(*headers, first[k]@),
            forall|k: int, l: int|
                0 <= k < l < first.len() ==> (#[trigger] sources[k]) < (#[trigger] sources[l]),
            forall|k: int|
                0 <= k < order@.len() && has_field(*headers, (#[trigger] order@[k])@) ==> among(
                    first,
                    order@[k]@,
                ),
            forall|k: int| 0 <= k < present@.len() ==> has_field(*headers, #[trigger] present@[k]@),
            forall|n: Seq<char>| #[trigger]
                has_field(*headers, n) ==> exists|k: int|
                    0 <= k < present@.len() && present@[k]@ == n,
            forall|n: Seq<char>|
                among(rest@, n) == (exists|k: int|
                    0 <= k < j && (#[trigger] present@[k])@ == n && !among(order@, n)),
            forall|a: int, b: int|
                0 <= a < b < present@.len() ==> (#[trigger] present@[a])@ != (
                #[trigger] present@[b])@,
        decreases present.len() - j,
    {
        let name = present[j].as_str();
        if !contains_name(order, name) {
            proof {
                if among(rest@, name@) {
                    let k = choose|k: int|
                        0 <= k < j && (#[trigger] present@[k])@ == name@ && !among(order@, name@);
                    assert(present@[k]@ != present@[j as int]@);
                }
            }
            let ghost before = rest@;
            insert_sorted(&mut rest, present[j].clone());
            proof {
                assert forall|n: Seq<char>|
                    among(rest@, n) == (exists|k: int|
                        0 <= k < j + 1 && (#[trigger] present@[k])@ == n && !among(
                            order@,
                            n,
                        )) by {
                    if among(before, n) {
                        let k = choose|k: int|
                            0 <= k < j && (#[trigger] present@[k])@ == n && !among(order@, n);
                        assert(0 <= k < j + 1 && present@[k]@ == n);
                    }
                    if n == name@ {
                        assert(present@[j as int]@ == n);
                    }
                    if exists|k: int|
                        0 <= k < j + 1 && (#[trigger] present@[k])@ == n && !among(order@, n) {
                        let k = choose|k: int|
                            0 <= k < j + 1 && (#[trigger] present@[k])@ == n && !among(order@, n);
                        if k < j {
                            assert(among(before, n));
                        }
                    }
                }
            }
        } else {
            proof {
                assert forall|n: Seq<char>|
                    among(rest@, n) == (exists|k: int|
                        0 <= k < j + 1 && (#[trigger] present@[k])@ == n && !among(
                            order@,
                            n,
                        )) by {
                    if among(rest@, n) {
                        let k = choose|k: int|
                            0 <= k < j && (#[trigger] present@[k])@ == n && !among(order@, n);
                        assert(0 <= k < j + 1 && present@[k]@ == n);
                    }
                    if exists|k: int|
                        0 <= k < j + 1 && (#[trigger] present@[k])@ == n && !among(order@, n) {
                        let k = choose|k: int|
                            0 <= k < j + 1 && (#[trigger] present@[k])@ == n && !among(order@, n);
                        assert(k < j);
                    }
                }
            }
        }
        j += 1;
    }
    let ghost tail = rest@;
    names.append(&mut rest);
    proof {
        let all = names@;
        assert(all =~= first + tail);
        assert(all.skip(leading as int) =~= tail);
        assert forall|a: int, b: int| 0 <= a < b < all.len() implies (#[trigger] all[a])@ != (
        #[trigger] all[b])@ by {
            if b < leading {
                assert(all[a] == first[a] && all[b] == first[b]);
            } else if a >= leading {
                assert(all[a] == tail[a - leading] && all[b] == tail[b - leading]);
            } else {
                assert(all[a] == first[a] && all[b] == tail[b - leading]);
                assert(among(order@, first[a]@)) by {
                    assert(order@[sources[a]]@ == first[a]@);
                }
                assert(among(tail, tail[b - leading]@));
            }
        }
        assert forall|n: Seq<char>| among(all, n) == has_field(*headers, n) by {
            if among(all, n) {
                let at = choose|at: int| 0 <= at < all.len() && (#[trigger] all[at])@ == n;
                if at < leading {
                    assert(all[at] == first[at]);
                    assert(order@[sources[at]]@ == first[at]@);
                    assert(has_field(*headers, first[at]@));
                } else {
                    assert(all[at] == tail[at - leading]);
                    assert(tail[at - leading]@ == n);
                    assert(among(tail, n));
                    let k = choose|k: int|
                        0 <= k < present@.len() && (#[trigger] present@[k])@ == n && !among(
                            order@,
                            n,
                        );
                    assert(has_field(*headers, present@[k]@));
                }
            }
            if has_field(*headers, n) {
                if among(order@, n) {
                    let k = choose|k: int| 0 <= k < order@.len() && (#[trigger] order@[k])@ == n;
                    assert(has_field(*headers, order@[k]@));
                    assert(among(first, order@[k]@));
                    let at = choose|at: int| 0 <= at < first.len() && (#[trigger] first[at])@ == n;
                    assert(all[at] == first[at]);
                } else {
                    let k = choose|k: int| 0 <= k < present@.len() && present@[k]@ == n;
                    assert(0 <= k < present@.len() && (#[trigger] present@[k])@ == n && !among(
                        order@,
                        n,
                    ));
                    assert(among(tail, n));
                    let at = choose|at: int| 0 <= at < tail.len() && (#[trigger] tail[at])@ == n;
                    assert(all[at + leading] == tail[at]);
                }
            }
        }
        assert forall|i: int| 0 <= i < leading implies among(order@, (#[trigger] all[i])@) by {
            assert(all[i] == first[i]);
            assert(order@[sources[i]]@ == first[i]@);
        }
        assert forall|i: int| leading <= i < all.len() implies !among(
            order@,
            (#[trigger] all[i])@,
        ) by {
            assert(all[i] == tail[i - leading]);
            assert(among(tail, tail[i - leading]@));
        }
        assert forall|i: int, j: int| 0 <= i < j < leading implies #[trigger] stands_before(
            order@,
            all[i]@,
            all[j]@,
        ) by {
            assert(all[i] == first[i] && all[j] == first[j]);
            assert(sources[i] < sources[j]);
            assert(order@[sources[i]]@ == first[i]@ && order@[sources[j]]@ == first[j]@);
        }
    }
    SendOrder { names, leading }
}

} // verus!
