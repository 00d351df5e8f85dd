//! Strings: how they are compared and ordered, and how the paths of fields
//! are put together.

use vstd::prelude::*;
use vstd::string::*;
use vstd::utf8::*;

verus! {

/// Whether two string slices hold the same characters.
///
/// The slices are compared byte by byte over their UTF-8 encodings; since
/// encoding is injective this decides equality of the character sequences.
pub fn same_text(a: &str, b: &str) -> (same: bool)
    ensures
        same == (a@ == b@),
{
    let x = a.as_bytes();
    let y = b.as_bytes();
    proof {
        encode_utf8_decode_utf8(a@);
        encode_utf8_decode_utf8(b@);
    }
    if x.len() != y.len() {
        return false;
    }
    let mut i: usize = 0;
    while i < x.len()
        invariant
            i <= x.len(),
            x.len() == y.len(),
            x@ == a.spec_bytes(),
            y@ == b.spec_bytes(),
            forall|j: int| 0 <= j < i ==> x@[j] == y@[j],
        decreases x.len() - i,
    {
        if x[i] != y[i] {
            return false;
        }
        i += 1;
    }
    assert(x@ =~= y@);
    true
}

/// Whether byte string `a` comes before `b` at position `k`: the two agree
/// on their first `k` bytes, and there `a` ends while `b` goes on, or `a`
/// has the smaller byte.
pub open spec fn precedes_at(a: Seq<u8>, b: Seq<u8>, k: int) -> bool {
    &&& 0 <= k <= a.len()
    &&& k <= b.len()
    &&& a.take(k) == b.take(k)
    &&& k < b.len()
    &&& k < a.len() ==> a[k] < b[k]
}

/// Whether string `a` comes before string `b`: lexicographically by the
/// bytes of their UTF-8 encodings, which is how strings are ordered.
pub open spec fn precedes(a: Seq<char>, b: Seq<char>) -> bool {
    exists|k: int| precedes_at(encode_utf8(a), encode_utf8(b), k)
}

/// Two byte strings that agree up to a position where the first does not
/// come before the second: then it comes before it at no position.
proof fn not_before(a: Seq<u8>, b: Seq<u8>, i: int)
    requires
        0 <= i <= a.len(),
        i <= b.len(),
        a.take(i) == b.take(i),
        i == b.len() || (i < a.len() && a[i] > b[i]),
    ensures
        forall|k: int| !precedes_at(a, b, k),
{
    assert forall|k: int| !precedes_at(a, b, k) by {
        if precedes_at(a, b, k) {
            if k < i {
                assert(a.take(i)[k] == a[k]);
                assert(b.take(i)[k] == b[k]);
            } else if k > i {
                assert(a.take(k)[i] == a[i]);
                assert(b.take(k)[i] == b[i]);
            }
        }
    }
}

/// Whether one string comes before another in the order of strings.
pub fn text_less(a: &str, b: &str) -> (less: bool)
    ensures
        less == precedes(a@, b@),
{
    let x = a.as_bytes();
    let y = b.as_bytes();
    let mut i: usize = 0;
    assert(x@.take(0) =~= y@.take(0));
    while i < x.len() && i < y.len()
        invariant
            i <= x.len(),
            i <= y.len(),
            x@ == encode_utf8(a@),
            y@ == encode_utf8(b@),
            x@.take(i as int) == y@.take(i as int),
        decreases x.len() - i,
    {
        if x[i] < y[i] {
            assert(precedes_at(x@, y@, i as int));
            return true;
        }
        if x[i] > y[i] {
            proof {
                not_before(x@, y@, i as int);
            }
            return false;
        }
        assert(x@.take(i + 1) =~= x@.take(i as int).push(x@[i as int]));
        assert(y@.take(i + 1) =~= y@.take(i as int).push(y@[i as int]));
        i += 1;
    }
    if i < y.len() {
        assert(precedes_at(x@, y@, i as int));
        true
    } else {
        proof {
            not_before(x@, y@, i as int);
        }
        false
    }
}

/// No string comes before itself, and of two different strings exactly one
/// comes before the other.
pub proof fn strings_are_totally_ordered(a: Seq<char>, b: Seq<char>)
    ensures
        !precedes(a, a),
        a != b ==> (precedes(a, b) <==> !precedes(b, a)),
{
    let x = encode_utf8(a);
    let y = encode_utf8(b);
    assert(x.take(x.len() as int) =~= x);
    not_before(x, x, x.len() as int);
    if a != b {
        encode_utf8_decode_utf8(a);
        encode_utf8_decode_utf8(b);
        assert(x != y);
        assert(x.take(0) =~= y.take(0));
        let i = first_difference(x, y, 0);
        if i == y.len() {
            not_before(x, y, i);
            assert(x.len() > i) by {
                if x.len() == i {
                    assert(x.take(i) =~= x);
                    assert(y.take(i) =~= y);
                }
            }
            assert(precedes_at(y, x, i));
        } else if i == x.len() {
            not_before(y, x, i);
            assert(precedes_at(x, y, i));
        } else if x[i] < y[i] {
            not_before(y, x, i);
            assert(precedes_at(x, y, i));
        } else {
            not_before(x, y, i);
            assert(precedes_at(y, x, i));
        }
    }
}

/// The first position, from `start` on, at which two byte strings differ or
/// one of them ends.
proof fn first_difference(x: Seq<u8>, y: Seq<u8>, start: int) -> (i: int)
    requires
        0 <= start <= x.len(),
        start <= y.len(),
        x.take(start) == y.take(start),
    ensures
        start <= i <= x.len(),
        i <= y.len(),
        x.take(i) == y.take(i),
        i == x.len() || i == y.len() || x[i] != y[i],
    decreases x.len() - start,
{
    if start == x.len() || start == y.len() || x[start] != y[start] {
        start
    } else {
        assert(x.take(start + 1) =~= x.take(start).push(x[start]));
        assert(y.take(start + 1) =~= y.take(start).push(y[start]));
        first_difference(x, y, start + 1)
    }
}

/// The path of `inner` as seen from the record that holds it under `field`:
/// the two joined by a dot.
pub open spec fn dotted(field: Seq<char>, inner: Seq<char>) -> Seq<char> {
    field + seq!['.'] + inner
}

/// Joins a field name and a path below it by a dot.
pub fn dotted_path(field: &str, inner: &str) -> (path: String)
    ensures
        path@ == dotted(field@, inner@),
{
    let mut path = String::from_str(field);
    path.append(".");
    path.append(inner);
    proof {
        reveal_strlit(".");
        assert("."@ =~= seq!['.']);
    }
    path
}

/// The model of a string that may be absent.
pub open spec fn text_model(text: Option<String>) -> Option<Seq<char>> {
    match text {
        Some(s) => Some(s@),
        None => None,
    }
}

/// The model of a borrowed string that may be absent.
pub open spec fn slice_model(text: Option<&str>) -> Option<Seq<char>> {
    match text {
        Some(s) => Some(s@),
        None => None,
    }
}

/// An owned copy of a string that may be absent.
pub fn owned(text: Option<&str>) -> (copy: Option<String>)
    ensures
        text_model(copy) == slice_model(text),
{
    match text {
        Some(s) => Some(String::from_str(s)),
        None => None,
    }
}

} // verus!
