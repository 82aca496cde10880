//! The order of names and paths, on raw bytes.

use vstd::prelude::*;

use crate::path::{FilePath, PathKey};

verus! {

/// One name comes before another: at their first difference by the smaller byte, the shorter one
/// first.
pub open spec fn bytes_before(a: Seq<u8>, b: Seq<u8>) -> bool
    decreases a.len(),
{
    if b.len() == 0 {
        false
    } else if a.len() == 0 {
        true
    } else if a[0] != b[0] {
        a[0] < b[0]
    } else {
        bytes_before(a.skip(1), b.skip(1))
    }
}

pub proof fn lemma_before_transitive(a: Seq<u8>, b: Seq<u8>, c: Seq<u8>)
    requires
        !bytes_before(b, a),
        !bytes_before(c, b),
    ensures
        !bytes_before(c, a),
    decreases a.len(),
{
    if a.len() > 0 && b.len() > 0 && c.len() > 0 && a[0] == b[0] && b[0] == c[0] {
        lemma_before_transitive(a.skip(1), b.skip(1), c.skip(1));
    }
}

pub proof fn lemma_before_asymmetric(a: Seq<u8>, b: Seq<u8>)
    requires
        bytes_before(a, b),
    ensures
        !bytes_before(b, a),
    decreases a.len(),
{
    if a.len() > 0 && b.len() > 0 && a[0] == b[0] {
        lemma_before_asymmetric(a.skip(1), b.skip(1));
    }
}

/// Names that neither comes before the other are the same name: the order is total, on raw bytes.
pub proof fn law_the_name_order_is_total(a: Seq<u8>, b: Seq<u8>)
    ensures
        !bytes_before(a, b) && !bytes_before(b, a) <==> a == b,
    decreases a.len(),
{
    if a.len() > 0 && b.len() > 0 {
        law_the_name_order_is_total(a.skip(1), b.skip(1));
        if a[0] == b[0] && a.skip(1) == b.skip(1) {
            assert(a =~= seq![a[0]] + a.skip(1));
            assert(b =~= seq![b[0]] + b.skip(1));
        }
    } else {
        assert(a.len() == 0 && b.len() == 0 ==> a =~= b);
    }
}

/// Whether one name comes before another.
pub fn name_before(a: &Vec<u8>, b: &Vec<u8>) -> (r: bool)
    ensures
        r == bytes_before(a@, b@),
{
    let mut i: usize = 0;
    assert(a@.skip(0) =~= a@);
    assert(b@.skip(0) =~= b@);
    while i < a.len() && i < b.len() && a[i] == b[i]
        invariant
            i <= a@.len(),
            i <= b@.len(),
            bytes_before(a@, b@) == bytes_before(a@.skip(i as int), b@.skip(i as int)),
        decreases a@.len() - i,
    {
        assert(a@.skip(i as int)[0] == a@[i as int]);
        assert(b@.skip(i as int)[0] == b@[i as int]);
        assert(a@.skip(i as int).skip(1) =~= a@.skip(i as int + 1));
        assert(b@.skip(i as int).skip(1) =~= b@.skip(i as int + 1));
        i = i + 1;
    }
    if i >= b.len() {
        return false;
    }
    if i >= a.len() {
        return true;
    }
    assert(a@.skip(i as int)[0] == a@[i as int]);
    assert(b@.skip(i as int)[0] == b@[i as int]);
    a[i] < b[i]
}

/// The rank of a component: `.`, then `..`, then names.
pub open spec fn part_rank(part: Seq<u8>) -> int {
    if part == crate::path::dot() {
        0
    } else if part == crate::path::dot_dot() {
        1
    } else {
        2
    }
}

/// One component comes before another: by rank, and names by their bytes.
pub open spec fn part_before(a: Seq<u8>, b: Seq<u8>) -> bool {
    part_rank(a) < part_rank(b) || (part_rank(a) == 2 && part_rank(b) == 2 && bytes_before(a, b))
}

/// One list of components comes before another: at their first difference, the shorter one first.
pub open spec fn parts_before(a: Seq<Seq<u8>>, b: Seq<Seq<u8>>) -> bool
    decreases a.len(),
{
    if b.len() == 0 {
        false
    } else if a.len() == 0 {
        true
    } else if a[0] != b[0] {
        part_before(a[0], b[0])
    } else {
        parts_before(a.skip(1), b.skip(1))
    }
}

/// One path comes before another: the empty path before every other, then absolute paths, then
/// relative ones; component by component among either.
pub open spec fn path_before(a: PathKey, b: PathKey) -> bool {
    if a.absolute && !b.absolute {
        b.parts.len() > 0
    } else if !a.absolute && b.absolute {
        a.parts.len() == 0
    } else {
        parts_before(a.parts, b.parts)
    }
}

proof fn lemma_part_transitive(a: Seq<u8>, b: Seq<u8>, c: Seq<u8>)
    requires
        !part_before(b, a),
        !part_before(c, b),
    ensures
        !part_before(c, a),
{
    if part_rank(a) == 2 && part_rank(b) == 2 && part_rank(c) == 2 {
        lemma_before_transitive(a, b, c);
    }
}

proof fn lemma_part_total(a: Seq<u8>, b: Seq<u8>)
    ensures
        !part_before(a, b) && !part_before(b, a) <==> a == b,
        part_before(a, b) ==> !part_before(b, a),
{
    law_the_name_order_is_total(a, b);
    if bytes_before(a, b) {
        lemma_before_asymmetric(a, b);
    }
}

proof fn lemma_parts_transitive(a: Seq<Seq<u8>>, b: Seq<Seq<u8>>, c: Seq<Seq<u8>>)
    requires
        !parts_before(b, a),
        !parts_before(c, b),
    ensures
        !parts_before(c, a),
    decreases a.len(),
{
    if a.len() > 0 && b.len() > 0 && c.len() > 0 {
        lemma_part_total(a[0], b[0]);
        lemma_part_total(b[0], c[0]);
        lemma_part_total(a[0], c[0]);
        if a[0] == b[0] && b[0] == c[0] {
            lemma_parts_transitive(a.skip(1), b.skip(1), c.skip(1));
        } else {
            lemma_part_transitive(a[0], b[0], c[0]);
            if a[0] == c[0] {
                assert(false);
            }
        }
    }
}

proof fn lemma_parts_total(a: Seq<Seq<u8>>, b: Seq<Seq<u8>>)
    ensures
        !parts_before(a, b) && !parts_before(b, a) <==> a == b,
        parts_before(a, b) ==> !parts_before(b, a),
    decreases a.len(),
{
    if a.len() > 0 && b.len() > 0 {
        lemma_part_total(a[0], b[0]);
        lemma_parts_total(a.skip(1), b.skip(1));
        if a[0] == b[0] && a.skip(1) == b.skip(1) {
            assert(a =~= seq![a[0]] + a.skip(1));
            assert(b =~= seq![b[0]] + b.skip(1));
        }
    } else {
        assert(a.len() == 0 && b.len() == 0 ==> a =~= b);
    }
}

/// What does not come before in two steps does not in one.
pub proof fn lemma_path_transitive(a: PathKey, b: PathKey, c: PathKey)
    requires
        !path_before(b, a),
        !path_before(c, b),
    ensures
        !path_before(c, a),
{
    if a.absolute == b.absolute && b.absolute == c.absolute {
        lemma_parts_transitive(a.parts, b.parts, c.parts);
    } else {
        lemma_parts_total(a.parts, b.parts);
        lemma_parts_total(b.parts, c.parts);
        lemma_parts_total(a.parts, c.parts);
    }
}

/// Paths that neither comes before the other are the same path, and no path comes both before and
/// behind another.
pub proof fn law_the_path_order_is_total(a: PathKey, b: PathKey)
    ensures
        !path_before(a, b) && !path_before(b, a) <==> a == b,
        path_before(a, b) ==> !path_before(b, a),
{
    lemma_parts_total(a.parts, b.parts);
    assert(a.absolute == b.absolute && a.parts == b.parts ==> a =~= b);
}

fn rank_of(part: &Vec<u8>) -> (r: u8)
    ensures
        r == part_rank(part@),
{
    if part.len() == 1 && part[0] == 46u8 {
        assert(part@ =~= crate::path::dot());
        return 0;
    }
    assert(part@ != crate::path::dot()) by {
        if part@ == crate::path::dot() {
            assert(part@[0] == 46u8);
        }
    }
    if part.len() == 2 && part[0] == 46u8 && part[1] == 46u8 {
        assert(part@ =~= crate::path::dot_dot());
        return 1;
    }
    assert(part@ != crate::path::dot_dot()) by {
        if part@ == crate::path::dot_dot() {
            assert(part@[0] == 46u8 && part@[1] == 46u8);
        }
    }
    2
}

impl FilePath {
    /// Whether this path comes before another.
    pub fn before(&self, other: &FilePath) -> (r: bool)
        ensures
            r == path_before(self@.key(), other@.key()),
    {
        assert(self@.parts.len() == self.parts@.len());
        assert(other@.parts.len() == other.parts@.len());
        if self.absolute && !other.absolute {
            return other.parts.len() > 0;
        }
        if !self.absolute && other.absolute {
            return self.parts.len() == 0;
        }
        let ghost a = self@.parts;
        let ghost b = other@.parts;
        let mut i: usize = 0;
        assert(a.skip(0) =~= a);
        assert(b.skip(0) =~= b);
        while i < self.parts.len() && i < other.parts.len()
            invariant
                a == self@.parts,
                b == other@.parts,
                a.len() == self.parts@.len(),
                b.len() == other.parts@.len(),
                i <= a.len(),
                i <= b.len(),
                parts_before(a, b) == parts_before(a.skip(i as int), b.skip(i as int)),
                path_before(self@.key(), other@.key()) == parts_before(a, b),
            decreases a.len() - i,
        {
            let x = &self.parts[i];
            let y = &other.parts[i];
            assert(a[i as int] == x@ && b[i as int] == y@);
            assert(a.skip(i as int)[0] == x@ && b.skip(i as int)[0] == y@);
            if !crate::path::same_bytes(x, y) {
                let left: u8 = rank_of(x);
                let right: u8 = rank_of(y);
                if left == 2 && right == 2 {
                    return name_before(x, y);
                }
                return left < right;
            }
            assert(a.skip(i as int).skip(1) =~= a.skip(i as int + 1));
            assert(b.skip(i as int).skip(1) =~= b.skip(i as int + 1));
            i = i + 1;
        }
        i < other.parts.len()
    }
}

} // verus!
