//! A collection of descriptors in which no name occurs twice and which is
//! walked in the order of the names, whatever the order of insertion.

use vstd::prelude::*;
use vstd::string::StringExecFns;
use crate::limb::Limb32Or64;
use crate::synthesis::{has_placeholder, spec_has_placeholder, NameAndSource};
use crate::template::{Templates, TemplatesView};
use crate::text::{less, lex_less, lemma_lex_irreflexive, lemma_lex_total, lemma_lex_transitive};

verus! {

/// The names are in strictly ascending order; no name occurs twice.
pub open spec fn names_sorted<T: NameAndSource>(s: Seq<T::V>) -> bool {
    forall|i: int, j: int|
        0 <= i < j < s.len() ==> lex_less(
            T::spec_name(#[trigger] s[i]),
            T::spec_name(#[trigger] s[j]),
        )
}

/// The number of leading items whose name comes before `name`.
pub open spec fn position<T: NameAndSource>(s: Seq<T::V>, name: Seq<char>) -> int
    decreases s.len(),
{
    if s.len() == 0 || !lex_less(T::spec_name(s[0]), name) {
        0
    } else {
        1 + position::<T>(s.drop_first(), name)
    }
}

/// Whether an item of `s` goes by `name`.
pub open spec fn has_name<T: NameAndSource>(s: Seq<T::V>, name: Seq<char>) -> bool {
    exists|i: int| 0 <= i < s.len() && T::spec_name(#[trigger] s[i]) == name
}

/// The collection after `v` was offered to it. Where no item goes by the
/// name of `v`, `v` takes its place in the order of names. Where one does,
/// it stays, unless `replace` asks for `v` to take its place.
pub open spec fn spec_insert<T: NameAndSource>(s: Seq<T::V>, v: T::V, replace: bool) -> Seq<T::V> {
    let p = position::<T>(s, T::spec_name(v));
    if p < s.len() && T::spec_name(s[p]) == T::spec_name(v) {
        if replace {
            s.update(p, v)
        } else {
            s
        }
    } else {
        s.insert(p, v)
    }
}

/// The sources of the items, each followed by a line break.
pub open spec fn spec_sources<T: NameAndSource>(
    s: Seq<T::V>,
    limb: Limb32Or64,
    templates: TemplatesView,
) -> Seq<char>
    decreases s.len(),
{
    if s.len() == 0 {
        Seq::<char>::empty()
    } else {
        spec_sources::<T>(s.drop_last(), limb, templates) + T::spec_source(
            s.last(),
            limb,
            templates,
        ) + "\n"@
    }
}

/// The section of a document that the items make up: their sources in the
/// order of their names, then two line breaks.
pub open spec fn spec_write_field<T: NameAndSource>(
    s: Seq<T::V>,
    limb: Limb32Or64,
    templates: TemplatesView,
) -> Seq<char> {
    spec_sources::<T>(s, limb, templates) + "\n\n"@
}

/// No placeholder is left in the source of any of the items.
pub open spec fn all_replaced<T: NameAndSource>(
    s: Seq<T::V>,
    limb: Limb32Or64,
    templates: TemplatesView,
) -> bool {
    forall|i: int|
        0 <= i < s.len() ==> !spec_has_placeholder(T::spec_source(#[trigger] s[i], limb, templates))
}

/// Where `name` belongs in a sorted collection: everything before that
/// place comes before `name`, and nothing from there on does.
pub proof fn lemma_position<T: NameAndSource>(s: Seq<T::V>, name: Seq<char>)
    requires
        names_sorted::<T>(s),
    ensures
        0 <= position::<T>(s, name) <= s.len(),
        forall|k: int|
            0 <= k < position::<T>(s, name) ==> lex_less(T::spec_name(#[trigger] s[k]), name),
        forall|k: int|
            position::<T>(s, name) <= k < s.len() ==> !lex_less(
                T::spec_name(#[trigger] s[k]),
                name,
            ),
        has_name::<T>(s, name) <==> position::<T>(s, name) < s.len() && T::spec_name(
            s[position::<T>(s, name)],
        ) == name,
    decreases s.len(),
{
    let p = position::<T>(s, name);
    if s.len() == 0 {
    } else if !lex_less(T::spec_name(s[0]), name) {
        assert forall|k: int| 0 <= k < s.len() implies !lex_less(
            T::spec_name(#[trigger] s[k]),
            name,
        ) by {
            if k > 0 {
                if lex_less(T::spec_name(s[k]), name) {
                    lemma_lex_transitive(T::spec_name(s[0]), T::spec_name(s[k]), name);
                }
            }
        }
        if has_name::<T>(s, name) {
            let i = choose|i: int| 0 <= i < s.len() && T::spec_name(#[trigger] s[i]) == name;
            if i > 0 {
                // s[0] comes before s[i], which is `name`
                assert(lex_less(T::spec_name(s[0]), T::spec_name(s[i])));
            }
        }
    } else {
        let rest = s.drop_first();
        assert(names_sorted::<T>(rest)) by {
            assert forall|i: int, j: int| 0 <= i < j < rest.len() implies lex_less(
                T::spec_name(#[trigger] rest[i]),
                T::spec_name(#[trigger] rest[j]),
            ) by {
                assert(rest[i] == s[i + 1]);
                assert(rest[j] == s[j + 1]);
            }
        }
        lemma_position::<T>(rest, name);
        let q = position::<T>(rest, name);
        assert forall|k: int| 0 <= k < p implies lex_less(T::spec_name(#[trigger] s[k]), name) by {
            if k > 0 {
                assert(s[k] == rest[k - 1]);
            }
        }
        assert forall|k: int| p <= k < s.len() implies !lex_less(
            T::spec_name(#[trigger] s[k]),
            name,
        ) by {
            assert(s[k] == rest[k - 1]);
        }
        lemma_lex_irreflexive(name);
        if has_name::<T>(s, name) {
            let i = choose|i: int| 0 <= i < s.len() && T::spec_name(#[trigger] s[i]) == name;
            assert(i > 0);
            assert(rest[i - 1] == s[i]);
            assert(has_name::<T>(rest, name));
        }
        if q < rest.len() && T::spec_name(rest[q]) == name {
            assert(s[q + 1] == rest[q]);
        }
        if p < s.len() {
            assert(s[p] == rest[p - 1]);
        }
    }
}

/// Offering an item to a sorted collection leaves it sorted, and the item's
/// name is in it afterwards.
pub proof fn lemma_insert_sorted<T: NameAndSource>(s: Seq<T::V>, v: T::V, replace: bool)
    requires
        names_sorted::<T>(s),
    ensures
        names_sorted::<T>(spec_insert::<T>(s, v, replace)),
        has_name::<T>(spec_insert::<T>(s, v, replace), T::spec_name(v)),
{
    let name = T::spec_name(v);
    let p = position::<T>(s, name);
    let r = spec_insert::<T>(s, v, replace);
    lemma_position::<T>(s, name);
    if p < s.len() && T::spec_name(s[p]) == name {
        if replace {
            assert forall|i: int, j: int| 0 <= i < j < r.len() implies lex_less(
                T::spec_name(#[trigger] r[i]),
                T::spec_name(#[trigger] r[j]),
            ) by {
                assert(T::spec_name(r[i]) == T::spec_name(s[i]));
                assert(T::spec_name(r[j]) == T::spec_name(s[j]));
            }
        }
        assert(T::spec_name(r[p]) == name);
    } else {
        assert forall|k: int| p <= k < s.len() implies lex_less(
            name,
            T::spec_name(#[trigger] s[k]),
        ) by {
            lemma_lex_total(name, T::spec_name(s[p]));
            if k > p {
                lemma_lex_transitive(name, T::spec_name(s[p]), T::spec_name(s[k]));
            }
        }
        assert forall|i: int, j: int| 0 <= i < j < r.len() implies lex_less(
            T::spec_name(#[trigger] r[i]),
            T::spec_name(#[trigger] r[j]),
        ) by {
            if i < p {
                assert(r[i] == s[i]);
            } else if i > p {
                assert(r[i] == s[i - 1]);
            }
            if j < p {
                assert(r[j] == s[j]);
            } else if j > p {
                assert(r[j] == s[j - 1]);
            }
        }
        assert(r[p] == v);
    }
}

/// The place of `name` in a sorted collection is the only one with
/// nothing but earlier names before it and no earlier name at it.
pub proof fn lemma_position_unique<T: NameAndSource>(s: Seq<T::V>, name: Seq<char>, p: int)
    requires
        names_sorted::<T>(s),
        0 <= p <= s.len(),
        forall|k: int| 0 <= k < p ==> lex_less(T::spec_name(#[trigger] s[k]), name),
        p < s.len() ==> !lex_less(T::spec_name(s[p]), name),
    ensures
        position::<T>(s, name) == p,
{
    lemma_position::<T>(s, name);
    let q = position::<T>(s, name);
    if q < p {
        assert(lex_less(T::spec_name(s[q]), name));
    } else if q > p {
        assert(lex_less(T::spec_name(s[p]), name));
    }
}

/// Offering two items with different names gives the same collection in
/// either order, where `a` has the earlier name.
proof fn lemma_insert_commutes_ordered<T: NameAndSource>(
    s: Seq<T::V>,
    a: T::V,
    b: T::V,
    ra: bool,
    rb: bool,
)
    requires
        names_sorted::<T>(s),
        lex_less(T::spec_name(a), T::spec_name(b)),
    ensures
        spec_insert::<T>(spec_insert::<T>(s, a, ra), b, rb) == spec_insert::<T>(
            spec_insert::<T>(s, b, rb),
            a,
            ra,
        ),
{
    let na = T::spec_name(a);
    let nb = T::spec_name(b);
    let pa = position::<T>(s, na);
    let pb = position::<T>(s, nb);
    lemma_position::<T>(s, na);
    lemma_position::<T>(s, nb);
    lemma_lex_total(na, nb);
    lemma_lex_irreflexive(na);
    lemma_lex_irreflexive(nb);
    // everything before the place of `a` comes before `b` too
    assert forall|k: int| 0 <= k < pa implies lex_less(T::spec_name(#[trigger] s[k]), nb) by {
        lemma_lex_transitive(T::spec_name(s[k]), na, nb);
    }
    assert(pa <= pb) by {
        if pb < pa {
            assert(lex_less(T::spec_name(s[pb]), nb));
        }
    }
    // nothing from the place of `b` on comes before `a`
    assert forall|k: int| pb <= k < s.len() implies !lex_less(
        T::spec_name(#[trigger] s[k]),
        na,
    ) by {
        if lex_less(T::spec_name(s[k]), na) {
            lemma_lex_transitive(T::spec_name(s[k]), na, nb);
        }
    }
    let has_a = pa < s.len() && T::spec_name(s[pa]) == na;
    let has_b = pb < s.len() && T::spec_name(s[pb]) == nb;
    if has_a {
        assert(pa < pb);
    }
    let s1 = spec_insert::<T>(s, a, ra);
    let s2 = spec_insert::<T>(s, b, rb);
    lemma_insert_sorted::<T>(s, a, ra);
    lemma_insert_sorted::<T>(s, b, rb);
    // the place of `b` after `a` was offered
    let pb1 = if has_a {
        pb
    } else {
        pb + 1
    };
    assert forall|k: int| 0 <= k < pb1 implies lex_less(T::spec_name(#[trigger] s1[k]), nb) by {
        if has_a {
            assert(T::spec_name(s1[k]) == T::spec_name(s[k]));
        } else if k < pa {
            assert(s1[k] == s[k]);
        } else if k > pa {
            assert(s1[k] == s[k - 1]);
        } else {
            assert(s1[k] == a);
        }
    }
    if pb1 < s1.len() {
        if has_a {
            assert(T::spec_name(s1[pb1]) == T::spec_name(s[pb]));
        } else {
            assert(s1[pb1] == s[pb]);
        }
    }
    lemma_position_unique::<T>(s1, nb, pb1);
    // the place of `a` after `b` was offered
    assert forall|k: int| 0 <= k < pa implies lex_less(T::spec_name(#[trigger] s2[k]), na) by {
        assert(s2[k] == s[k]);
    }
    if pa < s2.len() {
        if pa < pb {
            assert(s2[pa] == s[pa]);
        } else if has_b {
            assert(T::spec_name(s2[pa]) == nb);
        } else {
            assert(s2[pa] == b);
        }
    }
    lemma_position_unique::<T>(s2, na, pa);
    let left = spec_insert::<T>(s1, b, rb);
    let right = spec_insert::<T>(s2, a, ra);
    assert(left =~= right);
}

/// The order in which items with different names are offered does not
/// show: either order gives the same collection.
pub proof fn lemma_insert_commutes<T: NameAndSource>(
    s: Seq<T::V>,
    a: T::V,
    b: T::V,
    ra: bool,
    rb: bool,
)
    requires
        names_sorted::<T>(s),
        T::spec_name(a) != T::spec_name(b),
    ensures
        spec_insert::<T>(spec_insert::<T>(s, a, ra), b, rb) == spec_insert::<T>(
            spec_insert::<T>(s, b, rb),
            a,
            ra,
        ),
{
    lemma_lex_total(T::spec_name(a), T::spec_name(b));
    if lex_less(T::spec_name(a), T::spec_name(b)) {
        lemma_insert_commutes_ordered::<T>(s, a, b, ra, rb);
    } else {
        lemma_insert_commutes_ordered::<T>(s, b, a, rb, ra);
    }
}

/// Offering an item a second time changes nothing.
pub proof fn lemma_insert_idempotent<T: NameAndSource>(s: Seq<T::V>, v: T::V, replace: bool)
    requires
        names_sorted::<T>(s),
    ensures
        spec_insert::<T>(spec_insert::<T>(s, v, replace), v, replace) == spec_insert::<T>(
            s,
            v,
            replace,
        ),
{
    let name = T::spec_name(v);
    let p = position::<T>(s, name);
    let r = spec_insert::<T>(s, v, replace);
    lemma_position::<T>(s, name);
    lemma_insert_sorted::<T>(s, v, replace);
    lemma_lex_irreflexive(name);
    assert forall|k: int| 0 <= k < p implies lex_less(T::spec_name(#[trigger] r[k]), name) by {
        if p < s.len() && T::spec_name(s[p]) == name {
            assert(T::spec_name(r[k]) == T::spec_name(s[k]));
        } else {
            assert(r[k] == s[k]);
        }
    }
    assert(T::spec_name(r[p]) == name);
    lemma_position_unique::<T>(r, name, p);
    assert(spec_insert::<T>(r, v, replace) =~= r);
}

/// Of two items with one name, the one that is offered with `replace`
/// stays, whether it is offered first or second.
pub proof fn lemma_replacing_item_stays<T: NameAndSource>(s: Seq<T::V>, kept: T::V, other: T::V)
    requires
        names_sorted::<T>(s),
        T::spec_name(kept) == T::spec_name(other),
    ensures
        spec_insert::<T>(spec_insert::<T>(s, other, false), kept, true) == spec_insert::<T>(
            s,
            kept,
            true,
        ),
        spec_insert::<T>(spec_insert::<T>(s, kept, true), other, false) == spec_insert::<T>(
            s,
            kept,
            true,
        ),
{
    let name = T::spec_name(kept);
    let p = position::<T>(s, name);
    lemma_position::<T>(s, name);
    lemma_lex_irreflexive(name);
    let first = spec_insert::<T>(s, other, false);
    let second = spec_insert::<T>(s, kept, true);
    lemma_insert_sorted::<T>(s, other, false);
    lemma_insert_sorted::<T>(s, kept, true);
    assert forall|k: int| 0 <= k < p implies lex_less(T::spec_name(#[trigger] first[k]), name) by {
        assert(first[k] == s[k]);
    }
    assert forall|k: int| 0 <= k < p implies lex_less(T::spec_name(#[trigger] second[k]), name) by {
        assert(T::spec_name(second[k]) == T::spec_name(s[k]));
    }
    assert(T::spec_name(first[p]) == name);
    assert(T::spec_name(second[p]) == name);
    lemma_position_unique::<T>(first, name, p);
    lemma_position_unique::<T>(second, name, p);
    assert(spec_insert::<T>(first, kept, true) =~= second);
    assert(spec_insert::<T>(second, other, false) =~= second);
}

/// A collection of descriptors, ordered by name and without duplicates.
pub struct NameSet<T: NameAndSource> {
    items: Vec<T>,
}

impl<T: NameAndSource> View for NameSet<T> {
    type V = Seq<T::V>;

    closed spec fn view(&self) -> Seq<T::V> {
        Seq::new(self.items@.len(), |i: int| self.items@[i]@)
    }
}

impl<T: NameAndSource> NameSet<T> {
    #[verifier::type_invariant]
    spec fn well_formed(&self) -> bool {
        names_sorted::<T>(self@)
    }

    /// The empty collection.
    pub fn new() -> (r: NameSet<T>)
        ensures
            r@ == Seq::<T::V>::empty(),
    {
        let r = NameSet { items: Vec::new() };
        assert(r@ =~= Seq::<T::V>::empty());
        r
    }

    /// The names are in strictly ascending order. This holds of every
    /// collection; the call costs nothing.
    pub fn names_are_sorted(&self)
        ensures
            names_sorted::<T>(self@),
    {
        proof {
            use_type_invariant(self);
        }
    }

    /// The number of items.
    pub fn len(&self) -> (n: usize)
        ensures
            n == self@.len(),
    {
        self.items.len()
    }

    /// Whether no placeholder is left in the source of any of the items.
    pub fn is_replaced(&self, limb: Limb32Or64, templates: &Templates) -> (b: bool)
        ensures
            b == all_replaced::<T>(self@, limb, templates@),
    {
        let n: usize = self.items.len();
        let mut i: usize = 0;
        while i < n
            invariant
                0 <= i <= n,
                n == self.items@.len(),
                n == self@.len(),
                forall|k: int|
                    0 <= k < i ==> !spec_has_placeholder(
                        T::spec_source(#[trigger] self@[k], limb, templates@),
                    ),
            decreases n - i,
        {
            let text: String = self.items[i].source(limb, templates);
            if has_placeholder(text.as_str()) {
                assert(self@[i as int] == self.items@[i as int]@);
                return false;
            }
            i = i + 1;
        }
        true
    }

    /// Offers `item` to the collection. Where no item goes by its name, it
    /// takes its place in the order of names. Where one does, that one
    /// stays, unless `replace` asks for `item` to take its place.
    pub fn insert(self, item: T, replace: bool) -> (r: NameSet<T>)
        ensures
            r@ == spec_insert::<T>(self@, item@, replace),
            names_sorted::<T>(self@),
            names_sorted::<T>(r@),
    {
        proof {
            use_type_invariant(&self);
            lemma_insert_sorted::<T>(self@, item@, replace);
        }
        let ghost before = self@;
        let mut items: Vec<T> = self.items;
        let name: String = item.name();
        let n: usize = items.len();
        let mut p: usize = 0;
        let mut stop: bool = false;
        assert(before.skip(0) =~= before);
        while p < n && !stop
            invariant
                0 <= p <= n,
                n == items@.len(),
                before.len() == n,
                forall|k: int| 0 <= k < n ==> before[k] == (#[trigger] items@[k])@,
                name@ == T::spec_name(item@),
                position::<T>(before, name@) == p + position::<T>(before.skip(p as int), name@),
                stop ==> p < n && !lex_less(T::spec_name(before[p as int]), name@),
            decreases n - p + (if stop { 0int } else { 1int }),
        {
            let other: String = items[p].name();
            proof {
                assert(before.skip(p as int)[0] == before[p as int]);
                assert(before.skip(p as int).drop_first() =~= before.skip(p + 1));
            }
            if less(other.as_str(), name.as_str()) {
                p = p + 1;
            } else {
                stop = true;
            }
        }
        assert(position::<T>(before, name@) == p) by {
            if p < n {
                assert(before.skip(p as int)[0] == before[p as int]);
            } else {
                assert(before.skip(p as int).len() == 0);
            }
        }
        let same: bool = if p < n {
            let other: String = items[p].name();
            other == name
        } else {
            false
        };
        if same {
            if replace {
                items.set(p, item);
            }
        } else {
            items.insert(p, item);
        }
        proof {
            let after = Seq::new(items@.len(), |i: int| items@[i]@);
            assert(after =~= spec_insert::<T>(before, item@, replace));
        }
        NameSet { items }
    }

    /// Appends the section that the items make up to `out`: their sources
    /// in the order of their names, each followed by a line break, then two
    /// line breaks.
    pub fn write_field(&self, out: &mut String, limb: Limb32Or64, templates: &Templates)
        ensures
            final(out)@ == old(out)@ + spec_write_field::<T>(self@, limb, templates@),
    {
        let ghost head = out@;
        let n: usize = self.items.len();
        let mut i: usize = 0;
        assert(self@.take(0) =~= Seq::<T::V>::empty());
        assert(out@ =~= head + spec_sources::<T>(self@.take(0), limb, templates@));
        while i < n
            invariant
                0 <= i <= n,
                n == self.items@.len(),
                n == self@.len(),
                out@ == head + spec_sources::<T>(self@.take(i as int), limb, templates@),
            decreases n - i,
        {
            let text: String = self.items[i].source(limb, templates);
            proof {
                assert(self@.take(i + 1).drop_last() =~= self@.take(i as int));
                assert(self@.take(i + 1).last() == self.items@[i as int]@);
            }
            out.append(text.as_str());
            out.append("\n");
            i = i + 1;
            assert(out@ =~= head + spec_sources::<T>(self@.take(i as int), limb, templates@));
        }
        assert(self@.take(n as int) =~= self@);
        out.append("\n\n");
        assert(out@ =~= head + spec_write_field::<T>(self@, limb, templates@));
    }
}

} // verus!
