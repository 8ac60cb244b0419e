//! The laws the schema compiler and encoder obey, stated and proved over
//! the same specifications the executable contracts use.

use vstd::prelude::*;
use vstd::multiset::Multiset;
use vstd::seq_lib::lemma_multiset_commutative;
use crate::builder::{
    first_group_order_problem, first_order_problem, group_contribs, group_names,
    build_pk, build_sk, dedup_first, find_nk_decl, has_order_problem, insert_sorted,
    nk_contribs, nk_def, nk_defs, ord_key, order_offenders, pk_contribs, segment_of,
    segments_of, sk_contribs, sort_contribs, spec_build, count_order,
};
use crate::decl::{FieldDeclV, NkContribV, NkStructDeclV};
use crate::encode::{attr_value, composite_value, map_of};
use crate::keys::{AttributeValueV, KeyDefV};
use crate::decl::{ContribV, EntityTypeDeclV};
use crate::encode::{join, spec_encode};
use crate::encode::NamedValueV;
use crate::keys::SchemaV2V;

verus! {

//
// ─── SOLE CONTRIBUTOR ───────────────────────────────────────────────────────
//
/// With exactly one partition-key contributing field, and no explicit order
/// on it, a successfully built schema gives the partition key exactly one
/// segment: that field's.
pub proof fn lemma_single_pk_contributor(d: EntityTypeDeclV)
    requires
        pk_contribs(d.fields).len() == 1,
        pk_contribs(d.fields)[0].order is None,
        spec_build(d) is Ok,
    ensures
        spec_build(d)->Ok_0.partition_key_def.attribute_value.segments == seq![
            segment_of(pk_contribs(d.fields)[0]),
        ],
        d.pk matches Some(p) ==> spec_build(d)->Ok_0.partition_key_def.attribute_name == p.name,
        d.pk is None ==> {
            &&& spec_build(d)->Ok_0.partition_key_def.attribute_name == pk_contribs(
                d.fields,
            )[0].field_name
            &&& spec_build(d)->Ok_0.partition_key_def.attribute_value.prefix is None
            &&& spec_build(d)->Ok_0.partition_key_def.attribute_value.suffix is None
        },
{
    let cs = pk_contribs(d.fields);
    assert(cs.map_values(|c: ContribV| segment_of(c)) =~= seq![segment_of(cs[0])]);
}

//
// ─── MISSING ORDER ──────────────────────────────────────────────────────────
//
/// Whether `cs` is the contribution list of one of the declaration's keys
/// or groups: the partition key's, the sort key's, or a named non-key
/// group's.
pub open spec fn is_key_contribs(d: EntityTypeDeclV, cs: Seq<ContribV>) -> bool {
    ||| cs == pk_contribs(d.fields)
    ||| cs == sk_contribs(d.fields)
    ||| exists|g: Seq<char>|
        group_names(d).contains(g) && cs == group_contribs(nk_contribs(d.fields), g)
}

/// A contribution list with an unordered member among two or more has an
/// order problem.
proof fn lemma_unordered_member_is_problem(cs: Seq<ContribV>, i: int)
    requires
        cs.len() >= 2,
        0 <= i < cs.len(),
        cs[i].order is None,
    ensures
        has_order_problem(cs),
{
    let pred = |c: ContribV| c.order is None || count_order(cs, c.order->0) >= 2;
    cs.filter_lemma(pred);
    assert(pred(cs[i]));
    assert(cs.filter(pred).contains(cs[i]));
}

/// The group scan reports a missing order whenever one of the scanned
/// groups has an order problem.
proof fn lemma_scan_finds_problem(d: EntityTypeDeclV, names: Seq<Seq<char>>, g: Seq<char>)
    requires
        names.contains(g),
        has_order_problem(group_contribs(nk_contribs(d.fields), g)),
    ensures
        first_group_order_problem(d, names) matches Some(e) && e is MissingOrder,
    decreases names.len(),
{
    assert(names.len() > 0);
    if has_order_problem(group_contribs(nk_contribs(d.fields), names[0])) {
    } else {
        assert(names[0] != g);
        let i = choose|i: int| 0 <= i < names.len() && names[i] == g;
        assert(names.drop_first()[i - 1] == g);
        assert(names.drop_first().contains(g));
        lemma_scan_finds_problem(d, names.drop_first(), g);
    }
}

/// Where two or more fields contribute to one key or group and at least
/// one of them carries no explicit order, the build is rejected with a
/// missing-order error.
pub proof fn lemma_missing_order_rejected(d: EntityTypeDeclV, cs: Seq<ContribV>, i: int)
    requires
        is_key_contribs(d, cs),
        cs.len() >= 2,
        0 <= i < cs.len(),
        cs[i].order is None,
    ensures
        spec_build(d) matches Err(e) && e is MissingOrder,
{
    lemma_unordered_member_is_problem(cs, i);
    if has_order_problem(pk_contribs(d.fields)) {
    } else if has_order_problem(sk_contribs(d.fields)) {
    } else {
        let g = choose|g: Seq<char>|
            group_names(d).contains(g) && cs == group_contribs(nk_contribs(d.fields), g);
        lemma_scan_finds_problem(d, group_names(d), g);
    }
    assert(first_order_problem(d) matches Some(e) && e is MissingOrder);
}

//
// ─── STATIC SEGMENT CONFLICT ────────────────────────────────────────────────
//
/// An element of a filtered sequence is an element of the original.
proof fn lemma_filter_elem<A>(s: Seq<A>, p: spec_fn(A) -> bool, i: int)
    requires
        0 <= i < s.filter(p).len(),
    ensures
        s.contains(s.filter(p)[i]),
    decreases s.len(),
{
    reveal_with_fuel(Seq::filter, 2);
    if s.len() > 0 {
        let sub = s.drop_last();
        if i < sub.filter(p).len() {
            lemma_filter_elem(sub, p, i);
            let k = choose|k: int| 0 <= k < sub.len() && sub[k] == sub.filter(p)[i];
            assert(s[k] == sub.filter(p)[i]);
        } else {
            assert(p(s.last()));
            assert(s.filter(p)[i] == s.last());
            assert(s.contains(s.last()));
        }
    }
}

/// Group resolution fails only with a static-segment conflict; a name list
/// containing a failing group is rejected with one.
proof fn lemma_nk_defs_conflict(d: EntityTypeDeclV, names: Seq<Seq<char>>, g: Seq<char>)
    requires
        names.contains(g),
        nk_def(d, g) is Err,
    ensures
        nk_defs(d, names) matches Err(e) && e is StaticSegmentConflict,
    decreases names.len(),
{
    assert(names.len() > 0);
    if nk_def(d, names[0]) is Err {
        assert(nk_def(d, names[0])->Err_0 is StaticSegmentConflict);
    } else {
        assert(names[0] != g);
        let i = choose|i: int| 0 <= i < names.len() && names[i] == g;
        assert(names.drop_first()[i - 1] == g);
        assert(names.drop_first().contains(g));
        lemma_nk_defs_conflict(d, names.drop_first(), g);
    }
}

/// Once order complaints are past and both keys resolve, any field
/// contribution aimed at a group declared static at the struct level
/// rejects the build with a static-segment conflict.
pub proof fn lemma_static_group_conflict(d: EntityTypeDeclV, g: Seq<char>)
    requires
        find_nk_decl(d.nks, g) matches Some(dd) && dd.static_value is Some,
        group_contribs(nk_contribs(d.fields), g).len() > 0,
        first_order_problem(d) is None,
        build_pk(d) is Ok,
        build_sk(d) is Ok,
    ensures
        spec_build(d) matches Err(e) && e is StaticSegmentConflict,
{
    let ncs = nk_contribs(d.fields);
    let pred = |c: NkContribV| c.group_name == g;
    assert(group_contribs(ncs, g).len() == ncs.filter(pred).len());
    lemma_filter_elem(ncs, pred, 0);
    ncs.filter_lemma(pred);
    let x = ncs.filter(pred)[0];
    assert(pred(x));
    assert(ncs.contains(x));
    let i = choose|i: int| 0 <= i < ncs.len() && ncs[i] == x;
    let base = d.nks.map_values(|n: NkStructDeclV| n.name);
    let targets = ncs.map_values(|c: NkContribV| c.group_name);
    assert(targets[i] == g);
    assert((base + targets)[base.len() + i] == g);
    assert((base + targets).contains(g));
    lemma_dedup_first_props(base + targets);
    assert(group_names(d).contains(g));
    assert(nk_def(d, g) is Err);
    lemma_nk_defs_conflict(d, group_names(d), g);
}

//
// ─── DETERMINISM OF ENCODING ────────────────────────────────────────────────
//
/// Encoding is a function of the schema and the instance alone: any two
/// results that meet the encoder's contract for one schema and instance
/// are identical, so repeated encodings agree byte for byte.
pub proof fn lemma_encode_deterministic(
    s: SchemaV2V,
    inst: Seq<NamedValueV>,
    r1: Seq<NamedValueV>,
    r2: Seq<NamedValueV>,
)
    requires
        r1 == spec_encode(s, inst),
        r2 == spec_encode(s, inst),
    ensures
        r1 == r2,
{
}

//
// ─── SPLITTING RECOVERS THE JOINED PARTS ────────────────────────────────────
//
/// Splits a string at every occurrence of the delimiter; the result always
/// has at least one part, and splitting the empty string gives one empty
/// part.
pub open spec fn split(s: Seq<char>, d: char) -> Seq<Seq<char>>
    decreases s.len(),
{
    if s.len() == 0 {
        seq![Seq::empty()]
    } else {
        let rest = split(s.drop_first(), d);
        if s[0] == d {
            seq![Seq::<char>::empty()] + rest
        } else {
            seq![seq![s[0]] + rest[0]] + rest.drop_first()
        }
    }
}

/// Splitting yields at least one part.
proof fn lemma_split_len(s: Seq<char>, d: char)
    ensures
        split(s, d).len() >= 1,
    decreases s.len(),
{
    if s.len() > 0 {
        lemma_split_len(s.drop_first(), d);
    }
}

/// A string free of the delimiter splits into itself alone.
proof fn lemma_split_no_delim(p: Seq<char>, d: char)
    requires
        !p.contains(d),
    ensures
        split(p, d) == seq![p],
    decreases p.len(),
{
    if p.len() == 0 {
        assert(split(p, d) =~~= seq![p]);
    } else {
        assert(p[0] != d);
        assert(forall|k: int| 0 <= k < p.drop_first().len() ==> p.drop_first()[k] == p[k + 1]);
        assert(!p.drop_first().contains(d));
        lemma_split_no_delim(p.drop_first(), d);
        lemma_split_len(p.drop_first(), d);
        assert(split(p, d) =~~= seq![seq![p[0]] + p.drop_first()]);
        assert(seq![p[0]] + p.drop_first() =~= p);
        assert(split(p, d) =~~= seq![p]);
    }
}

/// Splitting a delimiter-free part, the delimiter, and a tail peels off
/// exactly that part.
proof fn lemma_split_peel(p: Seq<char>, t: Seq<char>, d: char)
    requires
        !p.contains(d),
    ensures
        split(p + seq![d] + t, d) == seq![p] + split(t, d),
    decreases p.len(),
{
    let s = p + seq![d] + t;
    if p.len() == 0 {
        assert(s[0] == d);
        assert(s.drop_first() =~= t);
        assert(split(s, d) =~~= seq![p] + split(t, d));
    } else {
        assert(s[0] == p[0]);
        assert(p[0] != d);
        assert(forall|k: int| 0 <= k < p.drop_first().len() ==> p.drop_first()[k] == p[k + 1]);
        assert(!p.drop_first().contains(d));
        assert(s.drop_first() =~= p.drop_first() + seq![d] + t);
        lemma_split_peel(p.drop_first(), t, d);
        lemma_split_len(t, d);
        let rest = split(s.drop_first(), d);
        assert(rest == seq![p.drop_first()] + split(t, d));
        assert(rest[0] == p.drop_first());
        assert(rest.drop_first() =~= split(t, d));
        assert(seq![s[0]] + rest[0] =~= p);
        assert(split(s, d) =~~= seq![p] + split(t, d));
    }
}

/// Splitting the joined parts by the delimiter recovers the original
/// ordered parts, as long as no part contains the delimiter itself.
pub proof fn lemma_split_join(parts: Seq<Seq<char>>, d: char)
    requires
        parts.len() >= 1,
        forall|i: int| 0 <= i < parts.len() ==> !(#[trigger] parts[i]).contains(d),
    ensures
        split(join(parts, d), d) == parts,
    decreases parts.len(),
{
    if parts.len() == 1 {
        lemma_split_no_delim(parts[0], d);
        assert(split(join(parts, d), d) =~~= parts);
    } else {
        lemma_split_peel(parts[0], join(parts.drop_first(), d), d);
        lemma_split_join(parts.drop_first(), d);
        assert(split(join(parts, d), d) =~~= parts);
    }
}

//
// ─── MULTISET FACTS ─────────────────────────────────────────────────────────
//
/// Filtering decomposes around one index: the elements before it, the
/// element itself when it satisfies the predicate, the elements after it.
proof fn lemma_filter_decompose<A>(s: Seq<A>, i: int, p: spec_fn(A) -> bool)
    requires
        0 <= i < s.len(),
    ensures
        s.filter(p) == s.take(i).filter(p) + (if p(s[i]) {
            seq![s[i]]
        } else {
            Seq::<A>::empty()
        }) + s.skip(i + 1).filter(p),
        s.remove(i).filter(p) == s.take(i).filter(p) + s.skip(i + 1).filter(p),
{
    let a = s.take(i);
    let b = s.skip(i + 1);
    let mid = seq![s[i]];
    assert(s =~= (a + mid) + b);
    Seq::filter_distributes_over_add(a + mid, b, p);
    Seq::filter_distributes_over_add(a, mid, p);
    reveal_with_fuel(Seq::filter, 2);
    assert(mid.drop_last() =~= Seq::<A>::empty());
    assert(mid.filter(p) == if p(s[i]) {
        mid
    } else {
        Seq::<A>::empty()
    });
    assert(s.filter(p) =~= a.filter(p) + (if p(s[i]) {
        mid
    } else {
        Seq::<A>::empty()
    }) + b.filter(p));
    assert(s.remove(i) =~= a + b);
    Seq::filter_distributes_over_add(a, b, p);
}

/// Two sequences with equal multisets filter to equal multisets.
proof fn lemma_filter_multiset<A>(s1: Seq<A>, s2: Seq<A>, p: spec_fn(A) -> bool)
    requires
        s1.to_multiset() == s2.to_multiset(),
    ensures
        s1.filter(p).to_multiset() == s2.filter(p).to_multiset(),
    decreases s1.len(),
{
    broadcast use vstd::seq_lib::group_to_multiset_ensures;
    broadcast use vstd::multiset::group_multiset_axioms;

    if s1.len() == 0 {
        assert(s1.to_multiset().len() == s1.len());
        assert(s2.to_multiset().len() == s2.len());
        assert(s2.len() == 0);
        assert(s1.filter(p).to_multiset() =~= s2.filter(p).to_multiset());
    } else {
        let x = s1[0];
        assert(s1.contains(x));
        assert(s1.to_multiset().count(x) > 0);
        assert(s2.to_multiset().count(x) > 0);
        assert(s2.contains(x));
        let i = choose|i: int| 0 <= i < s2.len() && s2[i] == x;
        assert(s1.drop_first() =~= s1.remove(0));
        assert(s1.remove(0).to_multiset() == s1.to_multiset().remove(x));
        assert(s2.remove(i).to_multiset() == s2.to_multiset().remove(x));
        lemma_filter_multiset(s1.remove(0), s2.remove(i), p);
        lemma_filter_decompose(s1, 0, p);
        lemma_filter_decompose(s2, i, p);
        let m1 = s1.remove(0).filter(p);
        let m2 = s2.remove(i).filter(p);
        if p(x) {
            lemma_multiset_commutative(s1.take(0).filter(p), seq![x]);
            lemma_multiset_commutative(
                s1.take(0).filter(p) + seq![x],
                s1.skip(1).filter(p),
            );
            lemma_multiset_commutative(s1.take(0).filter(p), s1.skip(1).filter(p));
            lemma_multiset_commutative(s2.take(i).filter(p), seq![x]);
            lemma_multiset_commutative(
                s2.take(i).filter(p) + seq![x],
                s2.skip(i + 1).filter(p),
            );
            lemma_multiset_commutative(s2.take(i).filter(p), s2.skip(i + 1).filter(p));
            assert(seq![x].to_multiset() =~= Multiset::empty().insert(x));
            assert(s1.filter(p).to_multiset() =~= m1.to_multiset().insert(x));
            assert(s2.filter(p).to_multiset() =~= m2.to_multiset().insert(x));
        } else {
            assert(s1.filter(p) == m1);
            assert(s2.filter(p) == m2);
        }
    }
}

/// Two sequences with equal multisets map to equal multisets.
proof fn lemma_map_multiset<A, B>(s1: Seq<A>, s2: Seq<A>, m: spec_fn(A) -> B)
    requires
        s1.to_multiset() == s2.to_multiset(),
    ensures
        s1.map_values(m).to_multiset() == s2.map_values(m).to_multiset(),
    decreases s1.len(),
{
    broadcast use vstd::seq_lib::group_to_multiset_ensures;
    broadcast use vstd::multiset::group_multiset_axioms;

    if s1.len() == 0 {
        assert(s1.to_multiset().len() == s1.len());
        assert(s2.to_multiset().len() == s2.len());
        assert(s2.len() == 0);
        assert(s1.map_values(m).to_multiset() =~= s2.map_values(m).to_multiset());
    } else {
        let x = s1[0];
        assert(s1.contains(x));
        assert(s1.to_multiset().count(x) > 0);
        assert(s2.to_multiset().count(x) > 0);
        assert(s2.contains(x));
        let i = choose|i: int| 0 <= i < s2.len() && s2[i] == x;
        assert(s1.drop_first() =~= s1.remove(0));
        assert(s1.remove(0).to_multiset() == s1.to_multiset().remove(x));
        assert(s2.remove(i).to_multiset() == s2.to_multiset().remove(x));
        lemma_map_multiset(s1.remove(0), s2.remove(i), m);
        assert(s1.remove(0).map_values(m) =~= s1.map_values(m).remove(0));
        assert(s2.remove(i).map_values(m) =~= s2.map_values(m).remove(i));
        assert(s1.map_values(m).remove(0).to_multiset() == s1.map_values(m).to_multiset().remove(
            m(x),
        ));
        assert(s2.map_values(m).remove(i).to_multiset() == s2.map_values(m).to_multiset().remove(
            m(x),
        ));
        assert(s1.map_values(m).to_multiset().contains(m(x)));
        assert(s2.map_values(m).to_multiset().contains(m(x)));
        assert(s1.map_values(m).to_multiset() =~= s1.map_values(m).to_multiset().remove(
            m(x),
        ).insert(m(x)));
        assert(s2.map_values(m).to_multiset() =~= s2.map_values(m).to_multiset().remove(
            m(x),
        ).insert(m(x)));
    }
}

/// Flattening loses one inner sequence's elements when that sequence is
/// removed.
proof fn lemma_flatten_remove<A>(s: Seq<Seq<A>>, i: int)
    requires
        0 <= i < s.len(),
    ensures
        s.flatten().to_multiset() == s.remove(i).flatten().to_multiset().add(s[i].to_multiset()),
{
    broadcast use vstd::multiset::group_multiset_axioms;

    let a = s.take(i);
    let b = s.skip(i + 1);
    let mid = seq![s[i]];
    assert(s =~= (a + mid) + b);
    vstd::seq_lib::lemma_flatten_concat(a + mid, b);
    vstd::seq_lib::lemma_flatten_concat(a, mid);
    mid.lemma_flatten_one_element();
    assert(mid.flatten() == s[i]);
    assert(s.flatten() =~= a.flatten() + s[i] + b.flatten());
    assert(s.remove(i) =~= a + b);
    vstd::seq_lib::lemma_flatten_concat(a, b);
    assert(s.remove(i).flatten() =~= a.flatten() + b.flatten());
    lemma_multiset_commutative(a.flatten() + s[i], b.flatten());
    lemma_multiset_commutative(a.flatten(), s[i]);
    lemma_multiset_commutative(a.flatten(), b.flatten());
    assert(s.flatten().to_multiset() =~= s.remove(i).flatten().to_multiset().add(
        s[i].to_multiset(),
    ));
}

/// Two sequences of sequences with equal multisets flatten to equal
/// multisets.
proof fn lemma_flatten_multiset<A>(s1: Seq<Seq<A>>, s2: Seq<Seq<A>>)
    requires
        s1.to_multiset() == s2.to_multiset(),
    ensures
        s1.flatten().to_multiset() == s2.flatten().to_multiset(),
    decreases s1.len(),
{
    broadcast use vstd::seq_lib::group_to_multiset_ensures;
    broadcast use vstd::multiset::group_multiset_axioms;

    if s1.len() == 0 {
        assert(s1.to_multiset().len() == s1.len());
        assert(s2.to_multiset().len() == s2.len());
        assert(s2.len() == 0);
        assert(s1.flatten().to_multiset() =~= s2.flatten().to_multiset());
    } else {
        let x = s1[0];
        assert(s1.contains(x));
        assert(s1.to_multiset().count(x) > 0);
        assert(s2.to_multiset().count(x) > 0);
        assert(s2.contains(x));
        let i = choose|i: int| 0 <= i < s2.len() && s2[i] == x;
        assert(s1.drop_first() =~= s1.remove(0));
        assert(s1.remove(0).to_multiset() == s1.to_multiset().remove(x));
        assert(s2.remove(i).to_multiset() == s2.to_multiset().remove(x));
        lemma_flatten_multiset(s1.remove(0), s2.remove(i));
        lemma_flatten_remove(s1, 0);
        lemma_flatten_remove(s2, i);
    }
}

//
// ─── SORTING BY DISTINCT ORDER KEYS ─────────────────────────────────────────
//
/// Nondecreasing by order key.
pub open spec fn sorted_contribs(s: Seq<ContribV>) -> bool {
    forall|i: int, j: int|
        0 <= i < j < s.len() ==> ord_key(#[trigger] s[i]) <= ord_key(#[trigger] s[j])
}

/// Pairwise distinct order keys.
pub open spec fn distinct_order_keys(s: Seq<ContribV>) -> bool {
    forall|i: int, j: int|
        0 <= i < j < s.len() ==> ord_key(#[trigger] s[i]) != ord_key(#[trigger] s[j])
}

/// Inserting into a sorted sequence keeps it sorted, adds the element to
/// the multiset, and grows the length by one.
proof fn lemma_insert_sorted_props(x: ContribV, s: Seq<ContribV>)
    requires
        sorted_contribs(s),
    ensures
        sorted_contribs(insert_sorted(x, s)),
        insert_sorted(x, s).to_multiset() == s.to_multiset().insert(x),
        insert_sorted(x, s).len() == s.len() + 1,
    decreases s.len(),
{
    broadcast use vstd::seq_lib::group_to_multiset_ensures;
    broadcast use vstd::multiset::group_multiset_axioms;

    if s.len() == 0 {
        assert(seq![x] =~= Seq::<ContribV>::empty().push(x));
        assert(insert_sorted(x, s).to_multiset() =~= s.to_multiset().insert(x));
    } else if ord_key(x) < ord_key(s[0]) {
        let r = seq![x] + s;
        assert(forall|k: int| 1 <= k < r.len() ==> r[k] == s[k - 1]);
        assert(sorted_contribs(r));
        lemma_multiset_commutative(seq![x], s);
        assert(seq![x].to_multiset() =~= Multiset::empty().insert(x));
        assert(r.to_multiset() =~= s.to_multiset().insert(x));
    } else {
        let sdf = s.drop_first();
        assert(forall|k: int| 0 <= k < sdf.len() ==> sdf[k] == s[k + 1]);
        assert(sorted_contribs(sdf));
        lemma_insert_sorted_props(x, sdf);
        let t = insert_sorted(x, sdf);
        let r = seq![s[0]] + t;
        assert(insert_sorted(x, s) == r);
        // every element of the inserted tail is x or comes from the tail of
        // `s`, so the head stays minimal
        assert forall|k: int| 1 <= k < r.len() implies ord_key(r[0]) <= ord_key(
            #[trigger] r[k],
        ) by {
            assert(r[k] == t[k - 1]);
            assert(t.contains(t[k - 1]));
            assert(t.to_multiset().count(t[k - 1]) > 0);
            if t[k - 1] == x {
                assert(ord_key(s[0]) <= ord_key(x));
            } else {
                assert(sdf.to_multiset().count(t[k - 1]) > 0);
                assert(sdf.contains(t[k - 1]));
                let m = choose|m: int| 0 <= m < sdf.len() && sdf[m] == t[k - 1];
                assert(ord_key(s[0]) <= ord_key(s[m + 1]));
            }
        }
        assert(forall|k: int| 1 <= k < r.len() ==> r[k] == t[k - 1]);
        assert(sorted_contribs(r));
        lemma_multiset_commutative(seq![s[0]], t);
        lemma_multiset_commutative(seq![s[0]], sdf);
        assert(s =~= seq![s[0]] + sdf);
        assert(r.to_multiset() =~= s.to_multiset().insert(x));
    }
}

/// Sorting yields a sorted permutation.
proof fn lemma_sort_contribs_props(s: Seq<ContribV>)
    ensures
        sorted_contribs(sort_contribs(s)),
        sort_contribs(s).to_multiset() == s.to_multiset(),
        sort_contribs(s).len() == s.len(),
    decreases s.len(),
{
    broadcast use vstd::seq_lib::group_to_multiset_ensures;
    broadcast use vstd::multiset::group_multiset_axioms;

    if s.len() > 0 {
        lemma_sort_contribs_props(s.drop_first());
        lemma_insert_sorted_props(s[0], sort_contribs(s.drop_first()));
        assert(s.drop_first() =~= s.remove(0));
        assert(s.remove(0).to_multiset() == s.to_multiset().remove(s[0]));
        assert(s.to_multiset().count(s[0]) > 0);
        assert(sort_contribs(s).to_multiset() =~= s.to_multiset().remove(s[0]).insert(s[0]));
        assert(s.to_multiset().remove(s[0]).insert(s[0]) =~= s.to_multiset());
    }
}

/// Two sorted sequences with one multiset and pairwise distinct order keys
/// are the same sequence.
proof fn lemma_sorted_unique_by_key(x: Seq<ContribV>, y: Seq<ContribV>)
    requires
        sorted_contribs(x),
        sorted_contribs(y),
        distinct_order_keys(x),
        x.to_multiset() == y.to_multiset(),
    ensures
        x == y,
    decreases x.len(),
{
    broadcast use vstd::seq_lib::group_to_multiset_ensures;
    broadcast use vstd::multiset::group_multiset_axioms;

    assert(x.to_multiset().len() == x.len());
    assert(y.to_multiset().len() == y.len());
    if x.len() == 0 {
        assert(x =~= y);
    } else {
        assert(x.contains(x[0]));
        assert(x.to_multiset().count(x[0]) > 0);
        assert(y.to_multiset().count(x[0]) > 0);
        assert(y.contains(x[0]));
        let j = choose|j: int| 0 <= j < y.len() && y[j] == x[0];
        assert(y.contains(y[0]));
        assert(y.to_multiset().count(y[0]) > 0);
        assert(x.to_multiset().count(y[0]) > 0);
        assert(x.contains(y[0]));
        let i = choose|i: int| 0 <= i < x.len() && x[i] == y[0];
        assert(ord_key(x[0]) <= ord_key(x[i]));
        assert(ord_key(y[0]) <= ord_key(y[j]));
        assert(ord_key(x[0]) == ord_key(x[i]));
        if i > 0 {
            assert(ord_key(x[0]) != ord_key(x[i]));
            assert(false);
        }
        assert(x[0] == y[0]);
        let xr = x.remove(0);
        let yr = y.remove(0);
        assert(xr.to_multiset() == x.to_multiset().remove(x[0]));
        assert(yr.to_multiset() == y.to_multiset().remove(y[0]));
        assert(forall|k: int| 0 <= k < xr.len() ==> xr[k] == x[k + 1]);
        assert(forall|k: int| 0 <= k < yr.len() ==> yr[k] == y[k + 1]);
        assert(sorted_contribs(xr));
        assert(sorted_contribs(yr));
        assert(distinct_order_keys(xr));
        lemma_sorted_unique_by_key(xr, yr);
        assert forall|k: int| 0 <= k < x.len() implies x[k] == y[k] by {
            if k > 0 {
                assert(x[k] == xr[k - 1]);
                assert(y[k] == yr[k - 1]);
            }
        }
        assert(x =~= y);
    }
}

/// Two contributions at distinct positions sharing one explicit order make
/// that order's count at least two.
proof fn lemma_shared_order_counts_twice(cs: Seq<ContribV>, i: int, j: int, o: int)
    requires
        0 <= i < j < cs.len(),
        cs[i].order == Some(o),
        cs[j].order == Some(o),
    ensures
        count_order(cs, o) >= 2,
{
    let pred = |c: ContribV| c.order == Some(o);
    lemma_filter_decompose(cs, i, pred);
    let tail = cs.skip(i + 1);
    assert(tail[j - i - 1] == cs[j]);
    tail.filter_lemma(pred);
    assert(tail.filter(pred).contains(tail[j - i - 1]));
    assert(tail.filter(pred).len() >= 1);
}

/// A list of two or more contributions that raises no order complaint has
/// every order explicit and pairwise distinct.
proof fn lemma_no_problem_distinct(cs: Seq<ContribV>)
    requires
        cs.len() >= 2,
        !has_order_problem(cs),
    ensures
        forall|i: int| 0 <= i < cs.len() ==> (#[trigger] cs[i]).order is Some,
        distinct_order_keys(cs),
{
    let pred = |c: ContribV| c.order is None || count_order(cs, c.order->0) >= 2;
    assert(order_offenders(cs).len() == 0);
    assert(cs.filter(pred).len() == 0);
    cs.filter_lemma(pred);
    assert forall|i: int| 0 <= i < cs.len() implies !pred(#[trigger] cs[i]) by {
        if pred(cs[i]) {
            assert(cs.filter(pred).contains(cs[i]));
        }
    }
    assert forall|i: int, j: int|
        0 <= i < j < cs.len() implies ord_key(#[trigger] cs[i]) != ord_key(
        #[trigger] cs[j],
    ) by {
        if ord_key(cs[i]) == ord_key(cs[j]) {
            let o = cs[i].order->0;
            assert(cs[j].order == Some(o));
            lemma_shared_order_counts_twice(cs, i, j, o);
            assert(pred(cs[i]));
        }
    }
}

/// Distinct order keys carry over to any sequence with the same multiset.
proof fn lemma_distinct_preserved(cs: Seq<ContribV>, t: Seq<ContribV>)
    requires
        cs.len() >= 2,
        !has_order_problem(cs),
        cs.to_multiset() == t.to_multiset(),
    ensures
        distinct_order_keys(t),
        forall|i: int| 0 <= i < t.len() ==> (#[trigger] t[i]).order is Some,
{
    broadcast use vstd::seq_lib::group_to_multiset_ensures;

    lemma_no_problem_distinct(cs);
    assert forall|i: int| 0 <= i < t.len() implies (#[trigger] t[i]).order is Some by {
        assert(t.contains(t[i]));
        assert(t.to_multiset().count(t[i]) > 0);
        assert(cs.to_multiset().count(t[i]) > 0);
        assert(cs.contains(t[i]));
    }
    assert forall|i: int, j: int|
        0 <= i < j < t.len() implies ord_key(#[trigger] t[i]) != ord_key(#[trigger] t[j]) by {
        if ord_key(t[i]) == ord_key(t[j]) {
            let o = t[i].order->0;
            lemma_shared_order_counts_twice(t, i, j, o);
            lemma_filter_multiset(cs, t, |c: ContribV| c.order == Some(o));
            assert(cs.filter(|c: ContribV| c.order == Some(o)).to_multiset().len()
                == cs.filter(|c: ContribV| c.order == Some(o)).len());
            assert(t.filter(|c: ContribV| c.order == Some(o)).to_multiset().len() == t.filter(
                |c: ContribV| c.order == Some(o),
            ).len());
            assert(count_order(cs, o) >= 2);
            assert(t.contains(t[i]));
            assert(t.to_multiset().count(t[i]) > 0);
            assert(cs.to_multiset().count(t[i]) > 0);
            assert(cs.contains(t[i]));
            let k = choose|k: int| 0 <= k < cs.len() && cs[k] == t[i];
            let pred = |c: ContribV| c.order is None || count_order(cs, c.order->0) >= 2;
            assert(pred(cs[k]));
            cs.filter_lemma(pred);
            assert(cs.filter(pred).contains(cs[k]));
            assert(order_offenders(cs).len() > 0);
        }
    }
}

/// Sequences of contributions with one multiset resolve to the same
/// segment list, provided a multi-contributor list raises no order
/// complaint.
proof fn lemma_segments_of_multiset(cs1: Seq<ContribV>, cs2: Seq<ContribV>)
    requires
        cs1.to_multiset() == cs2.to_multiset(),
        cs1.len() >= 2 ==> !has_order_problem(cs1),
    ensures
        segments_of(cs1) == segments_of(cs2),
{
    broadcast use vstd::seq_lib::group_to_multiset_ensures;
    broadcast use vstd::multiset::group_multiset_axioms;

    assert(cs1.to_multiset().len() == cs1.len());
    assert(cs2.to_multiset().len() == cs2.len());
    if cs1.len() == 0 {
        assert(cs1 =~= cs2);
    } else if cs1.len() == 1 {
        assert(cs2.contains(cs2[0]));
        assert(cs2.to_multiset().count(cs2[0]) > 0);
        assert(cs1.to_multiset().count(cs2[0]) > 0);
        assert(cs1.contains(cs2[0]));
        assert(cs1[0] == cs2[0]);
        assert(cs1 =~= cs2);
    } else {
        lemma_sort_contribs_props(cs1);
        lemma_sort_contribs_props(cs2);
        lemma_distinct_preserved(cs1, sort_contribs(cs1));
        lemma_sorted_unique_by_key(sort_contribs(cs1), sort_contribs(cs2));
    }
}

//
// ─── DECLARATION ORDER DOES NOT MATTER ──────────────────────────────────────
//
/// Field lists with one multiset give multiset-equal partition-key
/// contributions.
proof fn lemma_pk_contribs_multiset(f1: Seq<FieldDeclV>, f2: Seq<FieldDeclV>)
    requires
        f1.to_multiset() == f2.to_multiset(),
    ensures
        pk_contribs(f1).to_multiset() == pk_contribs(f2).to_multiset(),
{
    lemma_filter_multiset(f1, f2, |f: FieldDeclV| f.pk is Some);
    lemma_map_multiset(
        f1.filter(|f: FieldDeclV| f.pk is Some),
        f2.filter(|f: FieldDeclV| f.pk is Some),
        |f: FieldDeclV| f.pk->0,
    );
}

/// Field lists with one multiset give multiset-equal sort-key
/// contributions.
proof fn lemma_sk_contribs_multiset(f1: Seq<FieldDeclV>, f2: Seq<FieldDeclV>)
    requires
        f1.to_multiset() == f2.to_multiset(),
    ensures
        sk_contribs(f1).to_multiset() == sk_contribs(f2).to_multiset(),
{
    lemma_filter_multiset(f1, f2, |f: FieldDeclV| f.sk is Some);
    lemma_map_multiset(
        f1.filter(|f: FieldDeclV| f.sk is Some),
        f2.filter(|f: FieldDeclV| f.sk is Some),
        |f: FieldDeclV| f.sk->0,
    );
}

/// Field lists with one multiset give multiset-equal non-key
/// contributions.
proof fn lemma_nk_contribs_multiset(f1: Seq<FieldDeclV>, f2: Seq<FieldDeclV>)
    requires
        f1.to_multiset() == f2.to_multiset(),
    ensures
        nk_contribs(f1).to_multiset() == nk_contribs(f2).to_multiset(),
{
    lemma_map_multiset(f1, f2, |f: FieldDeclV| f.nks);
    lemma_flatten_multiset(
        f1.map_values(|f: FieldDeclV| f.nks),
        f2.map_values(|f: FieldDeclV| f.nks),
    );
}

/// Multiset-equal non-key contributions give multiset-equal contributions
/// for every group.
proof fn lemma_group_contribs_multiset(n1: Seq<NkContribV>, n2: Seq<NkContribV>, g: Seq<char>)
    requires
        n1.to_multiset() == n2.to_multiset(),
    ensures
        group_contribs(n1, g).to_multiset() == group_contribs(n2, g).to_multiset(),
{
    lemma_filter_multiset(n1, n2, |c: NkContribV| c.group_name == g);
    lemma_map_multiset(
        n1.filter(|c: NkContribV| c.group_name == g),
        n2.filter(|c: NkContribV| c.group_name == g),
        |c: NkContribV| c.part,
    );
}

/// Permuting the declared fields does not change the resolved partition
/// key of a declaration that resolves at all.
proof fn lemma_build_pk_equal(d1: EntityTypeDeclV, d2: EntityTypeDeclV)
    requires
        d1.pk == d2.pk,
        d1.fields.to_multiset() == d2.fields.to_multiset(),
        pk_contribs(d1.fields).len() >= 2 ==> !has_order_problem(pk_contribs(d1.fields)),
        build_pk(d1) is Ok,
        build_pk(d2) is Ok,
    ensures
        build_pk(d1) == build_pk(d2),
{
    broadcast use vstd::seq_lib::group_to_multiset_ensures;

    let cs1 = pk_contribs(d1.fields);
    let cs2 = pk_contribs(d2.fields);
    lemma_pk_contribs_multiset(d1.fields, d2.fields);
    assert(cs1.to_multiset().len() == cs1.len());
    assert(cs2.to_multiset().len() == cs2.len());
    lemma_segments_of_multiset(cs1, cs2);
    if d1.pk is None {
        assert(cs1.len() == 1);
        assert(cs2.contains(cs2[0]));
        assert(cs2.to_multiset().count(cs2[0]) > 0);
        assert(cs1.to_multiset().count(cs2[0]) > 0);
        assert(cs1.contains(cs2[0]));
        assert(cs1[0] == cs2[0]);
    }
}

/// Permuting the declared fields does not change the resolved sort key of
/// a declaration that resolves at all.
proof fn lemma_build_sk_equal(d1: EntityTypeDeclV, d2: EntityTypeDeclV)
    requires
        d1.sk == d2.sk,
        d1.fields.to_multiset() == d2.fields.to_multiset(),
        sk_contribs(d1.fields).len() >= 2 ==> !has_order_problem(sk_contribs(d1.fields)),
        build_sk(d1) is Ok,
        build_sk(d2) is Ok,
    ensures
        build_sk(d1) == build_sk(d2),
{
    broadcast use vstd::seq_lib::group_to_multiset_ensures;

    let cs1 = sk_contribs(d1.fields);
    let cs2 = sk_contribs(d2.fields);
    lemma_sk_contribs_multiset(d1.fields, d2.fields);
    assert(cs1.to_multiset().len() == cs1.len());
    assert(cs2.to_multiset().len() == cs2.len());
    lemma_segments_of_multiset(cs1, cs2);
    if d1.sk is None && cs1.len() == 1 {
        assert(cs2.contains(cs2[0]));
        assert(cs2.to_multiset().count(cs2[0]) > 0);
        assert(cs1.to_multiset().count(cs2[0]) > 0);
        assert(cs1.contains(cs2[0]));
        assert(cs1[0] == cs2[0]);
    }
}

/// What the deduplicated name list keeps: every name once, first
/// occurrences in order.
proof fn lemma_dedup_first_props(s: Seq<Seq<char>>)
    ensures
        forall|x: Seq<char>| #[trigger] dedup_first(s).contains(x) <==> s.contains(x),
        dedup_first(s).no_duplicates(),
    decreases s.len(),
{
    if s.len() > 0 {
        lemma_dedup_first_props(s.drop_last());
        let rest = dedup_first(s.drop_last());
        assert forall|x: Seq<char>| #[trigger] dedup_first(s).contains(x) implies s.contains(
            x,
        ) by {
            if rest.contains(x) {
                assert(s.drop_last().contains(x));
                let i = choose|i: int| 0 <= i < s.drop_last().len() && s.drop_last()[i] == x;
                assert(s[i] == x);
            } else {
                assert(x == s.last());
            }
        }
        assert forall|x: Seq<char>| s.contains(x) implies #[trigger] dedup_first(s).contains(
            x,
        ) by {
            let i = choose|i: int| 0 <= i < s.len() && s[i] == x;
            if i < s.len() - 1 {
                assert(s.drop_last()[i] == x);
                assert(s.drop_last().contains(x));
                assert(rest.contains(x));
                let k = choose|k: int| 0 <= k < rest.len() && rest[k] == x;
                if rest.contains(s.last()) {
                    assert(dedup_first(s) == rest);
                } else {
                    assert(dedup_first(s)[k] == x);
                }
            } else {
                assert(x == s.last());
                if !rest.contains(x) {
                    assert(dedup_first(s).last() == x);
                }
            }
        }
    }
}

/// The group scan accepts only name lists none of whose groups has an
/// order problem.
proof fn lemma_scan_none(d: EntityTypeDeclV, names: Seq<Seq<char>>)
    requires
        first_group_order_problem(d, names) is None,
    ensures
        forall|i: int|
            0 <= i < names.len() ==> !has_order_problem(
                group_contribs(nk_contribs(d.fields), #[trigger] names[i]),
            ),
    decreases names.len(),
{
    if names.len() > 0 {
        lemma_scan_none(d, names.drop_first());
        assert forall|i: int|
            0 <= i < names.len() implies !has_order_problem(
            group_contribs(nk_contribs(d.fields), #[trigger] names[i]),
        ) by {
            if i > 0 {
                assert(names.drop_first()[i - 1] == names[i]);
            }
        }
    }
}

/// Permuted fields declare the same set of non-key group names.
proof fn lemma_group_names_same_set(d1: EntityTypeDeclV, d2: EntityTypeDeclV)
    requires
        d1.nks == d2.nks,
        d1.fields.to_multiset() == d2.fields.to_multiset(),
    ensures
        forall|g: Seq<char>|
            #[trigger] group_names(d1).contains(g) <==> group_names(d2).contains(g),
{
    broadcast use vstd::seq_lib::group_to_multiset_ensures;

    lemma_nk_contribs_multiset(d1.fields, d2.fields);
    lemma_map_multiset(
        nk_contribs(d1.fields),
        nk_contribs(d2.fields),
        |c: NkContribV| c.group_name,
    );
    let base = d1.nks.map_values(|n: NkStructDeclV| n.name);
    let t1 = nk_contribs(d1.fields).map_values(|c: NkContribV| c.group_name);
    let t2 = nk_contribs(d2.fields).map_values(|c: NkContribV| c.group_name);
    lemma_dedup_first_props(base + t1);
    lemma_dedup_first_props(base + t2);
    assert forall|g: Seq<char>| #[trigger] (base + t1).contains(g) implies (base + t2).contains(
        g,
    ) by {
        let i = choose|i: int| 0 <= i < (base + t1).len() && (base + t1)[i] == g;
        if i < base.len() {
            assert((base + t2)[i] == g);
        } else {
            assert(t1[i - base.len()] == g);
            assert(t1.contains(g));
            assert(t1.to_multiset().count(g) > 0);
            assert(t2.to_multiset().count(g) > 0);
            assert(t2.contains(g));
            let j = choose|j: int| 0 <= j < t2.len() && t2[j] == g;
            assert((base + t2)[base.len() + j] == g);
        }
    }
    assert forall|g: Seq<char>| #[trigger] (base + t2).contains(g) implies (base + t1).contains(
        g,
    ) by {
        let i = choose|i: int| 0 <= i < (base + t2).len() && (base + t2)[i] == g;
        if i < base.len() {
            assert((base + t1)[i] == g);
        } else {
            assert(t2[i - base.len()] == g);
            assert(t2.contains(g));
            assert(t2.to_multiset().count(g) > 0);
            assert(t1.to_multiset().count(g) > 0);
            assert(t1.contains(g));
            let j = choose|j: int| 0 <= j < t1.len() && t1[j] == g;
            assert((base + t1)[base.len() + j] == g);
        }
    }
}

/// Permuting the declared fields does not change how a non-key group that
/// resolves at all is resolved.
proof fn lemma_nk_def_equal(d1: EntityTypeDeclV, d2: EntityTypeDeclV, g: Seq<char>)
    requires
        d1.nks == d2.nks,
        d1.fields.to_multiset() == d2.fields.to_multiset(),
        nk_def(d1, g) is Ok,
        group_contribs(nk_contribs(d1.fields), g).len() >= 2 ==> !has_order_problem(
            group_contribs(nk_contribs(d1.fields), g),
        ),
    ensures
        nk_def(d2, g) == nk_def(d1, g),
{
    broadcast use vstd::seq_lib::group_to_multiset_ensures;

    lemma_nk_contribs_multiset(d1.fields, d2.fields);
    lemma_group_contribs_multiset(nk_contribs(d1.fields), nk_contribs(d2.fields), g);
    let cs1 = group_contribs(nk_contribs(d1.fields), g);
    let cs2 = group_contribs(nk_contribs(d2.fields), g);
    assert(cs1.to_multiset().len() == cs1.len());
    assert(cs2.to_multiset().len() == cs2.len());
    lemma_segments_of_multiset(cs1, cs2);
}

/// Indexing a successful group resolution: one resolved definition per
/// name, in order.
proof fn lemma_nk_defs_index(d: EntityTypeDeclV, names: Seq<Seq<char>>)
    requires
        nk_defs(d, names) is Ok,
    ensures
        nk_defs(d, names)->Ok_0.len() == names.len(),
        forall|i: int|
            0 <= i < names.len() ==> nk_def(d, #[trigger] names[i]) is Ok && nk_defs(
                d,
                names,
            )->Ok_0[i] == nk_def(d, names[i])->Ok_0,
    decreases names.len(),
{
    if names.len() > 0 {
        lemma_nk_defs_index(d, names.drop_first());
        let r = nk_defs(d, names)->Ok_0;
        let rest = nk_defs(d, names.drop_first())->Ok_0;
        assert(r == seq![nk_def(d, names[0])->Ok_0] + rest);
        assert forall|i: int| 0 <= i < names.len() implies nk_def(d, #[trigger] names[i]) is Ok
            && r[i] == nk_def(d, names[i])->Ok_0 by {
            if i == 0 {
                assert(r[0] == nk_def(d, names[0])->Ok_0);
            } else {
                assert(names.drop_first()[i - 1] == names[i]);
                assert(r[i] == rest[i - 1]);
            }
        }
    }
}

/// Reading entries as a map distributes over concatenation, the right side
/// winning on shared names.
proof fn lemma_map_of_concat(a: Seq<NamedValueV>, b: Seq<NamedValueV>)
    ensures
        map_of(a + b) == map_of(a).union_prefer_right(map_of(b)),
    decreases b.len(),
{
    if b.len() == 0 {
        assert(a + b =~= a);
        assert(map_of(a).union_prefer_right(map_of(b)) =~= map_of(a));
    } else {
        let bp = b.drop_last();
        assert((a + b).drop_last() =~= a + bp);
        assert((a + b).last() == b.last());
        lemma_map_of_concat(a, bp);
        assert(map_of(a).union_prefer_right(map_of(bp)).insert(b.last().name, b.last().value)
            =~= map_of(a).union_prefer_right(map_of(bp).insert(b.last().name, b.last().value)));
    }
}

/// Entries tabulated from a name list read as the map from each listed
/// name to its tabulated value.
proof fn lemma_map_of_tabulate(
    entries: Seq<NamedValueV>,
    names: Seq<Seq<char>>,
    vals: spec_fn(Seq<char>) -> Seq<char>,
)
    requires
        entries.len() == names.len(),
        forall|i: int|
            0 <= i < names.len() ==> #[trigger] entries[i] == (NamedValueV {
                name: names[i],
                value: vals(names[i]),
            }),
    ensures
        forall|g: Seq<char>| #[trigger] map_of(entries).contains_key(g) <==> names.contains(g),
        forall|g: Seq<char>|
            names.contains(g) ==> #[trigger] map_of(entries)[g] == vals(g),
    decreases names.len(),
{
    broadcast use vstd::map::group_map_axioms;

    if names.len() > 0 {
        lemma_map_of_tabulate(entries.drop_last(), names.drop_last(), vals);
        assert(forall|k: int|
            0 <= k < entries.drop_last().len() ==> entries.drop_last()[k] == entries[k]);
        assert(forall|k: int|
            0 <= k < names.drop_last().len() ==> names.drop_last()[k] == names[k]);
        assert(entries.last() == NamedValueV { name: names.last(), value: vals(names.last()) });
        let prev = map_of(entries.drop_last());
        assert(map_of(entries) == prev.insert(names.last(), vals(names.last())));
        assert forall|g: Seq<char>| names.contains(g) implies #[trigger] map_of(
            entries,
        ).contains_key(g) by {
            if g == names.last() {
                assert(map_of(entries).contains_key(g));
            } else {
                let i = choose|i: int| 0 <= i < names.len() && names[i] == g;
                assert(i < names.len() - 1);
                assert(names.drop_last()[i] == g);
                assert(names.drop_last().contains(g));
                assert(prev.contains_key(g));
                assert(map_of(entries).contains_key(g));
            }
        }
        assert forall|g: Seq<char>| #[trigger] map_of(entries).contains_key(g) implies
            names.contains(g) by {
            if g != names.last() {
                assert(prev.contains_key(g));
                assert(names.drop_last().contains(g));
                let i = choose|i: int| 0 <= i < names.drop_last().len() && names.drop_last()[i]
                    == g;
                assert(names[i] == g);
            } else {
                assert(names[names.len() - 1] == g);
            }
        }
        assert forall|g: Seq<char>| names.contains(g) implies #[trigger] map_of(entries)[g]
            == vals(g) by {
            if g == names.last() {
                assert(map_of(entries)[g] == vals(g));
            } else {
                let i = choose|i: int| 0 <= i < names.len() && names[i] == g;
                assert(i < names.len() - 1);
                assert(names.drop_last()[i] == g);
                assert(names.drop_last().contains(g));
                assert(prev[g] == vals(g));
                assert(map_of(entries)[g] == prev[g]);
            }
        }
    }
}


//
// ─── BUILD SUCCESS UNDER PERMUTATION ────────────────────────────────────────
//
/// Order counts agree between multiset-equal contribution lists.
proof fn lemma_count_order_multiset(cs1: Seq<ContribV>, cs2: Seq<ContribV>, o: int)
    requires
        cs1.to_multiset() == cs2.to_multiset(),
    ensures
        count_order(cs1, o) == count_order(cs2, o),
{
    broadcast use vstd::seq_lib::group_to_multiset_ensures;

    lemma_filter_multiset(cs1, cs2, |c: ContribV| c.order == Some(o));
    assert(cs1.filter(|c: ContribV| c.order == Some(o)).to_multiset().len() == cs1.filter(
        |c: ContribV| c.order == Some(o),
    ).len());
    assert(cs2.filter(|c: ContribV| c.order == Some(o)).to_multiset().len() == cs2.filter(
        |c: ContribV| c.order == Some(o),
    ).len());
}

/// Whether a contribution list has an order problem depends on its
/// multiset alone.
proof fn lemma_order_problem_multiset(cs1: Seq<ContribV>, cs2: Seq<ContribV>)
    requires
        cs1.to_multiset() == cs2.to_multiset(),
    ensures
        has_order_problem(cs1) == has_order_problem(cs2),
{
    broadcast use vstd::seq_lib::group_to_multiset_ensures;

    assert(cs1.to_multiset().len() == cs1.len());
    assert(cs2.to_multiset().len() == cs2.len());
    let pred1 = |c: ContribV| c.order is None || count_order(cs1, c.order->0) >= 2;
    let pred2 = |c: ContribV| c.order is None || count_order(cs2, c.order->0) >= 2;
    if order_offenders(cs1).len() > 0 {
        lemma_filter_elem(cs1, pred1, 0);
        cs1.filter_lemma(pred1);
        let e = cs1.filter(pred1)[0];
        assert(pred1(e));
        if e.order is Some {
            lemma_count_order_multiset(cs1, cs2, e.order->0);
        }
        assert(pred2(e));
        assert(cs1.contains(e));
        assert(cs1.to_multiset().count(e) > 0);
        assert(cs2.to_multiset().count(e) > 0);
        assert(cs2.contains(e));
        cs2.filter_lemma(pred2);
        assert(cs2.filter(pred2).contains(e));
        assert(order_offenders(cs2).len() > 0);
    }
    if order_offenders(cs2).len() > 0 {
        lemma_filter_elem(cs2, pred2, 0);
        cs2.filter_lemma(pred2);
        let e = cs2.filter(pred2)[0];
        assert(pred2(e));
        if e.order is Some {
            lemma_count_order_multiset(cs1, cs2, e.order->0);
        }
        assert(pred1(e));
        assert(cs2.contains(e));
        assert(cs2.to_multiset().count(e) > 0);
        assert(cs1.to_multiset().count(e) > 0);
        assert(cs1.contains(e));
        cs1.filter_lemma(pred1);
        assert(cs1.filter(pred1).contains(e));
        assert(order_offenders(cs1).len() > 0);
    }
}

/// A name list none of whose groups has an order problem passes the scan.
proof fn lemma_scan_clear(d: EntityTypeDeclV, names: Seq<Seq<char>>)
    requires
        forall|i: int|
            0 <= i < names.len() ==> !has_order_problem(
                group_contribs(nk_contribs(d.fields), #[trigger] names[i]),
            ),
    ensures
        first_group_order_problem(d, names) is None,
    decreases names.len(),
{
    if names.len() > 0 {
        assert(forall|k: int|
            0 <= k < names.drop_first().len() ==> names.drop_first()[k] == names[k + 1]);
        lemma_scan_clear(d, names.drop_first());
    }
}

/// A name list each of whose groups resolves is resolved whole.
proof fn lemma_nk_defs_all_ok(d: EntityTypeDeclV, names: Seq<Seq<char>>)
    requires
        forall|i: int| 0 <= i < names.len() ==> nk_def(d, #[trigger] names[i]) is Ok,
    ensures
        nk_defs(d, names) is Ok,
    decreases names.len(),
{
    if names.len() > 0 {
        assert(forall|k: int|
            0 <= k < names.drop_first().len() ==> names.drop_first()[k] == names[k + 1]);
        lemma_nk_defs_all_ok(d, names.drop_first());
    }
}

/// Permuting the declared fields never turns a buildable declaration into
/// a rejected one: success depends on the field multiset alone.
pub proof fn lemma_build_success_preserved(d1: EntityTypeDeclV, d2: EntityTypeDeclV)
    requires
        d1.pk == d2.pk,
        d1.sk == d2.sk,
        d1.nks == d2.nks,
        d1.fields.to_multiset() == d2.fields.to_multiset(),
        spec_build(d1) is Ok,
    ensures
        spec_build(d2) is Ok,
{
    broadcast use vstd::seq_lib::group_to_multiset_ensures;

    let gn1 = group_names(d1);
    let gn2 = group_names(d2);
    lemma_pk_contribs_multiset(d1.fields, d2.fields);
    lemma_sk_contribs_multiset(d1.fields, d2.fields);
    lemma_nk_contribs_multiset(d1.fields, d2.fields);
    lemma_group_names_same_set(d1, d2);
    lemma_scan_none(d1, gn1);
    lemma_nk_defs_index(d1, gn1);

    // No order complaint survives the permutation.
    lemma_order_problem_multiset(pk_contribs(d1.fields), pk_contribs(d2.fields));
    lemma_order_problem_multiset(sk_contribs(d1.fields), sk_contribs(d2.fields));
    assert forall|i: int| 0 <= i < gn2.len() implies !has_order_problem(
        group_contribs(nk_contribs(d2.fields), #[trigger] gn2[i]),
    ) by {
        let g = gn2[i];
        assert(gn2.contains(g));
        assert(gn1.contains(g));
        lemma_group_contribs_multiset(nk_contribs(d1.fields), nk_contribs(d2.fields), g);
        lemma_order_problem_multiset(
            group_contribs(nk_contribs(d1.fields), g),
            group_contribs(nk_contribs(d2.fields), g),
        );
    }
    lemma_scan_clear(d2, gn2);
    assert(first_order_problem(d2) is None);

    // Both keys still resolve: the contributor counts are unchanged.
    assert(pk_contribs(d1.fields).to_multiset().len() == pk_contribs(d1.fields).len());
    assert(pk_contribs(d2.fields).to_multiset().len() == pk_contribs(d2.fields).len());
    assert(sk_contribs(d1.fields).to_multiset().len() == sk_contribs(d1.fields).len());
    assert(sk_contribs(d2.fields).to_multiset().len() == sk_contribs(d2.fields).len());
    assert(build_pk(d2) is Ok);
    assert(build_sk(d2) is Ok);

    // Every group still resolves: static groups still have no contribution.
    assert forall|i: int| 0 <= i < gn2.len() implies nk_def(d2, #[trigger] gn2[i]) is Ok by {
        let g = gn2[i];
        assert(gn2.contains(g));
        assert(gn1.contains(g));
        let k = choose|k: int| 0 <= k < gn1.len() && gn1[k] == g;
        assert(nk_def(d1, gn1[k]) is Ok);
        lemma_group_contribs_multiset(nk_contribs(d1.fields), nk_contribs(d2.fields), g);
        assert(group_contribs(nk_contribs(d1.fields), g).to_multiset().len() == group_contribs(
            nk_contribs(d1.fields),
            g,
        ).len());
        assert(group_contribs(nk_contribs(d2.fields), g).to_multiset().len() == group_contribs(
            nk_contribs(d2.fields),
            g,
        ).len());
    }
    lemma_nk_defs_all_ok(d2, gn2);
}

/// Permuting the order in which an entity type declares its fields —
/// leaving every struct-level declaration, every per-field option and every
/// explicit order value as it was — changes neither whether the build
/// succeeds, nor the resolved keys, nor the encoded attribute map of any
/// instance.
pub proof fn lemma_declaration_order_irrelevant(
    d1: EntityTypeDeclV,
    d2: EntityTypeDeclV,
    inst: Seq<NamedValueV>,
)
    requires
        d1.pk == d2.pk,
        d1.sk == d2.sk,
        d1.nks == d2.nks,
        d1.fields.to_multiset() == d2.fields.to_multiset(),
        spec_build(d1) is Ok,
    ensures
        spec_build(d2) is Ok,
        spec_build(d1)->Ok_0.partition_key_def == spec_build(d2)->Ok_0.partition_key_def,
        spec_build(d1)->Ok_0.sort_key_def == spec_build(d2)->Ok_0.sort_key_def,
        map_of(spec_encode(spec_build(d1)->Ok_0, inst)) == map_of(
            spec_encode(spec_build(d2)->Ok_0, inst),
        ),
{
    lemma_build_success_preserved(d1, d2);
    let s1 = spec_build(d1)->Ok_0;
    let s2 = spec_build(d2)->Ok_0;
    let gn1 = group_names(d1);
    let gn2 = group_names(d2);

    // Keys resolve identically.
    lemma_build_pk_equal(d1, d2);
    lemma_build_sk_equal(d1, d2);
    assert(s1.partition_key_def == s2.partition_key_def);
    assert(s1.sort_key_def == s2.sort_key_def);

    // Group resolution agrees name by name.
    lemma_scan_none(d1, gn1);
    lemma_nk_defs_index(d1, gn1);
    lemma_nk_defs_index(d2, gn2);
    lemma_group_names_same_set(d1, d2);

    let vals1 = |g: Seq<char>| attr_value(nk_def(d1, g)->Ok_0.attribute_value, inst);
    let vals2 = |g: Seq<char>| attr_value(nk_def(d2, g)->Ok_0.attribute_value, inst);
    let nkmap = |k: KeyDefV<AttributeValueV>| NamedValueV {
        name: k.attribute_name,
        value: attr_value(k.attribute_value, inst),
    };
    let tail1 = s1.non_key_defs.map_values(nkmap);
    let tail2 = s2.non_key_defs.map_values(nkmap);

    assert forall|i: int| 0 <= i < gn1.len() implies #[trigger] tail1[i] == (NamedValueV {
        name: gn1[i],
        value: vals1(gn1[i]),
    }) by {
        assert(s1.non_key_defs[i] == nk_def(d1, gn1[i])->Ok_0);
        assert(nk_def(d1, gn1[i])->Ok_0.attribute_name == gn1[i]);
    }
    assert forall|i: int| 0 <= i < gn2.len() implies #[trigger] tail2[i] == (NamedValueV {
        name: gn2[i],
        value: vals2(gn2[i]),
    }) by {
        assert(s2.non_key_defs[i] == nk_def(d2, gn2[i])->Ok_0);
        assert(nk_def(d2, gn2[i])->Ok_0.attribute_name == gn2[i]);
    }
    lemma_map_of_tabulate(tail1, gn1, vals1);
    lemma_map_of_tabulate(tail2, gn2, vals2);

    assert forall|g: Seq<char>| #[trigger] gn1.contains(g) implies vals1(g) == vals2(g) by {
        let i = choose|i: int| 0 <= i < gn1.len() && gn1[i] == g;
        lemma_nk_def_equal(d1, d2, g);
    }
    assert(map_of(tail1) =~= map_of(tail2)) by {
        assert forall|g: Seq<char>| #[trigger] map_of(tail1).contains_key(g) implies map_of(
            tail2,
        ).contains_key(g) && map_of(tail1)[g] == map_of(tail2)[g] by {
            assert(gn1.contains(g));
            assert(gn2.contains(g));
        }
        assert forall|g: Seq<char>| #[trigger] map_of(tail2).contains_key(g) implies map_of(
            tail1,
        ).contains_key(g) by {
            assert(gn2.contains(g));
            assert(gn1.contains(g));
        }
    }

    // The shared head and the matching group maps give equal attribute maps.
    let head1 = seq![
        NamedValueV {
            name: s1.partition_key_def.attribute_name,
            value: composite_value(s1.partition_key_def.attribute_value, inst),
        },
    ] + (match s1.sort_key_def {
        Some(k) => seq![
            NamedValueV { name: k.attribute_name, value: attr_value(k.attribute_value, inst) },
        ],
        None => Seq::<NamedValueV>::empty(),
    });
    assert(spec_encode(s1, inst) =~= head1 + tail1);
    assert(spec_encode(s2, inst) =~= head1 + tail2);
    lemma_map_of_concat(head1, tail1);
    lemma_map_of_concat(head1, tail2);
}

} // verus!
