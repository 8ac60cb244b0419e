//! The schema builder: resolves a raw entity-type declaration into a
//! canonical [`SchemaV2`], or rejects it with a [`SchemaError`].
//!
//! Resolution is specified by [`spec_build`], a total function over the
//! declaration's view; the executable [`build_schema`] returns exactly what
//! the specification says, error cases included. Where two or more fields
//! contribute to one key or group, every contributor must carry an explicit
//! order and the order values must be pairwise distinct; a tie is reported
//! as a missing order rather than resolved by declaration position.
//!
//! One invariant belongs to the declaration layer, not to the builder: a
//! field may name each non-key group at most once. A concrete declaration
//! syntax enforces it while parsing; callers that assemble declarations
//! directly check it with [`crate::decl::EntityTypeDecl::well_formed`]
//! before building. The builder itself accepts the general form and treats
//! a repeated membership as two contributions, which a multi-segment group
//! then accepts only under distinct explicit orders.

use vstd::prelude::*;
use crate::decl::{
    ContribV, EntityTypeDecl, EntityTypeDeclV, FieldDecl, FieldDeclV, NkContribV, NkStructDecl,
    NkStructDeclV,
};
use crate::error::{SchemaError, SchemaErrorV};
use crate::keys::{
    AttributeValue, AttributeValueV, CompositeAttributeValue, CompositeAttributeValueV, KeyDef,
    KeyDefV, SchemaV2, SchemaV2V, Segment, SegmentV,
};

verus! {

//
// ─── CONTRIBUTION VIEWS ─────────────────────────────────────────────────────
//
/// The partition-key contributions of the declared fields, in declaration
/// order.
pub open spec fn pk_contribs(fields: Seq<FieldDeclV>) -> Seq<ContribV> {
    fields.filter(|f: FieldDeclV| f.pk is Some).map_values(|f: FieldDeclV| f.pk->0)
}

/// The sort-key contributions of the declared fields, in declaration order.
pub open spec fn sk_contribs(fields: Seq<FieldDeclV>) -> Seq<ContribV> {
    fields.filter(|f: FieldDeclV| f.sk is Some).map_values(|f: FieldDeclV| f.sk->0)
}

/// All non-key contributions of the declared fields, flattened in
/// declaration order.
pub open spec fn nk_contribs(fields: Seq<FieldDeclV>) -> Seq<NkContribV> {
    fields.map_values(|f: FieldDeclV| f.nks).flatten()
}

/// The contributions aimed at the non-key group named `g`.
pub open spec fn group_contribs(ncs: Seq<NkContribV>, g: Seq<char>) -> Seq<ContribV> {
    ncs.filter(|c: NkContribV| c.group_name == g).map_values(|c: NkContribV| c.part)
}

//
// ─── ORDER CHECKING AND SORTING ─────────────────────────────────────────────
//
/// The sort key of a contribution: its explicit order, with an absent order
/// placed before every explicit one.
pub open spec fn ord_key(c: ContribV) -> int {
    match c.order {
        Some(o) => o,
        None => -1,
    }
}

/// How many contributions in `cs` carry the explicit order `o`.
pub open spec fn count_order(cs: Seq<ContribV>, o: int) -> int {
    cs.filter(|c: ContribV| c.order == Some(o)).len() as int
}

/// The fields that make `cs` unusable as a multi-segment key: those with no
/// explicit order, and those whose order another contribution shares.
pub open spec fn order_offenders(cs: Seq<ContribV>) -> Seq<Seq<char>> {
    cs.filter(
        |c: ContribV| c.order is None || count_order(cs, c.order->0) >= 2,
    ).map_values(|c: ContribV| c.field_name)
}

/// Whether `cs` has two or more contributions but not pairwise distinct
/// explicit orders.
pub open spec fn has_order_problem(cs: Seq<ContribV>) -> bool {
    cs.len() >= 2 && order_offenders(cs).len() > 0
}

/// Inserts `x` into the already sorted `s`, after any contribution whose
/// order key equals `x`'s.
pub open spec fn insert_sorted(x: ContribV, s: Seq<ContribV>) -> Seq<ContribV>
    decreases s.len(),
{
    if s.len() == 0 {
        seq![x]
    } else if ord_key(x) < ord_key(s[0]) {
        seq![x] + s
    } else {
        seq![s[0]] + insert_sorted(x, s.drop_first())
    }
}

/// Stable insertion sort of contributions by order key: contributions with
/// equal keys keep their declaration order.
pub open spec fn sort_contribs(s: Seq<ContribV>) -> Seq<ContribV>
    decreases s.len(),
{
    if s.len() == 0 {
        s
    } else {
        insert_sorted(s[0], sort_contribs(s.drop_first()))
    }
}

/// The segment a contribution turns into once its position is resolved.
pub open spec fn segment_of(c: ContribV) -> SegmentV {
    SegmentV { struct_field_name: c.field_name, prefix: c.prefix }
}

/// The segments of a key or group: contributions sorted ascending by
/// explicit order when there are two or more, passed through unsorted
/// otherwise.
pub open spec fn segments_of(cs: Seq<ContribV>) -> Seq<SegmentV> {
    if cs.len() >= 2 {
        sort_contribs(cs).map_values(|c: ContribV| segment_of(c))
    } else {
        cs.map_values(|c: ContribV| segment_of(c))
    }
}

//
// ─── NON-KEY GROUPS ─────────────────────────────────────────────────────────
//
/// Keeps the first occurrence of every name, in order.
pub open spec fn dedup_first(s: Seq<Seq<char>>) -> Seq<Seq<char>>
    decreases s.len(),
{
    if s.len() == 0 {
        s
    } else {
        let rest = dedup_first(s.drop_last());
        if rest.contains(s.last()) {
            rest
        } else {
            rest.push(s.last())
        }
    }
}

/// Every non-key group name, each once: struct-level declarations first in
/// declared order, then field-level targets of undeclared groups in order of
/// first contribution.
pub open spec fn group_names(d: EntityTypeDeclV) -> Seq<Seq<char>> {
    dedup_first(
        d.nks.map_values(|n: NkStructDeclV| n.name) + nk_contribs(d.fields).map_values(
            |c: NkContribV| c.group_name,
        ),
    )
}

/// The struct-level declaration that seeds the group named `g`: with several
/// declarations of one name, the last overwrites the earlier ones.
pub open spec fn find_nk_decl(nks: Seq<NkStructDeclV>, g: Seq<char>) -> Option<NkStructDeclV>
    decreases nks.len(),
{
    if nks.len() == 0 {
        None
    } else if nks.last().name == g {
        Some(nks.last())
    } else {
        find_nk_decl(nks.drop_last(), g)
    }
}

/// Resolves the non-key group named `g`: a static literal where the
/// struct-level declaration carries one (and then no field may contribute),
/// otherwise a composite of the sorted contributions, wrapped in the
/// declaration's overall prefix and suffix if the group was declared.
pub open spec fn nk_def(d: EntityTypeDeclV, g: Seq<char>) -> Result<
    KeyDefV<AttributeValueV>,
    SchemaErrorV,
> {
    let cs = group_contribs(nk_contribs(d.fields), g);
    match find_nk_decl(d.nks, g) {
        Some(decl) => {
            if decl.static_value is Some {
                if cs.len() > 0 {
                    Err(
                        SchemaErrorV::StaticSegmentConflict {
                            group_name: g,
                            field_names: cs.map_values(|c: ContribV| c.field_name),
                        },
                    )
                } else {
                    Ok(
                        KeyDefV {
                            attribute_name: g,
                            attribute_value: AttributeValueV::Static(decl.static_value->0),
                        },
                    )
                }
            } else {
                Ok(
                    KeyDefV {
                        attribute_name: g,
                        attribute_value: AttributeValueV::Composite(
                            CompositeAttributeValueV {
                                segments: segments_of(cs),
                                prefix: decl.value_prefix,
                                suffix: decl.value_suffix,
                            },
                        ),
                    },
                )
            }
        },
        None => Ok(
            KeyDefV {
                attribute_name: g,
                attribute_value: AttributeValueV::Composite(
                    CompositeAttributeValueV {
                        segments: segments_of(cs),
                        prefix: None,
                        suffix: None,
                    },
                ),
            },
        ),
    }
}

/// Resolves the groups named in `names`, left to right, stopping at the
/// first rejected group.
pub open spec fn nk_defs(d: EntityTypeDeclV, names: Seq<Seq<char>>) -> Result<
    Seq<KeyDefV<AttributeValueV>>,
    SchemaErrorV,
>
    decreases names.len(),
{
    if names.len() == 0 {
        Ok(Seq::empty())
    } else {
        match nk_def(d, names[0]) {
            Err(e) => Err(e),
            Ok(k) => match nk_defs(d, names.drop_first()) {
                Err(e) => Err(e),
                Ok(rest) => Ok(seq![k] + rest),
            },
        }
    }
}

//
// ─── KEY RESOLUTION ─────────────────────────────────────────────────────────
//
/// The name under which an order complaint about the partition key is
/// reported: the declared attribute name when there is one.
pub open spec fn pk_report_name(d: EntityTypeDeclV) -> Seq<char> {
    match d.pk {
        Some(p) => p.name,
        None => "pk"@,
    }
}

/// The name under which an order complaint about the sort key is reported.
pub open spec fn sk_report_name(d: EntityTypeDeclV) -> Seq<char> {
    match d.sk {
        Some(s) => s.name,
        None => "sk"@,
    }
}

/// Scans the named groups left to right for the first one whose
/// contributions lack distinct explicit orders.
pub open spec fn first_group_order_problem(d: EntityTypeDeclV, names: Seq<Seq<char>>) -> Option<
    SchemaErrorV,
>
    decreases names.len(),
{
    if names.len() == 0 {
        None
    } else {
        let cs = group_contribs(nk_contribs(d.fields), names[0]);
        if has_order_problem(cs) {
            Some(
                SchemaErrorV::MissingOrder {
                    key_name: names[0],
                    field_names: order_offenders(cs),
                },
            )
        } else {
            first_group_order_problem(d, names.drop_first())
        }
    }
}

/// The first order complaint of the whole declaration: the partition key's,
/// else the sort key's, else the first complaining non-key group's.
pub open spec fn first_order_problem(d: EntityTypeDeclV) -> Option<SchemaErrorV> {
    if has_order_problem(pk_contribs(d.fields)) {
        Some(
            SchemaErrorV::MissingOrder {
                key_name: pk_report_name(d),
                field_names: order_offenders(pk_contribs(d.fields)),
            },
        )
    } else if has_order_problem(sk_contribs(d.fields)) {
        Some(
            SchemaErrorV::MissingOrder {
                key_name: sk_report_name(d),
                field_names: order_offenders(sk_contribs(d.fields)),
            },
        )
    } else {
        first_group_order_problem(d, group_names(d))
    }
}

/// Resolves the partition key. With a struct-level declaration, that
/// declaration names the attribute and wraps the sorted field contributions
/// in its own overall prefix and suffix; without one, exactly one field
/// must contribute, that field's name becomes both the attribute name and
/// the sole segment — whose own prefix labels it — and the composite
/// carries no overall prefix or suffix.
pub open spec fn build_pk(d: EntityTypeDeclV) -> Result<
    KeyDefV<CompositeAttributeValueV>,
    SchemaErrorV,
> {
    let cs = pk_contribs(d.fields);
    match d.pk {
        Some(p) => Ok(
            KeyDefV {
                attribute_name: p.name,
                attribute_value: CompositeAttributeValueV {
                    segments: segments_of(cs),
                    prefix: p.value_prefix,
                    suffix: p.value_suffix,
                },
            },
        ),
        None => {
            if cs.len() != 1 {
                Err(
                    SchemaErrorV::AmbiguousKeyOwnership {
                        key_name: "pk"@,
                        contributor_count: cs.len() as int,
                    },
                )
            } else {
                Ok(
                    KeyDefV {
                        attribute_name: cs[0].field_name,
                        attribute_value: CompositeAttributeValueV {
                            segments: seq![segment_of(cs[0])],
                            prefix: None,
                            suffix: None,
                        },
                    },
                )
            }
        },
    }
}

/// Resolves the sort key, which is optional, mirroring the partition key.
/// A struct-level static literal excludes field contributions; a
/// struct-level composite declaration wraps the sorted contributions in
/// its own overall prefix and suffix; without a declaration, one
/// contributing field is the whole key (sole segment, no overall prefix or
/// suffix), more than one is ambiguous, and none means no sort key.
pub open spec fn build_sk(d: EntityTypeDeclV) -> Result<
    Option<KeyDefV<AttributeValueV>>,
    SchemaErrorV,
> {
    let cs = sk_contribs(d.fields);
    match d.sk {
        Some(s) => {
            if s.static_value is Some {
                if cs.len() > 0 {
                    Err(
                        SchemaErrorV::StaticSegmentConflict {
                            group_name: s.name,
                            field_names: cs.map_values(|c: ContribV| c.field_name),
                        },
                    )
                } else {
                    Ok(
                        Some(
                            KeyDefV {
                                attribute_name: s.name,
                                attribute_value: AttributeValueV::Static(s.static_value->0),
                            },
                        ),
                    )
                }
            } else {
                Ok(
                    Some(
                        KeyDefV {
                            attribute_name: s.name,
                            attribute_value: AttributeValueV::Composite(
                                CompositeAttributeValueV {
                                    segments: segments_of(cs),
                                    prefix: s.value_prefix,
                                    suffix: s.value_suffix,
                                },
                            ),
                        },
                    ),
                )
            }
        },
        None => {
            if cs.len() > 1 {
                Err(
                    SchemaErrorV::AmbiguousKeyOwnership {
                        key_name: "sk"@,
                        contributor_count: cs.len() as int,
                    },
                )
            } else if cs.len() == 1 {
                Ok(
                    Some(
                        KeyDefV {
                            attribute_name: cs[0].field_name,
                            attribute_value: AttributeValueV::Composite(
                                CompositeAttributeValueV {
                                    segments: seq![segment_of(cs[0])],
                                    prefix: None,
                                    suffix: None,
                                },
                            ),
                        },
                    ),
                )
            } else {
                Ok(None)
            }
        },
    }
}

//
// ─── THE BUILD ──────────────────────────────────────────────────────────────
//
/// What building a schema from a raw declaration yields: the canonical
/// schema, or the first schema-definition error in a fixed scan order
/// (order complaints over every key and group, then partition-key
/// resolution, then sort-key resolution, then the non-key groups in name
/// order).
pub open spec fn spec_build(d: EntityTypeDeclV) -> Result<SchemaV2V, SchemaErrorV> {
    match first_order_problem(d) {
        Some(e) => Err(e),
        None => match build_pk(d) {
            Err(e) => Err(e),
            Ok(pk) => match build_sk(d) {
                Err(e) => Err(e),
                Ok(sk) => match nk_defs(d, group_names(d)) {
                    Err(e) => Err(e),
                    Ok(nks) => Ok(
                        SchemaV2V { partition_key_def: pk, sort_key_def: sk, non_key_defs: nks },
                    ),
                },
            },
        },
    }
}

//
// ─── EXEC CONTRIBUTION COLLECTION ───────────────────────────────────────────
//
/// One flattened key or group contribution, as the executable build carries
/// it: the contributing field, its prefix, and its optional position.
pub struct Contrib {
    pub field_name: String,
    pub prefix: Option<String>,
    pub order: Option<usize>,
}

impl View for Contrib {
    type V = ContribV;

    open spec fn view(&self) -> ContribV {
        ContribV {
            field_name: self.field_name@,
            prefix: crate::keys::opt_view(self.prefix),
            order: crate::decl::order_view(self.order),
        }
    }
}

impl DeepView for Contrib {
    type V = ContribV;

    open spec fn deep_view(&self) -> ContribV {
        self.view()
    }
}

/// One flattened non-key contribution: the target group plus the segment.
pub struct NkContrib {
    pub group_name: String,
    pub part: Contrib,
}

impl View for NkContrib {
    type V = NkContribV;

    open spec fn view(&self) -> NkContribV {
        NkContribV { group_name: self.group_name@, part: self.part@ }
    }
}

impl DeepView for NkContrib {
    type V = NkContribV;

    open spec fn deep_view(&self) -> NkContribV {
        self.view()
    }
}

/// Copies an optional string.
fn clone_opt_string(o: &Option<String>) -> (r: Option<String>)
    ensures
        r == *o,
{
    match o {
        Some(s) => Some(s.clone()),
        None => None,
    }
}

/// Filtering a sequence extended by one element keeps the old result and
/// appends the element exactly when it satisfies the predicate.
pub(crate) proof fn lemma_filter_push<A>(s: Seq<A>, x: A, p: spec_fn(A) -> bool)
    ensures
        s.push(x).filter(p) == if p(x) {
            s.filter(p).push(x)
        } else {
            s.filter(p)
        },
{
    reveal_with_fuel(Seq::filter, 2);
    assert(s.push(x).last() == x);
    assert(s.push(x).drop_last() =~= s);
}

/// Mapping a sequence extended by one element appends the mapped element.
pub(crate) proof fn lemma_map_push<A, B>(s: Seq<A>, x: A, m: spec_fn(A) -> B)
    ensures
        s.push(x).map_values(m) =~= s.map_values(m).push(m(x)),
{
}

/// Collects the partition-key contributions of the declared fields, in
/// declaration order.
pub fn collect_pk_contribs(fields: &Vec<FieldDecl>) -> (r: Vec<Contrib>)
    ensures
        r.deep_view() == pk_contribs(fields.deep_view()),
{
    let ghost fsv = fields.deep_view();
    let mut out: Vec<Contrib> = Vec::new();
    let mut i: usize = 0;
    while i < fields.len()
        invariant
            i <= fields.len(),
            fsv == fields.deep_view(),
            out.deep_view() == pk_contribs(fsv.take(i as int)),
        decreases fields.len() - i,
    {
        proof {
            assert(fsv.take(i + 1 as int) =~= fsv.take(i as int).push(fsv[i as int]));
            lemma_filter_push(fsv.take(i as int), fsv[i as int], |f: FieldDeclV| f.pk is Some);
            lemma_map_push(
                fsv.take(i as int).filter(|f: FieldDeclV| f.pk is Some),
                fsv[i as int],
                |f: FieldDeclV| f.pk->0,
            );
        }
        let f = &fields[i];
        match &f.pk {
            Some(p) => {
                let c = Contrib {
                    field_name: f.field_name.clone(),
                    prefix: clone_opt_string(&p.prefix),
                    order: p.order,
                };
                proof {
                    assert(c@ == fsv[i as int].pk->0);
                    assert(out.deep_view().push(c@) =~= pk_contribs(fsv.take(i + 1 as int)));
                }
                out.push(c);
            },
            None => {
                proof {
                    assert(pk_contribs(fsv.take(i + 1 as int)) =~= pk_contribs(fsv.take(i as int)));
                }
            },
        }
        i += 1;
    }
    proof {
        assert(fsv.take(fields.len() as int) =~= fsv);
    }
    out
}

/// Collects the sort-key contributions of the declared fields, in
/// declaration order.
pub fn collect_sk_contribs(fields: &Vec<FieldDecl>) -> (r: Vec<Contrib>)
    ensures
        r.deep_view() == sk_contribs(fields.deep_view()),
{
    let ghost fsv = fields.deep_view();
    let mut out: Vec<Contrib> = Vec::new();
    let mut i: usize = 0;
    while i < fields.len()
        invariant
            i <= fields.len(),
            fsv == fields.deep_view(),
            out.deep_view() == sk_contribs(fsv.take(i as int)),
        decreases fields.len() - i,
    {
        proof {
            assert(fsv.take(i + 1 as int) =~= fsv.take(i as int).push(fsv[i as int]));
            lemma_filter_push(fsv.take(i as int), fsv[i as int], |f: FieldDeclV| f.sk is Some);
            lemma_map_push(
                fsv.take(i as int).filter(|f: FieldDeclV| f.sk is Some),
                fsv[i as int],
                |f: FieldDeclV| f.sk->0,
            );
        }
        let f = &fields[i];
        match &f.sk {
            Some(s) => {
                let c = Contrib {
                    field_name: f.field_name.clone(),
                    prefix: clone_opt_string(&s.prefix),
                    order: s.order,
                };
                proof {
                    assert(c@ == fsv[i as int].sk->0);
                    assert(out.deep_view().push(c@) =~= sk_contribs(fsv.take(i + 1 as int)));
                }
                out.push(c);
            },
            None => {
                proof {
                    assert(sk_contribs(fsv.take(i + 1 as int)) =~= sk_contribs(fsv.take(i as int)));
                }
            },
        }
        i += 1;
    }
    proof {
        assert(fsv.take(fields.len() as int) =~= fsv);
    }
    out
}

/// Collects every non-key contribution of the declared fields, flattened in
/// declaration order.
pub fn collect_nk_contribs(fields: &Vec<FieldDecl>) -> (r: Vec<NkContrib>)
    ensures
        r.deep_view() == nk_contribs(fields.deep_view()),
{
    let ghost fsv = fields.deep_view();
    let mut out: Vec<NkContrib> = Vec::new();
    let mut i: usize = 0;
    while i < fields.len()
        invariant
            i <= fields.len(),
            fsv == fields.deep_view(),
            out.deep_view() == nk_contribs(fsv.take(i as int)),
        decreases fields.len() - i,
    {
        proof {
            assert(fsv.take(i + 1 as int) =~= fsv.take(i as int).push(fsv[i as int]));
            lemma_map_push(fsv.take(i as int), fsv[i as int], |f: FieldDeclV| f.nks);
            fsv.take(i as int).map_values(|f: FieldDeclV| f.nks).lemma_flatten_push(
                fsv[i as int].nks,
            );
        }
        let f = &fields[i];
        let ghost base = out.deep_view();
        let mut j: usize = 0;
        while j < f.nks.len()
            invariant
                j <= f.nks.len(),
                base == nk_contribs(fsv.take(i as int)),
                fsv[i as int] == f.deep_view(),
                i < fields.len(),
                fsv == fields.deep_view(),
                out.deep_view() =~= base + f.deep_view().nks.take(j as int),
            decreases f.nks.len() - j,
        {
            let n = &f.nks[j];
            let c = NkContrib {
                group_name: match &n.group_name {
                    Some(g) => g.clone(),
                    None => f.field_name.clone(),
                },
                part: Contrib {
                    field_name: f.field_name.clone(),
                    prefix: clone_opt_string(&n.prefix),
                    order: n.order,
                },
            };
            proof {
                assert(f.deep_view().nks[j as int] == crate::decl::nk_contrib_view(
                    f.field_name@,
                    f.nks@[j as int],
                ));
                assert(c@ == f.deep_view().nks[j as int]);
                assert(f.deep_view().nks.take(j + 1 as int) =~= f.deep_view().nks.take(
                    j as int,
                ).push(f.deep_view().nks[j as int]));
                assert(out.deep_view().push(c@) =~= base + f.deep_view().nks.take(j + 1 as int));
            }
            out.push(c);
            proof {
                assert(out.deep_view() =~= base + f.deep_view().nks.take(j + 1 as int));
            }
            j += 1;
        }
        proof {
            assert(f.deep_view().nks.take(f.nks.len() as int) =~= f.deep_view().nks);
            assert(out.deep_view() =~= nk_contribs(fsv.take(i + 1 as int)));
        }
        i += 1;
    }
    proof {
        assert(fsv.take(fields.len() as int) =~= fsv);
    }
    out
}

//
// ─── EXEC ORDER CHECKING ────────────────────────────────────────────────────
//
/// Counts the contributions in `cs` that carry the explicit order `o`.
fn count_order_exec(cs: &Vec<Contrib>, o: usize) -> (r: usize)
    ensures
        r as int == count_order(cs.deep_view(), o as int),
{
    let ghost csv = cs.deep_view();
    let mut r: usize = 0;
    let mut i: usize = 0;
    while i < cs.len()
        invariant
            i <= cs.len(),
            csv == cs.deep_view(),
            r <= i,
            r as int == count_order(csv.take(i as int), o as int),
        decreases cs.len() - i,
    {
        proof {
            assert(csv.take(i + 1 as int) =~= csv.take(i as int).push(csv[i as int]));
            lemma_filter_push(
                csv.take(i as int),
                csv[i as int],
                |c: ContribV| c.order == Some(o as int),
            );
        }
        match cs[i].order {
            Some(co) => {
                if co == o {
                    r += 1;
                }
            },
            None => {},
        }
        i += 1;
    }
    proof {
        assert(csv.take(cs.len() as int) =~= csv);
    }
    r
}

/// Collects the names of the fields whose contributions lack an explicit
/// order or share one with another contribution.
fn order_offenders_exec(cs: &Vec<Contrib>) -> (r: Vec<String>)
    ensures
        r.deep_view() == order_offenders(cs.deep_view()),
{
    let ghost csv = cs.deep_view();
    let ghost pred = |c: ContribV| c.order is None || count_order(csv, c.order->0) >= 2;
    let mut out: Vec<String> = Vec::new();
    let mut i: usize = 0;
    while i < cs.len()
        invariant
            i <= cs.len(),
            csv == cs.deep_view(),
            pred == (|c: ContribV| c.order is None || count_order(csv, c.order->0) >= 2),
            out.deep_view() == csv.take(i as int).filter(pred).map_values(
                |c: ContribV| c.field_name,
            ),
        decreases cs.len() - i,
    {
        proof {
            assert(csv.take(i + 1 as int) =~= csv.take(i as int).push(csv[i as int]));
            lemma_filter_push(csv.take(i as int), csv[i as int], pred);
            lemma_map_push(
                csv.take(i as int).filter(pred),
                csv[i as int],
                |c: ContribV| c.field_name,
            );
        }
        let offending = match cs[i].order {
            None => true,
            Some(o) => count_order_exec(cs, o) >= 2,
        };
        proof {
            assert(offending == pred(csv[i as int]));
        }
        if offending {
            out.push(cs[i].field_name.clone());
        }
        i += 1;
    }
    proof {
        assert(csv.take(cs.len() as int) =~= csv);
    }
    out
}

/// Decides whether `cs` has two or more contributions without pairwise
/// distinct explicit orders, returning the offenders when it has.
fn check_order(cs: &Vec<Contrib>) -> (r: Option<Vec<String>>)
    ensures
        r is Some <==> has_order_problem(cs.deep_view()),
        r is Some ==> r->0.deep_view() == order_offenders(cs.deep_view()),
{
    if cs.len() < 2 {
        return None;
    }
    let offenders = order_offenders_exec(cs);
    if offenders.len() > 0 {
        Some(offenders)
    } else {
        None
    }
}

//
// ─── EXEC SORTING ───────────────────────────────────────────────────────────
//
/// Whether `a` must stand strictly before `b`: its order key is smaller.
fn lt_key(a: &Contrib, b: &Contrib) -> (r: bool)
    ensures
        r == (ord_key(a@) < ord_key(b@)),
{
    match (a.order, b.order) {
        (None, Some(_)) => true,
        (Some(x), Some(y)) => x < y,
        (_, None) => false,
    }
}

/// [`insert_sorted`] places the new contribution exactly at the first index
/// whose order key exceeds the new contribution's.
proof fn lemma_insert_sorted_at(x: ContribV, s: Seq<ContribV>, j: int)
    requires
        0 <= j <= s.len(),
        forall|k: int| 0 <= k < j ==> !(ord_key(x) < ord_key(#[trigger] s[k])),
        j < s.len() ==> ord_key(x) < ord_key(s[j]),
    ensures
        insert_sorted(x, s) == s.take(j) + seq![x] + s.skip(j),
    decreases s.len(),
{
    if s.len() == 0 {
        assert(insert_sorted(x, s) =~= s.take(0) + seq![x] + s.skip(0));
    } else if ord_key(x) < ord_key(s[0]) {
        assert(j == 0);
        assert(insert_sorted(x, s) =~= s.take(0) + seq![x] + s.skip(0));
    } else {
        assert(j >= 1);
        lemma_insert_sorted_at(x, s.drop_first(), j - 1);
        assert(s.drop_first().take(j - 1) =~= s.take(j).drop_first());
        assert(s.drop_first().skip(j - 1) =~= s.skip(j));
        assert(seq![s[0]] + insert_sorted(x, s.drop_first()) =~= s.take(j) + seq![x] + s.skip(j));
    }
}

/// Inserts `x` into the sorted `v`, after any element with an equal key.
fn insert_sorted_exec(v: &mut Vec<Contrib>, x: Contrib)
    ensures
        final(v).deep_view() == insert_sorted(x@, old(v).deep_view()),
{
    let ghost sv = v.deep_view();
    let mut j: usize = 0;
    while j < v.len() && !lt_key(&x, &v[j])
        invariant
            j <= v.len(),
            sv == v.deep_view(),
            forall|k: int| 0 <= k < j ==> !(ord_key(x@) < ord_key(#[trigger] sv[k])),
        decreases v.len() - j,
    {
        j += 1;
    }
    proof {
        lemma_insert_sorted_at(x@, sv, j as int);
    }
    v.insert(j, x);
    proof {
        assert(v.deep_view() =~= sv.take(j as int) + seq![x@] + sv.skip(j as int));
    }
}

/// Sorts contributions ascending by order key; the sort is stable, so
/// contributions with equal keys keep their relative order.
fn sort_contribs_exec(mut cs: Vec<Contrib>) -> (r: Vec<Contrib>)
    ensures
        r.deep_view() == sort_contribs(cs.deep_view()),
{
    let ghost csv = cs.deep_view();
    proof {
        assert(csv.take(cs.len() as int) =~= csv);
        assert(csv.skip(cs.len() as int) =~= Seq::<ContribV>::empty());
    }
    let mut acc: Vec<Contrib> = Vec::new();
    while cs.len() > 0
        invariant
            cs.len() <= csv.len(),
            cs.deep_view() == csv.take(cs.len() as int),
            acc.deep_view() == sort_contribs(csv.skip(cs.len() as int)),
        decreases cs.len(),
    {
        let ghost n = cs.len() as int;
        let ghost prev = cs@;
        let ghost prevdeep = cs.deep_view();
        let x = match cs.pop() {
            Some(x) => x,
            None => {
                proof {
                    assert(false);
                }
                unreached()
            },
        };
        proof {
            assert(x == prev[n - 1]);
            assert(prevdeep[n - 1] == prev[n - 1].deep_view());
            assert(csv.take(n)[n - 1] == csv[n - 1]);
            assert(x@ == csv[n - 1]);
            assert(cs.deep_view() =~= csv.take(n - 1));
            assert(csv.skip(n - 1)[0] == csv[n - 1]);
            assert(csv.skip(n - 1).drop_first() =~= csv.skip(n));
        }
        insert_sorted_exec(&mut acc, x);
    }
    proof {
        assert(csv.skip(0) =~= csv);
    }
    acc
}

/// Turns the ordered contributions into segments.
fn segments_from(cs: &Vec<Contrib>) -> (r: Vec<Segment>)
    ensures
        r.deep_view() == cs.deep_view().map_values(|c: ContribV| segment_of(c)),
{
    let ghost csv = cs.deep_view();
    let mut out: Vec<Segment> = Vec::new();
    let mut i: usize = 0;
    while i < cs.len()
        invariant
            i <= cs.len(),
            csv == cs.deep_view(),
            out.deep_view() == csv.take(i as int).map_values(|c: ContribV| segment_of(c)),
        decreases cs.len() - i,
    {
        proof {
            assert(csv.take(i + 1 as int) =~= csv.take(i as int).push(csv[i as int]));
            lemma_map_push(csv.take(i as int), csv[i as int], |c: ContribV| segment_of(c));
        }
        out.push(
            Segment {
                struct_field_name: cs[i].field_name.clone(),
                prefix: clone_opt_string(&cs[i].prefix),
            },
        );
        i += 1;
    }
    proof {
        assert(csv.take(cs.len() as int) =~= csv);
    }
    out
}

/// Resolves the ordered contributions of one key or group into its segment
/// list: sorted by explicit order when two or more contribute.
fn resolve_segments(cs: Vec<Contrib>) -> (r: Vec<Segment>)
    ensures
        r.deep_view() == segments_of(cs.deep_view()),
{
    if cs.len() >= 2 {
        let sorted = sort_contribs_exec(cs);
        segments_from(&sorted)
    } else {
        segments_from(&cs)
    }
}

//
// ─── EXEC GROUP MACHINERY ───────────────────────────────────────────────────
//
/// Whether one of the strings in `v` reads as `s` does.
fn contains_string(v: &Vec<String>, s: &String) -> (r: bool)
    ensures
        r == v.deep_view().contains(s@),
{
    let mut i: usize = 0;
    while i < v.len()
        invariant
            i <= v.len(),
            forall|k: int| 0 <= k < i ==> v.deep_view()[k] != s@,
        decreases v.len() - i,
    {
        if v[i] == *s {
            proof {
                assert(v.deep_view()[i as int] == s@);
            }
            return true;
        }
        i += 1;
    }
    false
}

/// Keeps the first occurrence of every name, in order.
fn dedup_first_exec(names: &Vec<String>) -> (r: Vec<String>)
    ensures
        r.deep_view() == dedup_first(names.deep_view()),
{
    let ghost nsv = names.deep_view();
    let mut out: Vec<String> = Vec::new();
    let mut i: usize = 0;
    while i < names.len()
        invariant
            i <= names.len(),
            nsv == names.deep_view(),
            out.deep_view() == dedup_first(nsv.take(i as int)),
        decreases names.len() - i,
    {
        proof {
            assert(nsv.take(i + 1 as int).drop_last() =~= nsv.take(i as int));
            assert(nsv.take(i + 1 as int).last() == nsv[i as int]);
        }
        if !contains_string(&out, &names[i]) {
            out.push(names[i].clone());
        }
        i += 1;
    }
    proof {
        assert(nsv.take(names.len() as int) =~= nsv);
    }
    out
}

/// Copies a struct-level non-key declaration.
fn clone_nk_decl(d: &NkStructDecl) -> (r: NkStructDecl)
    ensures
        r == *d,
{
    NkStructDecl {
        name: d.name.clone(),
        value_prefix: clone_opt_string(&d.value_prefix),
        value_suffix: clone_opt_string(&d.value_suffix),
        static_value: clone_opt_string(&d.static_value),
    }
}

/// Finds the struct-level declaration seeding the group named `g`; with
/// several declarations of one name the last wins.
fn find_nk_decl_exec(nks: &Vec<NkStructDecl>, g: &String) -> (r: Option<NkStructDecl>)
    ensures
        r is Some <==> find_nk_decl(nks.deep_view(), g@) is Some,
        r is Some ==> r->0@ == find_nk_decl(nks.deep_view(), g@)->0,
{
    let ghost dv = nks.deep_view();
    let mut found: Option<usize> = None;
    let mut i: usize = 0;
    while i < nks.len()
        invariant
            i <= nks.len(),
            dv == nks.deep_view(),
            match found {
                None => find_nk_decl(dv.take(i as int), g@) is None,
                Some(j) => j < i && find_nk_decl(dv.take(i as int), g@) == Some(dv[j as int]),
            },
        decreases nks.len() - i,
    {
        proof {
            assert(dv.take(i + 1 as int).drop_last() =~= dv.take(i as int));
            assert(dv.take(i + 1 as int).last() == dv[i as int]);
        }
        if nks[i].name == *g {
            found = Some(i);
        }
        i += 1;
    }
    proof {
        assert(dv.take(nks.len() as int) =~= dv);
    }
    match found {
        Some(j) => Some(clone_nk_decl(&nks[j])),
        None => None,
    }
}

/// Copies one contribution.
fn clone_contrib(c: &Contrib) -> (r: Contrib)
    ensures
        r == *c,
{
    Contrib {
        field_name: c.field_name.clone(),
        prefix: clone_opt_string(&c.prefix),
        order: c.order,
    }
}

/// Collects the contributions aimed at the group named `g`, in declaration
/// order.
fn group_contribs_exec(ncs: &Vec<NkContrib>, g: &String) -> (r: Vec<Contrib>)
    ensures
        r.deep_view() == group_contribs(ncs.deep_view(), g@),
{
    let ghost nv = ncs.deep_view();
    let ghost pred = |c: NkContribV| c.group_name == g@;
    let mut out: Vec<Contrib> = Vec::new();
    let mut i: usize = 0;
    while i < ncs.len()
        invariant
            i <= ncs.len(),
            nv == ncs.deep_view(),
            pred == (|c: NkContribV| c.group_name == g@),
            out.deep_view() == nv.take(i as int).filter(pred).map_values(
                |c: NkContribV| c.part,
            ),
        decreases ncs.len() - i,
    {
        proof {
            assert(nv.take(i + 1 as int) =~= nv.take(i as int).push(nv[i as int]));
            lemma_filter_push(nv.take(i as int), nv[i as int], pred);
            lemma_map_push(nv.take(i as int).filter(pred), nv[i as int], |c: NkContribV| c.part);
        }
        if ncs[i].group_name == *g {
            out.push(clone_contrib(&ncs[i].part));
        }
        i += 1;
    }
    proof {
        assert(nv.take(ncs.len() as int) =~= nv);
    }
    out
}

//
// ─── THE EXEC BUILD ─────────────────────────────────────────────────────────
//
/// The view of a build result: the view of whichever side it holds.
pub open spec fn schema_result_view(r: Result<SchemaV2, SchemaError>) -> Result<
    SchemaV2V,
    SchemaErrorV,
> {
    match r {
        Ok(s) => Ok(s@),
        Err(e) => Err(e@),
    }
}

/// The name under which an order complaint about the partition key is
/// reported.
fn pk_report_name_exec(decl: &EntityTypeDecl) -> (r: String)
    ensures
        r@ == pk_report_name(decl@),
{
    match &decl.pk {
        Some(p) => p.name.clone(),
        None => String::from_str("pk"),
    }
}

/// The name under which an order complaint about the sort key is reported.
fn sk_report_name_exec(decl: &EntityTypeDecl) -> (r: String)
    ensures
        r@ == sk_report_name(decl@),
{
    match &decl.sk {
        Some(s) => s.name.clone(),
        None => String::from_str("sk"),
    }
}

/// Collects every non-key group name, each once: struct-level declarations
/// first in declared order, then targets of undeclared groups in order of
/// first contribution.
fn collect_group_names(decl: &EntityTypeDecl, ncs: &Vec<NkContrib>) -> (r: Vec<String>)
    requires
        ncs.deep_view() == nk_contribs(decl@.fields),
    ensures
        r.deep_view() == group_names(decl@),
{
    let ghost d = decl@;
    let ghost first = d.nks.map_values(|n: NkStructDeclV| n.name);
    let ghost second = nk_contribs(d.fields).map_values(|c: NkContribV| c.group_name);
    let mut all: Vec<String> = Vec::new();
    let mut i: usize = 0;
    while i < decl.nks.len()
        invariant
            i <= decl.nks.len(),
            d == decl@,
            first == d.nks.map_values(|n: NkStructDeclV| n.name),
            all.deep_view() == d.nks.take(i as int).map_values(|n: NkStructDeclV| n.name),
        decreases decl.nks.len() - i,
    {
        proof {
            assert(d.nks.take(i + 1 as int) =~= d.nks.take(i as int).push(d.nks[i as int]));
            lemma_map_push(d.nks.take(i as int), d.nks[i as int], |n: NkStructDeclV| n.name);
        }
        all.push(decl.nks[i].name.clone());
        i += 1;
    }
    proof {
        assert(d.nks.take(decl.nks.len() as int) =~= d.nks);
        assert(all.deep_view() =~= first + second.take(0));
    }
    let mut j: usize = 0;
    while j < ncs.len()
        invariant
            j <= ncs.len(),
            d == decl@,
            first == d.nks.map_values(|n: NkStructDeclV| n.name),
            second == nk_contribs(d.fields).map_values(|c: NkContribV| c.group_name),
            ncs.deep_view() == nk_contribs(d.fields),
            all.deep_view() == first + second.take(j as int),
        decreases ncs.len() - j,
    {
        proof {
            assert(second.take(j + 1 as int) =~= second.take(j as int).push(second[j as int]));
            assert(second[j as int] == ncs.deep_view()[j as int].group_name);
            assert((first + second.take(j + 1 as int)) =~= (first + second.take(j as int)).push(
                second[j as int],
            ));
        }
        all.push(ncs[j].group_name.clone());
        j += 1;
    }
    proof {
        assert(second.take(ncs.len() as int) =~= second);
    }
    dedup_first_exec(&all)
}

/// Resolves the non-key group named `g`.
fn build_nk_def(
    decl: &EntityTypeDecl,
    ncs: &Vec<NkContrib>,
    g: &String,
) -> (r: Result<KeyDef<AttributeValue>, SchemaError>)
    requires
        ncs.deep_view() == nk_contribs(decl@.fields),
    ensures
        match (r, nk_def(decl@, g@)) {
            (Ok(k), Ok(kv)) => k@ == kv,
            (Err(e), Err(ev)) => e@ == ev,
            _ => false,
        },
{
    let cs = group_contribs_exec(ncs, g);
    match find_nk_decl_exec(&decl.nks, g) {
        Some(dd) => {
            match dd.static_value {
                Some(v) => {
                    if cs.len() > 0 {
                        let mut field_names: Vec<String> = Vec::new();
                        let mut i: usize = 0;
                        while i < cs.len()
                            invariant
                                i <= cs.len(),
                                field_names.deep_view() == cs.deep_view().take(
                                    i as int,
                                ).map_values(|c: ContribV| c.field_name),
                            decreases cs.len() - i,
                        {
                            proof {
                                assert(cs.deep_view().take(i + 1 as int) =~= cs.deep_view().take(
                                    i as int,
                                ).push(cs.deep_view()[i as int]));
                                lemma_map_push(
                                    cs.deep_view().take(i as int),
                                    cs.deep_view()[i as int],
                                    |c: ContribV| c.field_name,
                                );
                            }
                            field_names.push(cs[i].field_name.clone());
                            i += 1;
                        }
                        proof {
                            assert(cs.deep_view().take(cs.len() as int) =~= cs.deep_view());
                        }
                        Err(
                            SchemaError::StaticSegmentConflict {
                                group_name: g.clone(),
                                field_names,
                            },
                        )
                    } else {
                        Ok(
                            KeyDef {
                                attribute_name: g.clone(),
                                attribute_value: AttributeValue::Static(v),
                            },
                        )
                    }
                },
                None => Ok(
                    KeyDef {
                        attribute_name: g.clone(),
                        attribute_value: AttributeValue::Composite(
                            CompositeAttributeValue {
                                segments: resolve_segments(cs),
                                prefix: dd.value_prefix,
                                suffix: dd.value_suffix,
                            },
                        ),
                    },
                ),
            }
        },
        None => Ok(
            KeyDef {
                attribute_name: g.clone(),
                attribute_value: AttributeValue::Composite(
                    CompositeAttributeValue {
                        segments: resolve_segments(cs),
                        prefix: None,
                        suffix: None,
                    },
                ),
            },
        ),
    }
}

/// Resolves a raw entity-type declaration into a canonical schema, or
/// rejects it with the first schema-definition error; the result is exactly
/// what [`spec_build`] assigns to the declaration. The once-per-group
/// invariant of each field is the caller's to establish first, with
/// [`crate::decl::EntityTypeDecl::well_formed`].
#[verifier::loop_isolation(false)]
pub fn build_schema(decl: &EntityTypeDecl) -> (r: Result<SchemaV2, SchemaError>)
    ensures
        schema_result_view(r) == spec_build(decl@),
{
    let ghost d = decl@;
    let pkcs = collect_pk_contribs(&decl.fields);
    let skcs = collect_sk_contribs(&decl.fields);
    let nkcs = collect_nk_contribs(&decl.fields);
    let gnames = collect_group_names(decl, &nkcs);
    let ghost gn = group_names(d);

    // Order complaints come first, over every key and group.
    if let Some(field_names) = check_order(&pkcs) {
        return Err(
            SchemaError::MissingOrder { key_name: pk_report_name_exec(decl), field_names },
        );
    }
    if let Some(field_names) = check_order(&skcs) {
        return Err(
            SchemaError::MissingOrder { key_name: sk_report_name_exec(decl), field_names },
        );
    }
    let mut i: usize = 0;
    proof {
        assert(gn.skip(0) =~= gn);
    }
    while i < gnames.len()
        invariant
            i <= gnames.len(),
            d == decl@,
            gn == group_names(d),
            gnames.deep_view() == gn,
            nkcs.deep_view() == nk_contribs(d.fields),
            first_group_order_problem(d, gn) == first_group_order_problem(d, gn.skip(i as int)),
        decreases gnames.len() - i,
    {
        proof {
            assert(gn.skip(i as int)[0] == gn[i as int]);
            assert(gn.skip(i as int).drop_first() =~= gn.skip(i + 1 as int));
        }
        let cs = group_contribs_exec(&nkcs, &gnames[i]);
        if let Some(field_names) = check_order(&cs) {
            proof {
                assert(cs.deep_view() == group_contribs(nk_contribs(d.fields), gn[i as int]));
                assert(first_group_order_problem(d, gn.skip(i as int)) == Some(
                    SchemaErrorV::MissingOrder {
                        key_name: gn[i as int],
                        field_names: order_offenders(cs.deep_view()),
                    },
                ));
                assert(gnames@[i as int]@ == gn[i as int]);
                assert(first_order_problem(d) == first_group_order_problem(d, gn));
                assert(spec_build(d) == Err::<SchemaV2V, SchemaErrorV>(
                    SchemaErrorV::MissingOrder {
                        key_name: gn[i as int],
                        field_names: order_offenders(cs.deep_view()),
                    },
                ));
            }
            return Err(SchemaError::MissingOrder { key_name: gnames[i].clone(), field_names });
        }
        i += 1;
    }
    proof {
        assert(gn.skip(gnames.len() as int) =~= Seq::<Seq<char>>::empty());
        assert(first_order_problem(d) is None);
    }

    // Partition key resolution.
    let partition_key_def = match &decl.pk {
        Some(p) => {
            KeyDef {
                attribute_name: p.name.clone(),
                attribute_value: CompositeAttributeValue {
                    segments: resolve_segments(pkcs),
                    prefix: clone_opt_string(&p.value_prefix),
                    suffix: clone_opt_string(&p.value_suffix),
                },
            }
        },
        None => {
            if pkcs.len() != 1 {
                return Err(
                    SchemaError::AmbiguousKeyOwnership {
                        key_name: String::from_str("pk"),
                        contributor_count: pkcs.len(),
                    },
                );
            }
            proof {
                assert(pk_contribs(d.fields).map_values(|c: ContribV| segment_of(c)) =~= seq![
                    segment_of(pk_contribs(d.fields)[0]),
                ]);
            }
            KeyDef {
                attribute_name: pkcs[0].field_name.clone(),
                attribute_value: CompositeAttributeValue {
                    segments: single_segment_of(&pkcs),
                    prefix: None,
                    suffix: None,
                },
            }
        },
    };
    proof {
        assert(build_pk(d) is Ok && partition_key_def@ == build_pk(d)->Ok_0);
    }

    // Sort key resolution.
    let sort_key_def = match &decl.sk {
        Some(s) => {
            match &s.static_value {
                Some(v) => {
                    if skcs.len() > 0 {
                        let mut field_names: Vec<String> = Vec::new();
                        let mut k: usize = 0;
                        while k < skcs.len()
                            invariant
                                k <= skcs.len(),
                                field_names.deep_view() == skcs.deep_view().take(
                                    k as int,
                                ).map_values(|c: ContribV| c.field_name),
                            decreases skcs.len() - k,
                        {
                            proof {
                                assert(skcs.deep_view().take(k + 1 as int)
                                    =~= skcs.deep_view().take(k as int).push(
                                    skcs.deep_view()[k as int],
                                ));
                                lemma_map_push(
                                    skcs.deep_view().take(k as int),
                                    skcs.deep_view()[k as int],
                                    |c: ContribV| c.field_name,
                                );
                            }
                            field_names.push(skcs[k].field_name.clone());
                            k += 1;
                        }
                        proof {
                            assert(skcs.deep_view().take(skcs.len() as int) =~= skcs.deep_view());
                        }
                        return Err(
                            SchemaError::StaticSegmentConflict {
                                group_name: s.name.clone(),
                                field_names,
                            },
                        );
                    }
                    Some(
                        KeyDef {
                            attribute_name: s.name.clone(),
                            attribute_value: AttributeValue::Static(v.clone()),
                        },
                    )
                },
                None => Some(
                    KeyDef {
                        attribute_name: s.name.clone(),
                        attribute_value: AttributeValue::Composite(
                            CompositeAttributeValue {
                                segments: resolve_segments(skcs),
                                prefix: clone_opt_string(&s.value_prefix),
                                suffix: clone_opt_string(&s.value_suffix),
                            },
                        ),
                    },
                ),
            }
        },
        None => {
            if skcs.len() > 1 {
                return Err(
                    SchemaError::AmbiguousKeyOwnership {
                        key_name: String::from_str("sk"),
                        contributor_count: skcs.len(),
                    },
                );
            }
            if skcs.len() == 1 {
                proof {
                    assert(sk_contribs(d.fields).map_values(|c: ContribV| segment_of(c)) =~= seq![
                        segment_of(sk_contribs(d.fields)[0]),
                    ]);
                }
                Some(
                    KeyDef {
                        attribute_name: skcs[0].field_name.clone(),
                        attribute_value: AttributeValue::Composite(
                            CompositeAttributeValue {
                                segments: single_segment_of(&skcs),
                                prefix: None,
                                suffix: None,
                            },
                        ),
                    },
                )
            } else {
                None
            }
        },
    };
    proof {
        assert(build_sk(d) is Ok && match (sort_key_def, build_sk(d)->Ok_0) {
            (Some(k), Some(kv)) => k@ == kv,
            (None, None) => true,
            _ => false,
        });
    }

    // Non-key groups, in name order.
    let mut non_key_defs: Vec<KeyDef<AttributeValue>> = Vec::new();
    let mut j: usize = 0;
    proof {
        assert(gn.skip(0) =~= gn);
    }
    while j < gnames.len()
        invariant
            j <= gnames.len(),
            d == decl@,
            gn == group_names(d),
            gnames.deep_view() == gn,
            nkcs.deep_view() == nk_contribs(d.fields),
            nk_defs(d, gn) == match nk_defs(d, gn.skip(j as int)) {
                Err(e) => Err::<Seq<KeyDefV<AttributeValueV>>, SchemaErrorV>(e),
                Ok(rest) => Ok(non_key_defs.deep_view() + rest),
            },
        decreases gnames.len() - j,
    {
        proof {
            assert(gn.skip(j as int)[0] == gn[j as int]);
            assert(gn.skip(j as int).drop_first() =~= gn.skip(j + 1 as int));
        }
        let ghost prev = non_key_defs.deep_view();
        match build_nk_def(decl, &nkcs, &gnames[j]) {
            Err(e) => {
                proof {
                    assert(nk_def(d, gn.skip(j as int)[0]) == Err::<
                        KeyDefV<AttributeValueV>,
                        SchemaErrorV,
                    >(e@));
                    assert(nk_defs(d, gn.skip(j as int)) == Err::<
                        Seq<KeyDefV<AttributeValueV>>,
                        SchemaErrorV,
                    >(e@));
                    assert(spec_build(d) == Err::<SchemaV2V, SchemaErrorV>(e@));
                }
                return Err(e);
            },
            Ok(k) => {
                proof {
                    assert(nk_def(d, gn.skip(j as int)[0]) == Ok::<
                        KeyDefV<AttributeValueV>,
                        SchemaErrorV,
                    >(k@));
                    if nk_defs(d, gn.skip(j + 1 as int)) is Ok {
                        let rest = nk_defs(d, gn.skip(j + 1 as int))->Ok_0;
                        assert((prev + (seq![k@] + rest)) =~= (prev.push(k@) + rest));
                    }
                }
                non_key_defs.push(k);
                proof {
                    assert(non_key_defs.deep_view() =~= prev.push(k@));
                }
            },
        }
        j += 1;
    }
    proof {
        assert(gn.skip(gnames.len() as int) =~= Seq::<Seq<char>>::empty());
        assert(nk_defs(d, gn) == Ok::<Seq<KeyDefV<AttributeValueV>>, SchemaErrorV>(
            non_key_defs.deep_view() + Seq::empty(),
        ));
        assert(non_key_defs.deep_view() + Seq::<KeyDefV<AttributeValueV>>::empty()
            =~= non_key_defs.deep_view());
    }

    let schema = SchemaV2 { partition_key_def, sort_key_def, non_key_defs };
    proof {
        assert(schema@ =~~= spec_build(d)->Ok_0);
    }
    Ok(schema)
}

/// Resolves the segments of a single-contributor key without consuming the
/// contribution vector.
fn single_segment_of(cs: &Vec<Contrib>) -> (r: Vec<Segment>)
    requires
        cs.len() == 1,
    ensures
        r.deep_view() == seq![segment_of(cs.deep_view()[0])],
{
    let r = segments_from(cs);
    proof {
        assert(cs.deep_view().map_values(|c: ContribV| segment_of(c)) =~= seq![
            segment_of(cs.deep_view()[0]),
        ]);
    }
    r
}

} // verus!
