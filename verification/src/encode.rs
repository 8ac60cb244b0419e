//! The encoder: a pure function from a resolved schema and an entity
//! instance to the flat named-attribute map of strings that the storage
//! client consumes. Encoding never fails and never mutates the schema.

use vstd::prelude::*;
use crate::DELIMITER;
use crate::keys::{
    AttributeValue, AttributeValueV, CompositeAttributeValue, CompositeAttributeValueV, KeyDefV,
    SchemaV2, SchemaV2V, SegmentV,
};

verus! {

/// One named string: a field of an entity instance handed to the encoder,
/// or one attribute of the encoded output.
#[derive(Debug, Clone)]
pub struct NamedValue {
    pub name: String,
    pub value: String,
}

/// Spec view of a [`NamedValue`].
#[verifier::ext_equal]
pub struct NamedValueV {
    pub name: Seq<char>,
    pub value: Seq<char>,
}

impl View for NamedValue {
    type V = NamedValueV;

    open spec fn view(&self) -> NamedValueV {
        NamedValueV { name: self.name@, value: self.value@ }
    }
}

impl DeepView for NamedValue {
    type V = NamedValueV;

    open spec fn deep_view(&self) -> NamedValueV {
        self.view()
    }
}

/// The field-accessor table of one entity instance: each field's name bound
/// to its rendered string value.
#[derive(Debug, Clone)]
pub struct EntityInstance {
    pub fields: Vec<NamedValue>,
}

impl View for EntityInstance {
    type V = Seq<NamedValueV>;

    open spec fn view(&self) -> Seq<NamedValueV> {
        self.fields.deep_view()
    }
}

/// The encoded output: attribute names bound to their string values, in the
/// order the schema lists them — the partition key, then the sort key if
/// any, then the non-key groups.
#[derive(Debug, Clone)]
pub struct AttributeMap {
    pub entries: Vec<NamedValue>,
}

impl View for AttributeMap {
    type V = Seq<NamedValueV>;

    open spec fn view(&self) -> Seq<NamedValueV> {
        self.entries.deep_view()
    }
}

/// The value bound to the first entry of the given name, if one is there.
pub open spec fn lookup(fs: Seq<NamedValueV>, name: Seq<char>) -> Option<Seq<char>>
    decreases fs.len(),
{
    if fs.len() == 0 {
        None
    } else if fs[0].name == name {
        Some(fs[0].value)
    } else {
        lookup(fs.drop_first(), name)
    }
}

/// The string a field reference contributes: the named field's value, or
/// the empty string where the instance carries no field of that name.
pub open spec fn val_of(fs: Seq<NamedValueV>, name: Seq<char>) -> Seq<char> {
    match lookup(fs, name) {
        Some(v) => v,
        None => Seq::empty(),
    }
}

/// Entries read as a name-to-value map; a later entry overrides an earlier
/// one of the same name.
pub open spec fn map_of(fs: Seq<NamedValueV>) -> Map<Seq<char>, Seq<char>>
    decreases fs.len(),
{
    if fs.len() == 0 {
        Map::empty()
    } else {
        map_of(fs.drop_last()).insert(fs.last().name, fs.last().value)
    }
}

//
// ─── TOKENS AND JOINING ─────────────────────────────────────────────────────
//
/// An optional literal as zero or one token.
pub open spec fn opt_tokens(o: Option<Seq<char>>) -> Seq<Seq<char>> {
    match o {
        Some(s) => seq![s],
        None => Seq::empty(),
    }
}

/// The tokens one segment contributes: its prefix, if declared, then the
/// referenced field's value.
pub open spec fn segment_tokens(seg: SegmentV, inst: Seq<NamedValueV>) -> Seq<Seq<char>> {
    opt_tokens(seg.prefix) + seq![val_of(inst, seg.struct_field_name)]
}

/// The tokens of a whole composite value, in order: the overall prefix if
/// declared, each segment's tokens, the overall suffix if declared.
pub open spec fn composite_tokens(c: CompositeAttributeValueV, inst: Seq<NamedValueV>) -> Seq<
    Seq<char>,
> {
    opt_tokens(c.prefix) + c.segments.map_values(|s: SegmentV| segment_tokens(s, inst)).flatten()
        + opt_tokens(c.suffix)
}

/// Tokens joined with the delimiter between each adjacent pair.
pub open spec fn join(parts: Seq<Seq<char>>, d: char) -> Seq<char>
    decreases parts.len(),
{
    if parts.len() == 0 {
        Seq::empty()
    } else if parts.len() == 1 {
        parts[0]
    } else {
        parts[0] + seq![d] + join(parts.drop_first(), d)
    }
}

/// The encoded string of a composite value.
pub open spec fn composite_value(c: CompositeAttributeValueV, inst: Seq<NamedValueV>) -> Seq<
    char,
> {
    join(composite_tokens(c, inst), DELIMITER)
}

/// The encoded string of an attribute value: a static literal verbatim, or
/// the joined composite.
pub open spec fn attr_value(v: AttributeValueV, inst: Seq<NamedValueV>) -> Seq<char> {
    match v {
        AttributeValueV::Static(s) => s,
        AttributeValueV::Composite(c) => composite_value(c, inst),
    }
}

/// What encoding yields, entry by entry: the partition key, then the sort
/// key if the schema has one, then one entry per non-key group, each bound
/// to its encoded string.
pub open spec fn spec_encode(s: SchemaV2V, inst: Seq<NamedValueV>) -> Seq<NamedValueV> {
    seq![
        NamedValueV {
            name: s.partition_key_def.attribute_name,
            value: composite_value(s.partition_key_def.attribute_value, inst),
        },
    ] + (match s.sort_key_def {
        Some(k) => seq![
            NamedValueV { name: k.attribute_name, value: attr_value(k.attribute_value, inst) },
        ],
        None => Seq::empty(),
    }) + s.non_key_defs.map_values(
        |k: KeyDefV<AttributeValueV>| NamedValueV {
            name: k.attribute_name,
            value: attr_value(k.attribute_value, inst),
        },
    )
}

//
// ─── EXEC ENCODING ──────────────────────────────────────────────────────────
//
impl EntityInstance {
    /// The rendered value of the named field, or the empty string where the
    /// instance carries no field of that name.
    pub fn value_of(&self, name: &String) -> (r: String)
        ensures
            r@ == val_of(self@, name@),
    {
        let ghost fsv = self@;
        let mut i: usize = 0;
        proof {
            assert(fsv.skip(0) =~= fsv);
        }
        while i < self.fields.len()
            invariant
                i <= self.fields.len(),
                fsv == self@,
                lookup(fsv, name@) == lookup(fsv.skip(i as int), name@),
            decreases self.fields.len() - i,
        {
            proof {
                assert(fsv.skip(i as int)[0] == fsv[i as int]);
                assert(fsv.skip(i as int).drop_first() =~= fsv.skip(i + 1 as int));
            }
            if self.fields[i].name == *name {
                return self.fields[i].value.clone();
            }
            i += 1;
        }
        proof {
            assert(fsv.skip(self.fields.len() as int) =~= Seq::<NamedValueV>::empty());
        }
        String::new()
    }
}

impl AttributeMap {
    /// The value stored under the given attribute name, if one is there.
    pub fn get(&self, name: &String) -> (r: Option<String>)
        ensures
            match r {
                Some(v) => lookup(self@, name@) == Some(v@),
                None => lookup(self@, name@) is None,
            },
    {
        let ghost esv = self@;
        let mut i: usize = 0;
        proof {
            assert(esv.skip(0) =~= esv);
        }
        while i < self.entries.len()
            invariant
                i <= self.entries.len(),
                esv == self@,
                lookup(esv, name@) == lookup(esv.skip(i as int), name@),
            decreases self.entries.len() - i,
        {
            proof {
                assert(esv.skip(i as int)[0] == esv[i as int]);
                assert(esv.skip(i as int).drop_first() =~= esv.skip(i + 1 as int));
            }
            if self.entries[i].name == *name {
                return Some(self.entries[i].value.clone());
            }
            i += 1;
        }
        proof {
            assert(esv.skip(self.entries.len() as int) =~= Seq::<NamedValueV>::empty());
        }
        None
    }

    /// How many attributes the map holds.
    pub fn len(&self) -> (r: usize)
        ensures
            r == self@.len(),
    {
        self.entries.len()
    }
}

/// Joining a sequence of parts extended by one more part appends a
/// delimiter and the new part, unless there was nothing yet.
proof fn lemma_join_push(parts: Seq<Seq<char>>, x: Seq<char>, d: char)
    ensures
        join(parts.push(x), d) == if parts.len() == 0 {
            x
        } else {
            join(parts, d) + seq![d] + x
        },
    decreases parts.len(),
{
    if parts.len() == 0 {
        assert(parts.push(x).len() == 1);
        assert(join(parts.push(x), d) == parts.push(x)[0]);
    } else {
        assert(parts.push(x).drop_first() =~= parts.drop_first().push(x));
        lemma_join_push(parts.drop_first(), x, d);
        if parts.len() == 1 {
            assert(join(parts, d) == parts[0]);
            assert(join(parts.push(x), d) =~= join(parts, d) + seq![d] + x);
        } else {
            assert(join(parts.push(x), d) =~= parts[0] + seq![d] + (join(parts.drop_first(), d)
                + seq![d] + x));
            assert(parts[0] + seq![d] + (join(parts.drop_first(), d) + seq![d] + x) =~= (parts[0]
                + seq![d] + join(parts.drop_first(), d)) + seq![d] + x);
        }
    }
}

/// Joins the parts with the delimiter between each adjacent pair.
#[verifier::loop_isolation(false)]
pub fn join_with_delimiter(parts: &Vec<String>) -> (r: String)
    ensures
        r@ == join(parts.deep_view(), DELIMITER),
{
    let ghost pdv = parts.deep_view();
    proof {
        reveal_strlit("#");
        assert("#"@ =~= seq![DELIMITER]);
    }
    if parts.len() == 0 {
        return String::new();
    }
    let mut s = parts[0].clone();
    proof {
        assert(pdv.take(1) =~= seq![pdv[0]]);
        assert(join(pdv.take(1), DELIMITER) == pdv[0]);
    }
    let mut i: usize = 1;
    while i < parts.len()
        invariant
            1 <= i <= parts.len(),
            pdv == parts.deep_view(),
            pdv.len() >= 1,
            s@ == join(pdv.take(i as int), DELIMITER),
        decreases parts.len() - i,
    {
        proof {
            assert(pdv.take(i + 1 as int) =~= pdv.take(i as int).push(pdv[i as int]));
            lemma_join_push(pdv.take(i as int), pdv[i as int], DELIMITER);
            assert(pdv.take(i as int).len() >= 1);
        }
        s.append("#");
        s.append(parts[i].as_str());
        proof {
            assert(s@ =~= join(pdv.take(i + 1 as int), DELIMITER));
        }
        i += 1;
    }
    proof {
        assert(pdv.take(parts.len() as int) =~= pdv);
    }
    s
}

/// Collects the tokens of one composite value, in order.
#[verifier::loop_isolation(false)]
fn composite_tokens_exec(c: &CompositeAttributeValue, entity: &EntityInstance) -> (r: Vec<String>)
    ensures
        r.deep_view() == composite_tokens(c@, entity@),
{
    let ghost cv = c@;
    let ghost inst = entity@;
    let ghost segtok = |s: SegmentV| segment_tokens(s, inst);
    let mut tokens: Vec<String> = Vec::new();
    if let Some(p) = &c.prefix {
        tokens.push(p.clone());
    }
    proof {
        assert(tokens.deep_view() =~= opt_tokens(cv.prefix) + cv.segments.take(0).map_values(
            segtok,
        ).flatten());
    }
    let mut i: usize = 0;
    while i < c.segments.len()
        invariant
            i <= c.segments.len(),
            tokens.deep_view() =~= opt_tokens(cv.prefix) + cv.segments.take(i as int).map_values(
                segtok,
            ).flatten(),
        decreases c.segments.len() - i,
    {
        let ghost base = tokens.deep_view();
        proof {
            assert(cv.segments.take(i + 1 as int) =~= cv.segments.take(i as int).push(
                cv.segments[i as int],
            ));
            crate::builder::lemma_map_push(
                cv.segments.take(i as int),
                cv.segments[i as int],
                segtok,
            );
            cv.segments.take(i as int).map_values(segtok).lemma_flatten_push(
                segtok(cv.segments[i as int]),
            );
        }
        let seg = &c.segments[i];
        if let Some(p) = &seg.prefix {
            tokens.push(p.clone());
        }
        tokens.push(entity.value_of(&seg.struct_field_name));
        proof {
            assert(cv.segments[i as int] == c.segments@[i as int]@);
            assert(tokens.deep_view() =~= base + segment_tokens(cv.segments[i as int], inst));
            assert(tokens.deep_view() =~= opt_tokens(cv.prefix) + cv.segments.take(
                i + 1 as int,
            ).map_values(segtok).flatten());
        }
        i += 1;
    }
    proof {
        assert(cv.segments.take(c.segments.len() as int) =~= cv.segments);
    }
    if let Some(sfx) = &c.suffix {
        tokens.push(sfx.clone());
    }
    proof {
        assert(tokens.deep_view() =~= composite_tokens(cv, inst));
    }
    tokens
}

/// Encodes one composite value: its tokens joined with the delimiter.
fn composite_value_exec(c: &CompositeAttributeValue, entity: &EntityInstance) -> (r: String)
    ensures
        r@ == composite_value(c@, entity@),
{
    let tokens = composite_tokens_exec(c, entity);
    join_with_delimiter(&tokens)
}

/// Encodes one attribute value: a static literal verbatim, or the joined
/// composite.
fn attr_value_exec(v: &AttributeValue, entity: &EntityInstance) -> (r: String)
    ensures
        r@ == attr_value(v@, entity@),
{
    match v {
        AttributeValue::Static(s) => s.clone(),
        AttributeValue::Composite(c) => composite_value_exec(c, entity),
    }
}

/// Flattens an entity instance into its named-attribute map under the given
/// schema: the partition-key string, the sort-key string if the schema has
/// one, and one string per non-key group, exactly as [`spec_encode`] lays
/// them out. Encoding is pure: it never fails, and the same schema and
/// instance always yield the same map.
#[verifier::loop_isolation(false)]
pub fn encode(schema: &SchemaV2, entity: &EntityInstance) -> (r: AttributeMap)
    ensures
        r@ == spec_encode(schema@, entity@),
{
    let ghost sv = schema@;
    let ghost inst = entity@;
    let mut entries: Vec<NamedValue> = Vec::new();
    entries.push(
        NamedValue {
            name: schema.partition_key_def.attribute_name.clone(),
            value: composite_value_exec(&schema.partition_key_def.attribute_value, entity),
        },
    );
    if let Some(sk) = &schema.sort_key_def {
        entries.push(
            NamedValue {
                name: sk.attribute_name.clone(),
                value: attr_value_exec(&sk.attribute_value, entity),
            },
        );
    }
    let ghost head = seq![
        NamedValueV {
            name: sv.partition_key_def.attribute_name,
            value: composite_value(sv.partition_key_def.attribute_value, inst),
        },
    ] + (match sv.sort_key_def {
        Some(k) => seq![
            NamedValueV { name: k.attribute_name, value: attr_value(k.attribute_value, inst) },
        ],
        None => Seq::<NamedValueV>::empty(),
    });
    proof {
        assert(entries.deep_view() =~= head);
    }
    let ghost nkmap = |k: KeyDefV<AttributeValueV>| NamedValueV {
        name: k.attribute_name,
        value: attr_value(k.attribute_value, inst),
    };
    let mut i: usize = 0;
    while i < schema.non_key_defs.len()
        invariant
            i <= schema.non_key_defs.len(),
            entries.deep_view() =~= head + sv.non_key_defs.take(i as int).map_values(nkmap),
        decreases schema.non_key_defs.len() - i,
    {
        proof {
            assert(sv.non_key_defs.take(i + 1 as int) =~= sv.non_key_defs.take(i as int).push(
                sv.non_key_defs[i as int],
            ));
            crate::builder::lemma_map_push(
                sv.non_key_defs.take(i as int),
                sv.non_key_defs[i as int],
                nkmap,
            );
            assert(sv.non_key_defs[i as int] == schema.non_key_defs@[i as int]@);
        }
        let nk = &schema.non_key_defs[i];
        let ghost base = entries.deep_view();
        let entry = NamedValue {
            name: nk.attribute_name.clone(),
            value: attr_value_exec(&nk.attribute_value, entity),
        };
        proof {
            assert(entry@ == nkmap(sv.non_key_defs[i as int]));
            assert(sv.non_key_defs.take(i + 1 as int).map_values(nkmap)
                =~= sv.non_key_defs.take(i as int).map_values(nkmap).push(
                nkmap(sv.non_key_defs[i as int]),
            ));
        }
        entries.push(entry);
        proof {
            assert(entries.deep_view() =~= base.push(entry@));
            assert(entries.deep_view() =~= head + sv.non_key_defs.take(i + 1 as int).map_values(
                nkmap,
            ));
        }
        i += 1;
    }
    proof {
        assert(sv.non_key_defs.take(schema.non_key_defs.len() as int) =~= sv.non_key_defs);
        assert(entries.deep_view() =~= spec_encode(sv, inst));
    }
    AttributeMap { entries }
}

} // verus!
