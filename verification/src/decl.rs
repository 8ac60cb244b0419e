//! The raw declaration model: the parsed-but-unresolved facts a caller
//! supplies per entity type, before the builder turns them into a schema.

use vstd::prelude::*;
use crate::keys::opt_view;

verus! {

/// Struct-level partition-key declaration: attribute name and the optional
/// literals joined around the composite value.
#[derive(Debug, Clone)]
pub struct PkStructDecl {
    pub name: String,
    pub value_prefix: Option<String>,
    pub value_suffix: Option<String>,
}

/// Spec view of a [`PkStructDecl`].
#[verifier::ext_equal]
pub struct PkStructDeclV {
    pub name: Seq<char>,
    pub value_prefix: Option<Seq<char>>,
    pub value_suffix: Option<Seq<char>>,
}

impl View for PkStructDecl {
    type V = PkStructDeclV;

    open spec fn view(&self) -> PkStructDeclV {
        PkStructDeclV {
            name: self.name@,
            value_prefix: opt_view(self.value_prefix),
            value_suffix: opt_view(self.value_suffix),
        }
    }
}

/// Struct-level sort-key declaration; `static_value` makes the whole key a
/// fixed literal, excluding any field contribution.
#[derive(Debug, Clone)]
pub struct SkStructDecl {
    pub name: String,
    pub value_prefix: Option<String>,
    pub value_suffix: Option<String>,
    pub static_value: Option<String>,
}

/// Spec view of a [`SkStructDecl`].
#[verifier::ext_equal]
pub struct SkStructDeclV {
    pub name: Seq<char>,
    pub value_prefix: Option<Seq<char>>,
    pub value_suffix: Option<Seq<char>>,
    pub static_value: Option<Seq<char>>,
}

impl View for SkStructDecl {
    type V = SkStructDeclV;

    open spec fn view(&self) -> SkStructDeclV {
        SkStructDeclV {
            name: self.name@,
            value_prefix: opt_view(self.value_prefix),
            value_suffix: opt_view(self.value_suffix),
            static_value: opt_view(self.static_value),
        }
    }
}

/// Struct-level non-key declaration: seeds the named group, either with a
/// static literal or as an empty composite awaiting field contributions.
#[derive(Debug, Clone)]
pub struct NkStructDecl {
    pub name: String,
    pub value_prefix: Option<String>,
    pub value_suffix: Option<String>,
    pub static_value: Option<String>,
}

/// Spec view of an [`NkStructDecl`].
#[verifier::ext_equal]
pub struct NkStructDeclV {
    pub name: Seq<char>,
    pub value_prefix: Option<Seq<char>>,
    pub value_suffix: Option<Seq<char>>,
    pub static_value: Option<Seq<char>>,
}

impl View for NkStructDecl {
    type V = NkStructDeclV;

    open spec fn view(&self) -> NkStructDeclV {
        NkStructDeclV {
            name: self.name@,
            value_prefix: opt_view(self.value_prefix),
            value_suffix: opt_view(self.value_suffix),
            static_value: opt_view(self.static_value),
        }
    }
}

impl DeepView for NkStructDecl {
    type V = NkStructDeclV;

    open spec fn deep_view(&self) -> NkStructDeclV {
        self.view()
    }
}

/// A field's membership in the partition key: optional per-segment prefix
/// and optional explicit position.
#[derive(Debug, Clone)]
pub struct PkFieldDecl {
    pub prefix: Option<String>,
    pub order: Option<usize>,
}

/// A field's membership in the sort key, with the same shape.
#[derive(Debug, Clone)]
pub struct SkFieldDecl {
    pub prefix: Option<String>,
    pub order: Option<usize>,
}

/// A field's membership in one named non-key group; with no `group_name`
/// the target group is the field's own name.
#[derive(Debug, Clone)]
pub struct NkFieldDecl {
    pub group_name: Option<String>,
    pub prefix: Option<String>,
    pub order: Option<usize>,
}

/// Everything one struct field declares: at most one partition-key role,
/// at most one sort-key role, and any number of non-key memberships.
#[derive(Debug, Clone)]
pub struct FieldDecl {
    pub field_name: String,
    pub pk: Option<PkFieldDecl>,
    pub sk: Option<SkFieldDecl>,
    pub nks: Vec<NkFieldDecl>,
}

/// Spec view of one key or group contribution, flattened out of a
/// [`FieldDecl`]: the contributing field, its prefix, and its position.
#[verifier::ext_equal]
pub struct ContribV {
    pub field_name: Seq<char>,
    pub prefix: Option<Seq<char>>,
    pub order: Option<int>,
}

/// Spec view of one non-key contribution: the target group plus the segment.
#[verifier::ext_equal]
pub struct NkContribV {
    pub group_name: Seq<char>,
    pub part: ContribV,
}

/// Spec view of a [`FieldDecl`].
#[verifier::ext_equal]
pub struct FieldDeclV {
    pub field_name: Seq<char>,
    pub pk: Option<ContribV>,
    pub sk: Option<ContribV>,
    pub nks: Seq<NkContribV>,
}

/// Spec view of the order option of a field declaration.
pub open spec fn order_view(o: Option<usize>) -> Option<int> {
    match o {
        Some(n) => Some(n as int),
        None => None,
    }
}

/// Spec view of a single non-key membership of the named field.
pub open spec fn nk_contrib_view(field_name: Seq<char>, d: NkFieldDecl) -> NkContribV {
    NkContribV {
        group_name: match d.group_name {
            Some(g) => g@,
            None => field_name,
        },
        part: ContribV {
            field_name: field_name,
            prefix: opt_view(d.prefix),
            order: order_view(d.order),
        },
    }
}

impl View for FieldDecl {
    type V = FieldDeclV;

    open spec fn view(&self) -> FieldDeclV {
        FieldDeclV {
            field_name: self.field_name@,
            pk: match self.pk {
                Some(p) => Some(
                    ContribV {
                        field_name: self.field_name@,
                        prefix: opt_view(p.prefix),
                        order: order_view(p.order),
                    },
                ),
                None => None,
            },
            sk: match self.sk {
                Some(s) => Some(
                    ContribV {
                        field_name: self.field_name@,
                        prefix: opt_view(s.prefix),
                        order: order_view(s.order),
                    },
                ),
                None => None,
            },
            nks: self.nks@.map_values(|d: NkFieldDecl| nk_contrib_view(self.field_name@, d)),
        }
    }
}

impl DeepView for FieldDecl {
    type V = FieldDeclV;

    open spec fn deep_view(&self) -> FieldDeclV {
        self.view()
    }
}

impl FieldDecl {
    /// Whether this field names each non-key group at most once: a field
    /// may belong to several distinctly-named groups, but only once per
    /// group.
    pub fn well_formed(&self) -> (r: bool)
        ensures
            r == self@.nks.map_values(|c: NkContribV| c.group_name).no_duplicates(),
    {
        let ghost names = self@.nks.map_values(|c: NkContribV| c.group_name);
        let mut i: usize = 0;
        while i < self.nks.len()
            invariant
                i <= self.nks.len(),
                names == self@.nks.map_values(|c: NkContribV| c.group_name),
                names.len() == self.nks.len(),
                forall|a: int, b: int| 0 <= a < b < names.len() && a < i ==> names[a] != names[b],
            decreases self.nks.len() - i,
        {
            let mut j: usize = i + 1;
            while j < self.nks.len()
                invariant
                    i < j <= self.nks.len(),
                    names == self@.nks.map_values(|c: NkContribV| c.group_name),
                    names.len() == self.nks.len(),
                    forall|b: int| i < b < j ==> names[i as int] != names[b],
                decreases self.nks.len() - j,
            {
                let ni = self.group_of(i);
                let nj = self.group_of(j);
                if ni == nj {
                    proof {
                        assert(names[i as int] == names[j as int]);
                    }
                    return false;
                }
                proof {
                    assert(names[i as int] != names[j as int]);
                }
                j += 1;
            }
            i += 1;
        }
        true
    }

    /// The group the field's `k`-th non-key membership targets: the named
    /// group, or the field's own name when none is given.
    fn group_of(&self, k: usize) -> (r: String)
        requires
            k < self.nks@.len(),
        ensures
            r@ == self@.nks[k as int].group_name,
    {
        match &self.nks[k].group_name {
            Some(g) => g.clone(),
            None => self.field_name.clone(),
        }
    }
}

/// The complete raw declaration of one entity type.
#[derive(Debug, Clone)]
pub struct EntityTypeDecl {
    pub pk: Option<PkStructDecl>,
    pub sk: Option<SkStructDecl>,
    pub nks: Vec<NkStructDecl>,
    pub fields: Vec<FieldDecl>,
}

/// Spec view of an [`EntityTypeDecl`].
#[verifier::ext_equal]
pub struct EntityTypeDeclV {
    pub pk: Option<PkStructDeclV>,
    pub sk: Option<SkStructDeclV>,
    pub nks: Seq<NkStructDeclV>,
    pub fields: Seq<FieldDeclV>,
}

impl EntityTypeDecl {
    /// Whether every declared field names each non-key group at most once.
    pub fn well_formed(&self) -> (r: bool)
        ensures
            r == (forall|i: int|
                0 <= i < self@.fields.len() ==> (#[trigger] self@.fields[i]).nks.map_values(
                    |c: NkContribV| c.group_name,
                ).no_duplicates()),
    {
        let mut i: usize = 0;
        while i < self.fields.len()
            invariant
                i <= self.fields.len(),
                forall|k: int|
                    0 <= k < i ==> (#[trigger] self@.fields[k]).nks.map_values(
                        |c: NkContribV| c.group_name,
                    ).no_duplicates(),
            decreases self.fields.len() - i,
        {
            if !self.fields[i].well_formed() {
                proof {
                    assert(self@.fields[i as int] == self.fields@[i as int]@);
                }
                return false;
            }
            proof {
                assert(self@.fields[i as int] == self.fields@[i as int]@);
            }
            i += 1;
        }
        true
    }
}

impl View for EntityTypeDecl {
    type V = EntityTypeDeclV;

    open spec fn view(&self) -> EntityTypeDeclV {
        EntityTypeDeclV {
            pk: match &self.pk {
                Some(p) => Some(p@),
                None => None,
            },
            sk: match &self.sk {
                Some(s) => Some(s@),
                None => None,
            },
            nks: self.nks.deep_view(),
            fields: self.fields.deep_view(),
        }
    }
}

} // verus!
