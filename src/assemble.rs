//! Building the interface declaration and the forwarding implementation.
use vstd::prelude::*;
use vstd::string::StringExecFns;
use crate::classify::{
    Attribute, ImplItem, Marker, Method, item_qualifies, lemma_qualifying_upto, marker_of, marker_spec,
    qualifying, qualifying_spec,
};
use crate::options::{ArgError, Config, ConfigView};

verus! {

/// The type that an implementation block is for.
pub enum SelfType {
    /// A path (`Counter`, `a::Counter<T>`): the identifier of each segment.
    Path(Vec<String>),
    /// Any other type expression (a reference, a tuple, a slice).
    Other,
}

/// The implementation block that the generation attribute is applied to.
pub struct ImplBlock {
    pub self_ty: SelfType,
    /// The target type, as written.
    pub self_ty_text: String,
    /// The generic parameters with their bounds, as written (`<T: Clone>`).
    pub impl_generics: String,
    /// The generic parameters as arguments (`<T>`).
    pub ty_generics: String,
    /// The `where` clause, as written, or empty.
    pub where_clause: String,
    pub items: Vec<ImplItem>,
}

/// A method signature of the interface.
pub struct TraitItem {
    pub attrs: Vec<Attribute>,
    pub sig: String,
}

pub struct TraitItemView {
    pub attrs: Seq<Attribute>,
    pub sig: Seq<char>,
}

impl View for TraitItem {
    type V = TraitItemView;

    open spec fn view(&self) -> TraitItemView {
        TraitItemView { attrs: self.attrs@, sig: self.sig@ }
    }
}

/// The interface declaration: `pub trait <name><generics> <where> { ... }`.
pub struct TraitDecl {
    pub name: String,
    pub generics: String,
    pub where_clause: String,
    pub items: Vec<TraitItem>,
}

pub struct TraitDeclView {
    pub name: Seq<char>,
    pub generics: Seq<char>,
    pub where_clause: Seq<char>,
    pub items: Seq<TraitItemView>,
}

impl View for TraitDecl {
    type V = TraitDeclView;

    open spec fn view(&self) -> TraitDeclView {
        TraitDeclView {
            name: self.name@,
            generics: self.generics@,
            where_clause: self.where_clause@,
            items: self.items@.map_values(|t: TraitItem| t@),
        }
    }
}

/// A method of the forwarding implementation.
pub struct ForwardItem {
    pub attrs: Vec<Attribute>,
    pub sig: String,
    pub body: String,
}

pub struct ForwardItemView {
    pub attrs: Seq<Attribute>,
    pub sig: Seq<char>,
    pub body: Seq<char>,
}

impl View for ForwardItem {
    type V = ForwardItemView;

    open spec fn view(&self) -> ForwardItemView {
        ForwardItemView { attrs: self.attrs@, sig: self.sig@, body: self.body@ }
    }
}

/// The forwarding implementation:
/// `impl<impl_generics> <trait_name><trait_generics> for <self_ty> <where> { ... }`.
pub struct ForwardImpl {
    pub trait_name: String,
    pub impl_generics: String,
    pub trait_generics: String,
    pub self_ty: String,
    pub where_clause: String,
    pub items: Vec<ForwardItem>,
}

pub struct ForwardImplView {
    pub trait_name: Seq<char>,
    pub impl_generics: Seq<char>,
    pub trait_generics: Seq<char>,
    pub self_ty: Seq<char>,
    pub where_clause: Seq<char>,
    pub items: Seq<ForwardItemView>,
}

impl View for ForwardImpl {
    type V = ForwardImplView;

    open spec fn view(&self) -> ForwardImplView {
        ForwardImplView {
            trait_name: self.trait_name@,
            impl_generics: self.impl_generics@,
            trait_generics: self.trait_generics@,
            self_ty: self.self_ty@,
            where_clause: self.where_clause@,
            items: self.items@.map_values(|f: ForwardItem| f@),
        }
    }
}

/// What is generated ahead of the unchanged implementation block.
pub struct Expansion {
    pub interface: TraitDecl,
    pub forwarding: Option<ForwardImpl>,
}

pub struct ExpansionView {
    pub interface: TraitDeclView,
    pub forwarding: Option<ForwardImplView>,
}

impl View for Expansion {
    type V = ExpansionView;

    open spec fn view(&self) -> ExpansionView {
        ExpansionView {
            interface: self.interface@,
            forwarding: match self.forwarding {
                Some(f) => Some(f@),
                None => None,
            },
        }
    }
}

/// Why no interface is generated.
#[derive(PartialEq, Eq, Structural, Clone, Copy, Debug)]
pub enum ExpandError {
    /// The argument list is refused.
    Args(ArgError),
    /// No name is given and the target type is not a path.
    UnresolvableName,
    /// No method qualifies.
    NoMethods,
}

/// The attributes among the first `n` that are not markers, in order.
pub open spec fn kept_upto(attrs: Seq<Attribute>, n: int) -> Seq<Attribute>
    decreases n,
{
    if n <= 0 {
        Seq::empty()
    } else if marker_spec(attrs[n - 1]) == Marker::Other {
        kept_upto(attrs, n - 1).push(attrs[n - 1])
    } else {
        kept_upto(attrs, n - 1)
    }
}

/// The attributes that are not markers, in order.
pub open spec fn kept_spec(attrs: Seq<Attribute>) -> Seq<Attribute> {
    kept_upto(attrs, attrs.len() as int)
}

/// Copies the attributes that are not markers, in order.
pub fn kept_attributes(attrs: &Vec<Attribute>) -> (r: Vec<Attribute>)
    ensures
        r@ == kept_spec(attrs@),
{
    let mut r: Vec<Attribute> = Vec::new();
    let mut i: usize = 0;
    while i < attrs.len()
        invariant
            i <= attrs@.len(),
            r@ == kept_upto(attrs@, i as int),
        decreases attrs@.len() - i,
    {
        if marker_of(&attrs[i]) == Marker::Other {
            r.push(attrs[i].copy());
        }
        i += 1;
    }
    r
}

pub open spec fn method_at(items: Seq<ImplItem>, k: int) -> Method {
    match items[k] {
        ImplItem::Method(m) => m,
        ImplItem::Other(_) => arbitrary(),
    }
}

pub open spec fn trait_item_spec(m: Method) -> TraitItemView {
    TraitItemView { attrs: kept_spec(m.attrs@), sig: m.sig@ }
}

pub open spec fn forward_item_spec(m: Method) -> ForwardItemView {
    ForwardItemView { attrs: kept_spec(m.attrs@), sig: m.sig@, body: m.body@ }
}

/// The simple name of a target type: the last segment of a path.
pub open spec fn simple_name_spec(t: SelfType) -> Option<Seq<char>> {
    match t {
        SelfType::Path(segs) => if segs@.len() > 0 { Some(segs@.last()@) } else { None },
        SelfType::Other => None,
    }
}

pub open spec fn derived_name_spec(base: Seq<char>) -> Seq<char> {
    base + "Overwrites"@
}

/// The name of the interface: the one given, else derived from the type.
pub open spec fn interface_name_spec(cfg: ConfigView, block: ImplBlock) -> Option<Seq<char>> {
    match cfg.name {
        Some(n) => Some(n),
        None => match simple_name_spec(block.self_ty) {
            Some(t) => Some(derived_name_spec(t)),
            None => None,
        },
    }
}

/// What the generation produces for a configuration and a block.
pub open spec fn expand_spec(cfg: ConfigView, block: ImplBlock) -> Result<ExpansionView, ExpandError> {
    let ks = qualifying_spec(block.items@, cfg.policy);
    match interface_name_spec(cfg, block) {
        None => Err(ExpandError::UnresolvableName),
        Some(name) => if ks.len() == 0 {
            Err(ExpandError::NoMethods)
        } else {
            Ok(ExpansionView {
                interface: TraitDeclView {
                    name,
                    generics: block.impl_generics@,
                    where_clause: block.where_clause@,
                    items: ks.map_values(|k: int| trait_item_spec(method_at(block.items@, k))),
                },
                forwarding: if cfg.passthrough {
                    Some(ForwardImplView {
                        trait_name: name,
                        impl_generics: block.impl_generics@,
                        trait_generics: block.ty_generics@,
                        self_ty: block.self_ty_text@,
                        where_clause: block.where_clause@,
                        items: ks.map_values(|k: int| forward_item_spec(method_at(block.items@, k))),
                    })
                } else {
                    None
                },
            })
        },
    }
}

/// The simple name of the target type, where it is a path.
pub fn simple_name(t: &SelfType) -> (r: Option<String>)
    ensures
        match r {
            Some(s) => simple_name_spec(*t) == Some(s@),
            None => simple_name_spec(*t) is None,
        },
{
    match t {
        SelfType::Path(segs) => {
            if segs.len() > 0 {
                Some(segs[segs.len() - 1].clone())
            } else {
                None
            }
        },
        SelfType::Other => None,
    }
}

/// The default interface name: the type's name followed by `Overwrites`.
pub fn derived_name(base: &String) -> (r: String)
    ensures
        r@ == derived_name_spec(base@),
{
    base.clone().concat("Overwrites")
}

/// The interface name for a configuration and a block, if one can be had.
pub fn interface_name(cfg: &Config, block: &ImplBlock) -> (r: Option<String>)
    ensures
        match r {
            Some(s) => interface_name_spec(cfg@, *block) == Some(s@),
            None => interface_name_spec(cfg@, *block) is None,
        },
{
    match &cfg.name {
        Some(n) => Some(n.clone()),
        None => match simple_name(&block.self_ty) {
            Some(t) => Some(derived_name(&t)),
            None => None,
        },
    }
}

/// Generates the interface, and the forwarding implementation where
/// `passthrough` is set, for a parsed configuration.
///
/// Fails with `UnresolvableName` when no name is given and the target type is
/// not a path, and otherwise with `NoMethods` when no method qualifies.
pub fn expand(cfg: &Config, block: &ImplBlock) -> (r: Result<Expansion, ExpandError>)
    ensures
        match r {
            Ok(x) => expand_spec(cfg@, *block) == Ok::<ExpansionView, ExpandError>(x@),
            Err(e) => expand_spec(cfg@, *block) == Err::<ExpansionView, ExpandError>(e),
        },
{
    let name = match interface_name(cfg, block) {
        Some(n) => n,
        None => return Err(ExpandError::UnresolvableName),
    };
    let ks = qualifying(&block.items, cfg.policy);
    let ghost kspec = qualifying_spec(block.items@, cfg.policy);
    assert(ks@.len() == kspec.len());
    if ks.len() == 0 {
        return Err(ExpandError::NoMethods);
    }
    proof {
        lemma_qualifying_upto(block.items@, cfg.policy, block.items@.len() as int);
    }
    let mut titems: Vec<TraitItem> = Vec::new();
    let mut fitems: Vec<ForwardItem> = Vec::new();
    let mut j: usize = 0;
    while j < ks.len()
        invariant
            ks@.map_values(|k: usize| k as int) == kspec,
            kspec == qualifying_spec(block.items@, cfg.policy),
            forall|t: int| 0 <= t < kspec.len() ==> 0 <= #[trigger] kspec[t] < block.items@.len(),
            forall|t: int| 0 <= t < kspec.len() ==> item_qualifies(block.items@[#[trigger] kspec[t]], cfg.policy),
            j <= ks@.len(),
            titems@.len() == j,
            fitems@.len() == j,
            forall|t: int| 0 <= t < j ==> #[trigger] titems@[t]@ == trait_item_spec(method_at(block.items@, kspec[t])),
            forall|t: int| 0 <= t < j ==> #[trigger] fitems@[t]@ == forward_item_spec(method_at(block.items@, kspec[t])),
        decreases ks@.len() - j,
    {
        assert(kspec[j as int] == ks@[j as int] as int);
        let k = ks[j];
        match &block.items[k] {
            ImplItem::Method(m) => {
                titems.push(TraitItem { attrs: kept_attributes(&m.attrs), sig: m.sig.clone() });
                fitems.push(ForwardItem { attrs: kept_attributes(&m.attrs), sig: m.sig.clone(), body: m.body.clone() });
            },
            ImplItem::Other(_) => {
                assert(false);
            },
        }
        j += 1;
    }
    assert(titems@.map_values(|t: TraitItem| t@)
        =~= kspec.map_values(|k: int| trait_item_spec(method_at(block.items@, k))));
    assert(fitems@.map_values(|f: ForwardItem| f@)
        =~= kspec.map_values(|k: int| forward_item_spec(method_at(block.items@, k))));
    let forwarding = if cfg.passthrough {
        Some(ForwardImpl {
            trait_name: name.clone(),
            impl_generics: block.impl_generics.clone(),
            trait_generics: block.ty_generics.clone(),
            self_ty: block.self_ty_text.clone(),
            where_clause: block.where_clause.clone(),
            items: fitems,
        })
    } else {
        None
    };
    let interface = TraitDecl {
        name,
        generics: block.impl_generics.clone(),
        where_clause: block.where_clause.clone(),
        items: titems,
    };
    Ok(Expansion { interface, forwarding })
}

} // verus!
