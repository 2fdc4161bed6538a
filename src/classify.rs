//! Which methods of an implementation block go into the interface.
use vstd::prelude::*;
use vstd::string::StringExecFns;
use crate::options::Policy;

verus! {

/// An attribute on a method: its path and its full text, as written.
pub struct Attribute {
    /// The path of the attribute (`skip`, `doc`, `a::b`), as written.
    pub path: String,
    /// The whole attribute, as written (`#[inline(always)]`).
    pub text: String,
}

impl Attribute {
    pub fn copy(&self) -> (r: Attribute)
        ensures
            r == *self,
    {
        Attribute { path: self.path.clone(), text: self.text.clone() }
    }
}

/// The visibility written on a method.
#[derive(PartialEq, Eq, Structural, Clone, Copy, Debug)]
pub enum Visibility {
    /// `pub`
    Public,
    /// `pub(crate)`, `pub(super)`, `pub(in path)`
    Restricted,
    /// no visibility written
    Inherited,
}

/// The kinds of attribute that the classification reads.
#[derive(PartialEq, Eq, Structural, Clone, Copy, Debug)]
pub enum Marker {
    /// `#[skip]`: leave the method out under the `Include` policy.
    Skip,
    /// `#[overwrite]`: take the method in under the `Exclude` policy.
    Overwrite,
    /// Any other attribute.
    Other,
}

/// A method declared in the implementation block.
pub struct Method {
    pub vis: Visibility,
    pub attrs: Vec<Attribute>,
    /// The signature, as written (`fn tick_by(&mut self, n: u32)`).
    pub sig: String,
    /// The body, as written, braces included.
    pub body: String,
}

/// An item of the implementation block.
pub enum ImplItem {
    Method(Method),
    /// Any other item (a constant, a type, a macro call), as written.
    Other(String),
}

pub open spec fn marker_spec(a: Attribute) -> Marker {
    if a.path@ == "skip"@ {
        Marker::Skip
    } else if a.path@ == "overwrite"@ {
        Marker::Overwrite
    } else {
        Marker::Other
    }
}

/// The marker kind of an attribute: its path is exactly `skip` or `overwrite`.
pub fn marker_of(a: &Attribute) -> (r: Marker)
    ensures
        r == marker_spec(*a),
{
    if a.path == String::from_str("skip") {
        Marker::Skip
    } else if a.path == String::from_str("overwrite") {
        Marker::Overwrite
    } else {
        Marker::Other
    }
}

pub open spec fn has_marker_spec(m: Method, k: Marker) -> bool {
    exists|i: int| 0 <= i < m.attrs@.len() && #[trigger] marker_spec(m.attrs@[i]) == k
}

/// Whether one of the method's attributes is the marker `k`.
pub fn has_marker(m: &Method, k: Marker) -> (r: bool)
    ensures
        r == has_marker_spec(*m, k),
{
    let mut i: usize = 0;
    while i < m.attrs.len()
        invariant
            i <= m.attrs@.len(),
            forall|j: int| 0 <= j < i ==> #[trigger] marker_spec(m.attrs@[j]) != k,
        decreases m.attrs@.len() - i,
    {
        if marker_of(&m.attrs[i]) == k {
            return true;
        }
        i += 1;
    }
    false
}

/// The inclusion rule: a public method, not marked `skip` under `Include`,
/// or marked `overwrite` under `Exclude`.
pub open spec fn qualifies_spec(m: Method, policy: Policy) -> bool {
    m.vis == Visibility::Public && (
        (policy == Policy::Include && !has_marker_spec(m, Marker::Skip))
        || (policy == Policy::Exclude && has_marker_spec(m, Marker::Overwrite))
    )
}

/// Whether the method goes into the interface under `policy`.
pub fn qualifies(m: &Method, policy: Policy) -> (r: bool)
    ensures
        r == qualifies_spec(*m, policy),
{
    if m.vis != Visibility::Public {
        return false;
    }
    match policy {
        Policy::Include => !has_marker(m, Marker::Skip),
        Policy::Exclude => has_marker(m, Marker::Overwrite),
    }
}

pub open spec fn item_qualifies(item: ImplItem, policy: Policy) -> bool {
    match item {
        ImplItem::Method(m) => qualifies_spec(m, policy),
        ImplItem::Other(_) => false,
    }
}

/// The positions, in ascending order, of the qualifying methods among the
/// first `n` items.
pub open spec fn qualifying_upto(items: Seq<ImplItem>, policy: Policy, n: int) -> Seq<int>
    decreases n,
{
    if n <= 0 {
        Seq::empty()
    } else if item_qualifies(items[n - 1], policy) {
        qualifying_upto(items, policy, n - 1).push(n - 1)
    } else {
        qualifying_upto(items, policy, n - 1)
    }
}

/// The positions among the first `n` items are in range, strictly ascending,
/// each that of a qualifying method, and every qualifying method's position is
/// among them.
pub proof fn lemma_qualifying_upto(items: Seq<ImplItem>, policy: Policy, n: int)
    requires
        0 <= n <= items.len(),
    ensures
        forall|t: int| 0 <= t < qualifying_upto(items, policy, n).len() ==>
            0 <= #[trigger] qualifying_upto(items, policy, n)[t] < n,
        forall|t: int| 0 <= t < qualifying_upto(items, policy, n).len() ==>
            item_qualifies(items[#[trigger] qualifying_upto(items, policy, n)[t]], policy),
        forall|s: int, t: int| 0 <= s < t < qualifying_upto(items, policy, n).len() ==>
            #[trigger] qualifying_upto(items, policy, n)[s] < #[trigger] qualifying_upto(items, policy, n)[t],
        forall|k: int| 0 <= k < n && #[trigger] item_qualifies(items[k], policy) ==>
            qualifying_upto(items, policy, n).contains(k),
    decreases n,
{
    if n > 0 {
        lemma_qualifying_upto(items, policy, n - 1);
        let prev = qualifying_upto(items, policy, n - 1);
        if item_qualifies(items[n - 1], policy) {
            assert(qualifying_upto(items, policy, n) == prev.push(n - 1));
            assert forall|k: int| 0 <= k < n && #[trigger] item_qualifies(items[k], policy) implies
                qualifying_upto(items, policy, n).contains(k) by {
                if k < n - 1 {
                    let t = choose|t: int| 0 <= t < prev.len() && prev[t] == k;
                    assert(prev.push(n - 1)[t] == k);
                } else {
                    assert(prev.push(n - 1)[prev.len() as int] == k);
                }
            }
        }
    }
}

/// The positions, in ascending order, of the qualifying methods.
pub open spec fn qualifying_spec(items: Seq<ImplItem>, policy: Policy) -> Seq<int> {
    qualifying_upto(items, policy, items.len() as int)
}

/// The positions of the qualifying methods among the items, in the order of
/// declaration.
pub fn qualifying(items: &Vec<ImplItem>, policy: Policy) -> (r: Vec<usize>)
    ensures
        r@.map_values(|k: usize| k as int) == qualifying_spec(items@, policy),
{
    let mut r: Vec<usize> = Vec::new();
    let mut i: usize = 0;
    while i < items.len()
        invariant
            i <= items@.len(),
            r@.map_values(|k: usize| k as int) == qualifying_upto(items@, policy, i as int),
        decreases items@.len() - i,
    {
        let q = match &items[i] {
            ImplItem::Method(m) => qualifies(m, policy),
            ImplItem::Other(_) => false,
        };
        if q {
            r.push(i);
            assert(r@.map_values(|k: usize| k as int) =~= qualifying_upto(items@, policy, i as int).push(i as int));
        }
        i += 1;
    }
    r
}

} // verus!
