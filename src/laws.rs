//! Properties that hold of every input.
use vstd::prelude::*;
use crate::assemble::{
    expand_spec, forward_item_spec, interface_name_spec, method_at, trait_item_spec,
    ExpandError, ExpansionView, ImplBlock,
};
use crate::classify::{
    has_marker_spec, item_qualifies, lemma_qualifying_upto, qualifies_spec, qualifying_spec,
    ImplItem, Marker, Method, Visibility,
};
use crate::options::{ConfigView, Policy, Token};
use crate::generate_spec;

verus! {

/// The same arguments and block always give the same expansion or the same
/// error.
pub proof fn law_deterministic(
    args: Seq<Token>,
    block: ImplBlock,
    r1: Result<ExpansionView, ExpandError>,
    r2: Result<ExpansionView, ExpandError>,
)
    requires
        r1 == generate_spec(args, block),
        r2 == generate_spec(args, block),
    ensures
        r1 == r2,
{
}

/// The interface, and the forwarding implementation where there is one, hold
/// the qualifying methods in the order in which the block declares them.
pub proof fn law_order_preserved(cfg: ConfigView, block: ImplBlock)
    requires
        expand_spec(cfg, block) is Ok,
    ensures
        ({
            let x = expand_spec(cfg, block)->Ok_0;
            let ks = qualifying_spec(block.items@, cfg.policy);
            &&& x.interface.items.len() == ks.len()
            &&& forall|s: int, t: int| 0 <= s < t < ks.len() ==> #[trigger] ks[s] < #[trigger] ks[t]
            &&& forall|t: int| 0 <= t < ks.len() ==> 0 <= #[trigger] ks[t] < block.items@.len()
            &&& forall|t: int| 0 <= t < ks.len() ==>
                #[trigger] x.interface.items[t] == trait_item_spec(method_at(block.items@, ks[t]))
            &&& x.forwarding matches Some(f) ==> {
                &&& f.items.len() == ks.len()
                &&& forall|t: int| 0 <= t < ks.len() ==>
                    #[trigger] f.items[t] == forward_item_spec(method_at(block.items@, ks[t]))
            }
        }),
{
    lemma_qualifying_upto(block.items@, cfg.policy, block.items@.len() as int);
}

/// Every method of the interface is a method of the block declared `pub`.
pub proof fn law_only_public(cfg: ConfigView, block: ImplBlock)
    requires
        expand_spec(cfg, block) is Ok,
    ensures
        ({
            let x = expand_spec(cfg, block)->Ok_0;
            let ks = qualifying_spec(block.items@, cfg.policy);
            forall|t: int| 0 <= t < x.interface.items.len() ==> {
                &&& 0 <= #[trigger] ks[t] < block.items@.len()
                &&& block.items@[ks[t]] matches ImplItem::Method(m)
                &&& m.vis == Visibility::Public
                &&& x.interface.items[t] == trait_item_spec(m)
            }
        }),
{
    lemma_qualifying_upto(block.items@, cfg.policy, block.items@.len() as int);
}

/// The inclusion rule on public methods: under `Include` an unmarked method
/// qualifies and one marked `skip` does not; under `Exclude` an unmarked
/// method does not qualify and one marked `overwrite` does. A method that is
/// not public never qualifies.
pub proof fn law_policy_table(m: Method)
    ensures
        m.vis != Visibility::Public ==> !qualifies_spec(m, Policy::Include) && !qualifies_spec(m, Policy::Exclude),
        m.vis == Visibility::Public && !has_marker_spec(m, Marker::Skip) && !has_marker_spec(m, Marker::Overwrite)
            ==> qualifies_spec(m, Policy::Include) && !qualifies_spec(m, Policy::Exclude),
        has_marker_spec(m, Marker::Skip) ==> !qualifies_spec(m, Policy::Include),
        m.vis == Visibility::Public && has_marker_spec(m, Marker::Overwrite) ==> qualifies_spec(m, Policy::Exclude),
{
}

/// With `passthrough`, the forwarding implementation exists and each of its
/// methods has the signature and the body of the method it comes from, as
/// written.
pub proof fn law_passthrough_bodies(cfg: ConfigView, block: ImplBlock)
    requires
        expand_spec(cfg, block) is Ok,
        cfg.passthrough,
    ensures
        ({
            let x = expand_spec(cfg, block)->Ok_0;
            let ks = qualifying_spec(block.items@, cfg.policy);
            x.forwarding matches Some(f) && f.items.len() == ks.len()
            && forall|t: int| 0 <= t < ks.len() ==> {
                &&& block.items@[#[trigger] ks[t]] matches ImplItem::Method(m)
                &&& f.items[t].body == m.body@
                &&& f.items[t].sig == m.sig@
            }
        }),
{
    lemma_qualifying_upto(block.items@, cfg.policy, block.items@.len() as int);
}

/// Under `Include`, a block whose public methods are all marked `skip` gives
/// no interface: it fails, with `NoMethods` where the interface has a name.
pub proof fn law_all_skipped_fails(cfg: ConfigView, block: ImplBlock)
    requires
        cfg.policy == Policy::Include,
        forall|k: int| 0 <= k < block.items@.len() ==>
            (#[trigger] method_at(block.items@, k)).vis == Visibility::Public && block.items@[k] is Method
                ==> has_marker_spec(method_at(block.items@, k), Marker::Skip),
    ensures
        expand_spec(cfg, block) is Err,
        interface_name_spec(cfg, block) is Some ==> expand_spec(cfg, block) == Err::<ExpansionView, ExpandError>(ExpandError::NoMethods),
{
    let ks = qualifying_spec(block.items@, cfg.policy);
    lemma_qualifying_upto(block.items@, cfg.policy, block.items@.len() as int);
    if ks.len() > 0 {
        let k0 = ks[0];
        assert(item_qualifies(block.items@[k0], cfg.policy));
        assert(block.items@[k0] is Method);
        assert(method_at(block.items@, k0).vis == Visibility::Public);
    }
}

} // verus!
