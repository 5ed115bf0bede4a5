//! The template renderer: pure placeholder substitution.
//!
//! A template is rendered by replacing each binding's placeholder token by
//! its value, one binding after the other, in the given order. Unresolved
//! placeholders are left verbatim.

use vstd::prelude::*;

verus! {

use crate::text::{contains_pat, lemma_replace_absent, occurs, replace_all, spec_replace};

/// Mathematical value of a [`Binding`].
pub ghost struct BindingView {
    pub token: Seq<char>,
    pub value: Seq<char>,
}

/// One substitution: a placeholder token and the value that replaces it.
pub struct Binding {
    pub token: String,
    pub value: String,
}

impl View for Binding {
    type V = BindingView;

    open spec fn view(&self) -> BindingView {
        BindingView { token: self.token@, value: self.value@ }
    }
}

/// The views of a sequence of bindings.
pub open spec fn binding_views(subs: Seq<Binding>) -> Seq<BindingView> {
    subs.map(|i: int, b: Binding| b@)
}

/// Result of substituting the bindings into `t`, first binding first.
pub open spec fn spec_render(t: Seq<char>, subs: Seq<BindingView>) -> Seq<char>
    decreases subs.len(),
{
    if subs.len() == 0 {
        t
    } else {
        spec_render(spec_replace(t, subs[0].token, subs[0].value), subs.skip(1))
    }
}

/// Substitutes every binding into the template, in order.
pub fn render(template: &str, subs: &Vec<Binding>) -> (r: String)
    ensures
        r@ == spec_render(template@, binding_views(subs@)),
{
    let mut cur: String = template.to_owned();
    let mut k: usize = 0;
    proof {
        assert(subs@.skip(0) =~= subs@);
    }
    while k < subs.len()
        invariant
            k <= subs@.len(),
            spec_render(template@, binding_views(subs@)) == spec_render(
                cur@,
                binding_views(subs@.skip(k as int)),
            ),
        decreases subs@.len() - k,
    {
        let ghost pending = binding_views(subs@.skip(k as int));
        proof {
            assert(pending.len() > 0);
            assert(pending[0] == subs@[k as int]@);
            assert(pending.skip(1) =~= binding_views(subs@.skip(k + 1)));
        }
        let next = replace_all(cur.as_str(), subs[k].token.as_str(), subs[k].value.as_str());
        cur = next;
        k += 1;
    }
    proof {
        assert(binding_views(subs@.skip(k as int)).len() == 0);
    }
    cur
}

/// Whether none of the bindings' tokens occurs in `s` any more.
pub fn fully_rendered(s: &str, subs: &Vec<Binding>) -> (b: bool)
    ensures
        b == forall|k: int|
            0 <= k < subs@.len() ==> !occurs(s@, #[trigger] binding_views(subs@)[k].token),
{
    let mut k: usize = 0;
    while k < subs.len()
        invariant
            k <= subs@.len(),
            forall|j: int| 0 <= j < k ==> !occurs(s@, #[trigger] binding_views(subs@)[j].token),
        decreases subs@.len() - k,
    {
        if contains_pat(s, subs[k].token.as_str()) {
            proof {
                assert(occurs(s@, binding_views(subs@)[k as int].token));
            }
            return false;
        }
        k += 1;
    }
    true
}

/// A text in which no binding's token occurs is a fixed point of
/// rendering: substituting the bindings changes nothing.
pub proof fn lemma_render_fixpoint(t: Seq<char>, subs: Seq<BindingView>)
    requires
        forall|k: int| 0 <= k < subs.len() ==> !occurs(t, #[trigger] subs[k].token),
    ensures
        spec_render(t, subs) == t,
    decreases subs.len(),
{
    if subs.len() > 0 {
        assert(!occurs(t, subs[0].token));
        lemma_replace_absent(t, subs[0].token, subs[0].value);
        assert(forall|k: int| 0 <= k < subs.skip(1).len() ==> !occurs(
            t,
            #[trigger] subs.skip(1)[k].token,
        ));
        lemma_render_fixpoint(t, subs.skip(1));
    }
}

/// Rendering is idempotent over a complete substitution: once an output
/// contains none of the placeholder tokens, rendering it again with the
/// same bindings is a no-op.
pub proof fn lemma_render_idempotent(t: Seq<char>, subs: Seq<BindingView>)
    requires
        forall|k: int|
            0 <= k < subs.len() ==> !occurs(spec_render(t, subs), #[trigger] subs[k].token),
    ensures
        spec_render(spec_render(t, subs), subs) == spec_render(t, subs),
{
    lemma_render_fixpoint(spec_render(t, subs), subs);
}

} // verus!
