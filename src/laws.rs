//! What holds of reconciliation across calls and inputs.

use vstd::prelude::*;

use crate::ingress::{
    desired_rules, desired_spec, desired_tls, owner_reference_for, secret_name_for, Ingress,
    Owner, SECRET_SUFFIX,
};
use crate::reconcile::{managed_annotations, managed_labels, reconciled};
use crate::resource::{IngressObjectView, IngressTlsView};

verus! {

/// Merging a managed map in twice gives what merging it in once gives.
proof fn lemma_merge_twice(m: Map<Seq<char>, Seq<char>>, managed: Map<Seq<char>, Seq<char>>)
    ensures
        m.union_prefer_right(managed).union_prefer_right(managed) == m.union_prefer_right(
            managed,
        ),
        managed.union_prefer_right(managed) == managed,
{
    assert(m.union_prefer_right(managed).union_prefer_right(managed) =~= m.union_prefer_right(
        managed,
    ));
    assert(managed.union_prefer_right(managed) =~= managed);
}

/// Reconciling twice with the same owner and spec leaves the resource as
/// reconciling once does, whether the resource existed before or not.
pub proof fn lemma_reconcile_idempotent(
    existing: Option<IngressObjectView>,
    owner: Owner,
    spec: Ingress,
)
    ensures
        reconciled(Some(reconciled(existing, owner, spec)), owner, spec) == reconciled(
            existing,
            owner,
            spec,
        ),
{
    match existing {
        Some(e) => {
            match e.labels {
                Some(m) => lemma_merge_twice(m, managed_labels(owner)),
                None => lemma_merge_twice(managed_labels(owner), managed_labels(owner)),
            }
            match e.annotations {
                Some(m) => lemma_merge_twice(m, managed_annotations()),
                None => lemma_merge_twice(managed_annotations(), managed_annotations()),
            }
        },
        None => {
            lemma_merge_twice(managed_labels(owner), managed_labels(owner));
            lemma_merge_twice(managed_annotations(), managed_annotations());
        },
    }
}

/// Reconciling an existing resource keeps each of its labels that is not a
/// managed one, with its value, and sets every managed label and
/// annotation.
pub proof fn lemma_labels_kept(
    existing: IngressObjectView,
    owner: Owner,
    spec: Ingress,
    key: Seq<char>,
)
    requires
        existing.labels is Some,
        existing.labels->0.contains_key(key),
        !managed_labels(owner).contains_key(key),
    ensures
        ({
            let after = reconciled(Some(existing), owner, spec);
            &&& after.labels is Some
            &&& after.labels->0.contains_key(key)
            &&& after.labels->0[key] == existing.labels->0[key]
            &&& managed_labels(owner).submap_of(after.labels->0)
            &&& after.annotations is Some
            &&& managed_annotations().submap_of(after.annotations->0)
        }),
{
}

/// Reconciling an existing resource keeps each of its annotations that is
/// not a managed one, with its value.
pub proof fn lemma_annotations_kept(
    existing: IngressObjectView,
    owner: Owner,
    spec: Ingress,
    key: Seq<char>,
)
    requires
        existing.annotations is Some,
        existing.annotations->0.contains_key(key),
        !managed_annotations().contains_key(key),
    ensures
        ({
            let after = reconciled(Some(existing), owner, spec);
            &&& after.annotations is Some
            &&& after.annotations->0.contains_key(key)
            &&& after.annotations->0[key] == existing.annotations->0[key]
        }),
{
}

/// Whatever the store held, the rules, TLS block, ingress class and owner
/// link after reconciliation are exactly those derived from the new spec:
/// nothing of the old ones is left.
pub proof fn lemma_structural_replace(
    existing: Option<IngressObjectView>,
    owner: Owner,
    spec: Ingress,
)
    ensures
        ({
            let after = reconciled(existing, owner, spec);
            &&& after.spec == Some(desired_spec(owner, spec))
            &&& after.spec->0.rules == desired_rules(owner, spec)
            &&& after.spec->0.tls == desired_tls(owner, spec)
            &&& after.owner_references == seq![owner_reference_for(owner)]
        }),
{
}

/// With no resource stored, the created one is named after the owner, in
/// its namespace, links to it, carries exactly the managed labels and
/// annotation, and the rules and TLS block of the spec.
pub proof fn lemma_create_path(owner: Owner, spec: Ingress)
    ensures
        ({
            let created = reconciled(None, owner, spec);
            &&& created.name == owner.name@
            &&& created.namespace == owner.namespace@
            &&& created.owner_references == seq![owner_reference_for(owner)]
            &&& created.labels == Some(managed_labels(owner))
            &&& created.annotations == Some(managed_annotations())
            &&& created.spec == Some(desired_spec(owner, spec))
        }),
{
}

/// No routes give no rules and one TLS block with no hosts, whose secret is
/// still named after the owner.
pub proof fn lemma_empty_routes(existing: Option<IngressObjectView>, owner: Owner, spec: Ingress)
    requires
        spec.routes@.len() == 0,
    ensures
        ({
            let after = reconciled(existing, owner, spec);
            &&& after.spec is Some
            &&& after.spec->0.rules == Seq::<crate::resource::IngressRuleView>::empty()
            &&& after.spec->0.tls == seq![
                IngressTlsView { hosts: Seq::empty(), secret_name: secret_name_for(owner) },
            ]
            &&& secret_name_for(owner).len() > 0
        }),
{
    reveal_strlit("-ingress-cert");
    let after = reconciled(existing, owner, spec);
    assert(after.spec->0.rules =~= Seq::<crate::resource::IngressRuleView>::empty());
    assert(after.spec->0.tls[0].hosts =~= Seq::<Seq<char>>::empty());
    assert(after.spec->0.tls =~= seq![
        IngressTlsView { hosts: Seq::empty(), secret_name: secret_name_for(owner) },
    ]);
    assert(SECRET_SUFFIX@.len() > 0);
}

} // verus!
