//! Reconciliation: the managed metadata, the resource to create or the
//! merge into the one stored, and the steps of a sync with their statuses.

use vstd::prelude::*;

use crate::ingress::{
    desired_spec, owner_reference_for, Ingress, IngressHandler, Owner, XIngressSpec,
    build_owner_reference,
};
use crate::resource::{IngressObject, IngressObjectView, opt_map_view};
use crate::string_map::StringMap;

verus! {

pub const LABEL_APP_NAME: &'static str = "app.kubernetes.io/name";

pub const LABEL_APP_INSTANCE: &'static str = "app.kubernetes.io/instance";

pub const LABEL_MANAGED_BY: &'static str = "app.kubernetes.io/managed-by";

/// The value of the managed-by label on every resource this handler writes.
pub const MANAGER: &'static str = "suffiks-ingress";

pub const ANNOTATION_CLUSTER_ISSUER: &'static str = "cert-manager.io/cluster-issuer";

/// The certificate issuer that the dependent resource asks for.
pub const CLUSTER_ISSUER: &'static str = "letsencrypt-production";

/// The labels that mark a resource as managed for `owner`.
pub open spec fn managed_labels(owner: Owner) -> Map<Seq<char>, Seq<char>> {
    map![
        LABEL_APP_NAME@ => owner.name@,
        LABEL_APP_INSTANCE@ => owner.name@,
        LABEL_MANAGED_BY@ => MANAGER@,
    ]
}

/// The annotations that select the certificate issuer.
pub open spec fn managed_annotations() -> Map<Seq<char>, Seq<char>> {
    map![ANNOTATION_CLUSTER_ISSUER@ => CLUSTER_ISSUER@]
}

/// Metadata after the managed keys are merged in: every existing key stays,
/// a managed key takes its managed value.
pub open spec fn merge_managed(
    existing: Option<Map<Seq<char>, Seq<char>>>,
    managed: Map<Seq<char>, Seq<char>>,
) -> Map<Seq<char>, Seq<char>> {
    match existing {
        Some(m) => m.union_prefer_right(managed),
        None => managed,
    }
}

/// The resource that is created for `owner` when none exists.
pub open spec fn created_view(owner: Owner, spec: Ingress) -> IngressObjectView {
    IngressObjectView {
        name: owner.name@,
        namespace: owner.namespace@,
        labels: Some(managed_labels(owner)),
        annotations: Some(managed_annotations()),
        owner_references: seq![owner_reference_for(owner)],
        spec: Some(desired_spec(owner, spec)),
    }
}

/// The existing resource after reconciliation: owner links and routing are
/// replaced, labels and annotations only gain the managed keys.
pub open spec fn updated_view(
    existing: IngressObjectView,
    owner: Owner,
    spec: Ingress,
) -> IngressObjectView {
    IngressObjectView {
        name: existing.name,
        namespace: existing.namespace,
        labels: Some(merge_managed(existing.labels, managed_labels(owner))),
        annotations: Some(merge_managed(existing.annotations, managed_annotations())),
        owner_references: seq![owner_reference_for(owner)],
        spec: Some(desired_spec(owner, spec)),
    }
}

/// The resource that the store holds after a successful reconciliation,
/// given what it held before.
pub open spec fn reconciled(
    existing: Option<IngressObjectView>,
    owner: Owner,
    spec: Ingress,
) -> IngressObjectView {
    match existing {
        Some(e) => updated_view(e, owner, spec),
        None => created_view(owner, spec),
    }
}

/// Sets the managed labels in `labels`, keeping every other label.
fn apply_managed_labels(labels: &mut StringMap, owner: &Owner)
    requires
        old(labels).wf(),
    ensures
        final(labels).wf(),
        final(labels)@ == old(labels)@.union_prefer_right(managed_labels(*owner)),
{
    labels.insert(LABEL_APP_NAME.to_owned(), owner.name.clone());
    labels.insert(LABEL_APP_INSTANCE.to_owned(), owner.name.clone());
    labels.insert(LABEL_MANAGED_BY.to_owned(), MANAGER.to_owned());
    assert(labels@ =~= old(labels)@.union_prefer_right(managed_labels(*owner)));
}

/// Sets the managed annotations in `annotations`, keeping every other one.
fn apply_managed_annotations(annotations: &mut StringMap)
    requires
        old(annotations).wf(),
    ensures
        final(annotations).wf(),
        final(annotations)@ == old(annotations)@.union_prefer_right(managed_annotations()),
{
    annotations.insert(ANNOTATION_CLUSTER_ISSUER.to_owned(), CLUSTER_ISSUER.to_owned());
    assert(annotations@ =~= old(annotations)@.union_prefer_right(managed_annotations()));
}

/// The labels after reconciliation, created when absent.
pub fn merge_labels(existing: Option<StringMap>, owner: &Owner) -> (r: StringMap)
    requires
        existing is Some ==> existing->0.wf(),
    ensures
        r.wf(),
        r@ == merge_managed(opt_map_view(existing), managed_labels(*owner)),
{
    let mut labels = match existing {
        Some(m) => m,
        None => StringMap::new(),
    };
    apply_managed_labels(&mut labels, owner);
    assert(Map::<Seq<char>, Seq<char>>::empty().union_prefer_right(managed_labels(*owner))
        =~= managed_labels(*owner));
    labels
}

/// The annotations after reconciliation, created when absent.
pub fn merge_annotations(existing: Option<StringMap>) -> (r: StringMap)
    requires
        existing is Some ==> existing->0.wf(),
    ensures
        r.wf(),
        r@ == merge_managed(opt_map_view(existing), managed_annotations()),
{
    let mut annotations = match existing {
        Some(m) => m,
        None => StringMap::new(),
    };
    apply_managed_annotations(&mut annotations);
    assert(Map::<Seq<char>, Seq<char>>::empty().union_prefer_right(managed_annotations())
        =~= managed_annotations());
    annotations
}

/// The resource to create for `owner` when the store holds none.
pub fn created_object(owner: &Owner, spec: &Ingress) -> (r: IngressObject)
    ensures
        r.wf(),
        r@ == created_view(*owner, *spec),
{
    let owner_references = vec![build_owner_reference(owner)];
    let r = IngressObject {
        name: owner.name.clone(),
        namespace: owner.namespace.clone(),
        labels: Some(merge_labels(None, owner)),
        annotations: Some(merge_annotations(None)),
        owner_references,
        spec: Some(IngressHandler::build_spec(owner, spec)),
    };
    assert(r@.owner_references =~= seq![owner_reference_for(*owner)]);
    r
}

/// The existing resource with the desired state merged in.
pub fn updated_object(existing: IngressObject, owner: &Owner, spec: &Ingress) -> (r: IngressObject)
    requires
        existing.wf(),
    ensures
        r.wf(),
        r@ == updated_view(existing@, *owner, *spec),
{
    let ghost before = existing@;
    let mut object = existing;
    object.owner_references = vec![build_owner_reference(owner)];
    let labels = object.labels.take();
    object.labels = Some(merge_labels(labels, owner));
    let annotations = object.annotations.take();
    object.annotations = Some(merge_annotations(annotations));
    object.spec = Some(IngressHandler::build_spec(owner, spec));
    assert(object@.owner_references =~= seq![owner_reference_for(*owner)]);
    assert(object@ == updated_view(before, *owner, *spec));
    object
}

/// The status an operation ends with.
#[derive(Debug, Clone, Copy, PartialEq, Eq, Structural)]
pub enum StatusCode {
    Success,
    InvalidArgument,
    Aborted,
    Unimplemented,
}

/// Why an operation stopped, with the diagnostic that caused it.
#[derive(Debug, Clone)]
pub struct SyncError {
    pub code: StatusCode,
    pub message: String,
}

/// What the store answered when asked for the dependent resource.
pub enum Lookup {
    /// The store holds no resource of that name.
    Missing,
    /// The store holds this resource.
    Found(IngressObject),
    /// The lookup itself failed, with this diagnostic.
    Failed(String),
}

/// The single write that a sync sends to the store.
pub enum StoreWrite {
    /// Create this resource.
    Create(IngressObject),
    /// Replace the resource called `name` with `object`, whole.
    Replace { name: String, object: IngressObject },
}

/// A found resource is well formed.
pub open spec fn lookup_wf(lookup: Lookup) -> bool {
    match lookup {
        Lookup::Found(e) => e.wf(),
        _ => true,
    }
}

/// The first step of a sync: a spec that decoded goes on to the store, one
/// that did not ends the sync as an invalid argument, before any store call.
pub fn accept_spec(decoded: Result<XIngressSpec, String>) -> (r: Result<Ingress, SyncError>)
    ensures
        match decoded {
            Ok(x) => r == Ok::<Ingress, SyncError>(x.ingress),
            Err(m) => match r {
                Err(e) => e.code == StatusCode::InvalidArgument && e.message@ == m@,
                Ok(_) => false,
            },
        },
{
    match decoded {
        Ok(x) => Ok(x.ingress),
        Err(m) => Err(SyncError { code: StatusCode::InvalidArgument, message: m }),
    }
}

/// The second step of a sync: from what the store holds, the one write that
/// brings it to the desired state. A missing resource is created, a found
/// one is merged into and replaced, a failed lookup aborts.
pub fn plan_write(owner: &Owner, spec: &Ingress, lookup: Lookup) -> (r: Result<StoreWrite, SyncError>)
    requires
        lookup_wf(lookup),
    ensures
        match lookup {
            Lookup::Missing => match r {
                Ok(StoreWrite::Create(o)) => o.wf() && o@ == reconciled(None, *owner, *spec),
                _ => false,
            },
            Lookup::Found(e) => match r {
                Ok(StoreWrite::Replace { name, object }) => name@ == owner.name@ && object.wf()
                    && object@ == reconciled(Some(e@), *owner, *spec),
                _ => false,
            },
            Lookup::Failed(m) => match r {
                Err(err) => err.code == StatusCode::Aborted && err.message@ == m@,
                Ok(_) => false,
            },
        },
{
    match lookup {
        Lookup::Missing => Ok(StoreWrite::Create(created_object(owner, spec))),
        Lookup::Found(existing) => Ok(
            StoreWrite::Replace {
                name: owner.name.clone(),
                object: updated_object(existing, owner, spec),
            },
        ),
        Lookup::Failed(m) => Err(SyncError { code: StatusCode::Aborted, message: m }),
    }
}

/// The last step of a sync: an acknowledged write succeeds, a failed one
/// aborts.
pub fn finish_write(written: Result<(), String>) -> (r: Result<(), SyncError>)
    ensures
        match written {
            Ok(_) => r is Ok,
            Err(m) => match r {
                Err(e) => e.code == StatusCode::Aborted && e.message@ == m@,
                Ok(_) => false,
            },
        },
{
    match written {
        Ok(_) => Ok(()),
        Err(m) => Err(SyncError { code: StatusCode::Aborted, message: m }),
    }
}

/// The message with which delete answers: it succeeds and does nothing.
pub const DELETE_NOT_IMPLEMENTED: &'static str = "Delete not implemented";

/// The single documentation page.
pub const DOCUMENTATION_PENDING: &'static str = "TODO: Documentation is still pending";

impl IngressHandler {
    /// Delete leaves the dependent resource to the store's owner-link
    /// collector: it answers with an OK status and says so.
    pub fn delete_status() -> (r: SyncError)
        ensures
            r.code == StatusCode::Success,
            r.message@ == DELETE_NOT_IMPLEMENTED@,
    {
        SyncError { code: StatusCode::Success, message: DELETE_NOT_IMPLEMENTED.to_owned() }
    }

    /// The default patches: none.
    pub fn default_patches() -> (r: Vec<Vec<u8>>)
        ensures
            r@.len() == 0,
    {
        Vec::new()
    }

    /// The validation findings of a spec: none, so every spec is valid.
    pub fn validation_errors() -> (r: Vec<String>)
        ensures
            r@.len() == 0,
    {
        Vec::new()
    }

    /// The documentation pages: one, saying that documentation is pending.
    pub fn documentation_pages() -> (r: Vec<String>)
        ensures
            r@.len() == 1,
            r@[0]@ == DOCUMENTATION_PENDING@,
    {
        vec![DOCUMENTATION_PENDING.to_owned()]
    }
}

} // verus!
