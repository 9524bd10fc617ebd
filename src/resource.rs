//! The dependent networking resource as reconciliation sees it.

use vstd::prelude::*;

use crate::string_map::StringMap;

verus! {

/// A link from the dependent resource to the object that owns it; the store
/// deletes the dependent resource when its owner goes away.
#[derive(Debug, Clone)]
pub struct OwnerReference {
    pub api_version: String,
    pub kind: String,
    pub name: String,
    pub uid: String,
}

pub struct OwnerReferenceView {
    pub api_version: Seq<char>,
    pub kind: Seq<char>,
    pub name: Seq<char>,
    pub uid: Seq<char>,
}

impl View for OwnerReference {
    type V = OwnerReferenceView;

    open spec fn view(&self) -> OwnerReferenceView {
        OwnerReferenceView {
            api_version: self.api_version@,
            kind: self.kind@,
            name: self.name@,
            uid: self.uid@,
        }
    }
}

/// One routing rule: requests for `host` under the prefix `path` go to port
/// `service_port` of the service `service_name`.
#[derive(Debug, Clone)]
pub struct IngressRule {
    pub host: String,
    pub path: String,
    pub path_type: String,
    pub service_name: String,
    pub service_port: u16,
}

pub struct IngressRuleView {
    pub host: Seq<char>,
    pub path: Seq<char>,
    pub path_type: Seq<char>,
    pub service_name: Seq<char>,
    pub service_port: u16,
}

impl View for IngressRule {
    type V = IngressRuleView;

    open spec fn view(&self) -> IngressRuleView {
        IngressRuleView {
            host: self.host@,
            path: self.path@,
            path_type: self.path_type@,
            service_name: self.service_name@,
            service_port: self.service_port,
        }
    }
}

/// A TLS block: the hosts that one certificate, kept in the secret
/// `secret_name`, serves.
#[derive(Debug, Clone)]
pub struct IngressTls {
    pub hosts: Vec<String>,
    pub secret_name: String,
}

pub struct IngressTlsView {
    pub hosts: Seq<Seq<char>>,
    pub secret_name: Seq<char>,
}

impl View for IngressTls {
    type V = IngressTlsView;

    open spec fn view(&self) -> IngressTlsView {
        IngressTlsView {
            hosts: self.hosts@.map_values(|h: String| h@),
            secret_name: self.secret_name@,
        }
    }
}

/// The part of the dependent resource's spec that reconciliation owns.
#[derive(Debug, Clone)]
pub struct IngressSpec {
    pub rules: Vec<IngressRule>,
    pub tls: Vec<IngressTls>,
    pub ingress_class_name: Option<String>,
}

pub struct IngressSpecView {
    pub rules: Seq<IngressRuleView>,
    pub tls: Seq<IngressTlsView>,
    pub ingress_class_name: Option<Seq<char>>,
}

/// The view of an optional string.
pub open spec fn opt_string_view(s: Option<String>) -> Option<Seq<char>> {
    match s {
        Some(v) => Some(v@),
        None => None,
    }
}

/// The view of an optional string map.
pub open spec fn opt_map_view(m: Option<StringMap>) -> Option<Map<Seq<char>, Seq<char>>> {
    match m {
        Some(v) => Some(v@),
        None => None,
    }
}

/// An optional string map that is absent or well formed.
pub open spec fn opt_map_wf(m: Option<StringMap>) -> bool {
    match m {
        Some(v) => v.wf(),
        None => true,
    }
}

impl View for IngressSpec {
    type V = IngressSpecView;

    open spec fn view(&self) -> IngressSpecView {
        IngressSpecView {
            rules: self.rules@.map_values(|r: IngressRule| r@),
            tls: self.tls@.map_values(|t: IngressTls| t@),
            ingress_class_name: opt_string_view(self.ingress_class_name),
        }
    }
}

/// The dependent networking resource as far as reconciliation reads and
/// writes it: its identity, administrative metadata, owner links and the
/// routing part of its spec.
#[derive(Debug, Clone)]
pub struct IngressObject {
    pub name: String,
    pub namespace: String,
    pub labels: Option<StringMap>,
    pub annotations: Option<StringMap>,
    pub owner_references: Vec<OwnerReference>,
    pub spec: Option<IngressSpec>,
}

pub struct IngressObjectView {
    pub name: Seq<char>,
    pub namespace: Seq<char>,
    pub labels: Option<Map<Seq<char>, Seq<char>>>,
    pub annotations: Option<Map<Seq<char>, Seq<char>>>,
    pub owner_references: Seq<OwnerReferenceView>,
    pub spec: Option<IngressSpecView>,
}

impl View for IngressObject {
    type V = IngressObjectView;

    open spec fn view(&self) -> IngressObjectView {
        IngressObjectView {
            name: self.name@,
            namespace: self.namespace@,
            labels: opt_map_view(self.labels),
            annotations: opt_map_view(self.annotations),
            owner_references: self.owner_references@.map_values(|o: OwnerReference| o@),
            spec: match self.spec {
                Some(s) => Some(s@),
                None => None,
            },
        }
    }
}

impl IngressObject {
    /// Labels and annotations, where present, hold each key once.
    pub open spec fn wf(&self) -> bool {
        opt_map_wf(self.labels) && opt_map_wf(self.annotations)
    }
}

} // verus!
