//! The routing intent of a custom resource, its owner, and the rules, TLS
//! block and owner link derived from them.

use vstd::prelude::*;

use crate::resource::{
    IngressRule, IngressRuleView, IngressSpec, IngressSpecView, IngressTls, IngressTlsView,
    OwnerReference, OwnerReferenceView, opt_string_view,
};

verus! {

/// The identity of the custom resource that asked for reconciliation.
#[derive(Debug, Clone)]
pub struct Owner {
    pub api_version: String,
    pub kind: String,
    pub name: String,
    pub namespace: String,
    pub uid: String,
}

/// The protocol a route carries. It is recorded, and does not change the
/// rules that are built.
#[derive(Debug, Clone, Copy, PartialEq, Eq, Structural)]
pub enum RouteType {
    Http,
    Grpc,
}

/// Traffic for `host` under `path` goes to port `port` of the owner's
/// service.
#[derive(Debug, Clone)]
pub struct Route {
    pub host: String,
    pub path: String,
    pub port: u16,
    pub route_type: RouteType,
}

/// The routing intent of a custom resource.
#[derive(Debug, Clone)]
pub struct Ingress {
    /// List of routes this application will handle, in order.
    pub routes: Vec<Route>,
    /// IngressClass to use.
    pub ingress_class: Option<String>,
}

/// The spec of the custom resource: the routing intent under one field.
#[derive(Debug, Clone)]
pub struct XIngressSpec {
    pub ingress: Ingress,
}

/// The kind of every path that a rule matches.
pub const PATH_TYPE_PREFIX: &'static str = "Prefix";

/// Appended to the owner's name to name the secret that holds the
/// certificate.
pub const SECRET_SUFFIX: &'static str = "-ingress-cert";

/// The rule that one route asks for.
pub open spec fn rule_for(owner: Owner, route: Route) -> IngressRuleView {
    IngressRuleView {
        host: route.host@,
        path: route.path@,
        path_type: PATH_TYPE_PREFIX@,
        service_name: owner.name@,
        service_port: route.port,
    }
}

/// One rule per route, in the order of the routes.
pub open spec fn desired_rules(owner: Owner, spec: Ingress) -> Seq<IngressRuleView> {
    spec.routes@.map_values(|r: Route| rule_for(owner, r))
}

/// The host of every route, in order, repeats kept.
pub open spec fn route_hosts(spec: Ingress) -> Seq<Seq<char>> {
    spec.routes@.map_values(|r: Route| r.host@)
}

/// The name of the secret that holds the owner's certificate.
pub open spec fn secret_name_for(owner: Owner) -> Seq<char> {
    owner.name@ + SECRET_SUFFIX@
}

/// The single TLS block: every route host, and the owner's secret.
pub open spec fn desired_tls(owner: Owner, spec: Ingress) -> Seq<IngressTlsView> {
    seq![IngressTlsView { hosts: route_hosts(spec), secret_name: secret_name_for(owner) }]
}

/// The routing part of the dependent resource's spec.
pub open spec fn desired_spec(owner: Owner, spec: Ingress) -> IngressSpecView {
    IngressSpecView {
        rules: desired_rules(owner, spec),
        tls: desired_tls(owner, spec),
        ingress_class_name: opt_string_view(spec.ingress_class),
    }
}

/// The link from the dependent resource to its owner.
pub open spec fn owner_reference_for(owner: Owner) -> OwnerReferenceView {
    OwnerReferenceView {
        api_version: owner.api_version@,
        kind: owner.kind@,
        name: owner.name@,
        uid: owner.uid@,
    }
}

/// Builds the rule for one route.
pub fn build_rule(owner: &Owner, route: &Route) -> (r: IngressRule)
    ensures
        r@ == rule_for(*owner, *route),
{
    IngressRule {
        host: route.host.clone(),
        path: route.path.clone(),
        path_type: PATH_TYPE_PREFIX.to_owned(),
        service_name: owner.name.clone(),
        service_port: route.port,
    }
}

/// Collects the host of every route, in order.
pub fn build_tls_hosts(spec: &Ingress) -> (r: Vec<String>)
    ensures
        r@.map_values(|h: String| h@) == route_hosts(*spec),
{
    let mut hosts: Vec<String> = Vec::new();
    let mut i: usize = 0;
    while i < spec.routes.len()
        invariant
            i <= spec.routes@.len(),
            hosts@.map_values(|h: String| h@) == route_hosts(*spec).take(i as int),
        decreases spec.routes@.len() - i,
    {
        hosts.push(spec.routes[i].host.clone());
        assert(route_hosts(*spec).take(i + 1) =~= route_hosts(*spec).take(i as int).push(
            spec.routes@[i as int].host@,
        ));
        assert(hosts@.map_values(|h: String| h@) =~= route_hosts(*spec).take(i + 1));
        i = i + 1;
    }
    assert(route_hosts(*spec).take(i as int) =~= route_hosts(*spec));
    hosts
}

/// The name of the secret that holds the owner's certificate.
pub fn secret_name(owner: &Owner) -> (r: String)
    ensures
        r@ == secret_name_for(*owner),
{
    owner.name.clone().concat(SECRET_SUFFIX)
}

/// Builds the single TLS block.
pub fn build_tls(owner: &Owner, spec: &Ingress) -> (r: Vec<IngressTls>)
    ensures
        r@.map_values(|t: IngressTls| t@) == desired_tls(*owner, *spec),
{
    let block = IngressTls { hosts: build_tls_hosts(spec), secret_name: secret_name(owner) };
    let r = vec![block];
    assert(r@.map_values(|t: IngressTls| t@) =~= desired_tls(*owner, *spec));
    r
}

/// Builds the link from the dependent resource to its owner.
pub fn build_owner_reference(owner: &Owner) -> (r: OwnerReference)
    ensures
        r@ == owner_reference_for(*owner),
{
    OwnerReference {
        api_version: owner.api_version.clone(),
        kind: owner.kind.clone(),
        name: owner.name.clone(),
        uid: owner.uid.clone(),
    }
}

/// Routes requests to an owner's service; holds the client of the cluster
/// store that reconciliation reads and writes through.
pub struct IngressHandler {
    pub client: kube::Client,
}

#[verifier::external_type_specification]
#[verifier::external_body]
pub struct ExClient(kube::Client);

impl IngressHandler {
    pub fn new(client: kube::Client) -> (r: IngressHandler)
        ensures
            r.client == client,
    {
        IngressHandler { client }
    }

    /// One rule per route, in input order, each with a single prefix path
    /// to the owner's service on the route's port.
    pub fn build_rules(owner: &Owner, spec: &Ingress) -> (r: Vec<IngressRule>)
        ensures
            r@.map_values(|x: IngressRule| x@) == desired_rules(*owner, *spec),
    {
        let mut rules: Vec<IngressRule> = Vec::new();
        let mut i: usize = 0;
        while i < spec.routes.len()
            invariant
                i <= spec.routes@.len(),
                rules@.map_values(|x: IngressRule| x@) == desired_rules(*owner, *spec).take(
                    i as int,
                ),
            decreases spec.routes@.len() - i,
        {
            let rule = build_rule(owner, &spec.routes[i]);
            rules.push(rule);
            assert(desired_rules(*owner, *spec).take(i + 1) =~= desired_rules(
                *owner,
                *spec,
            ).take(i as int).push(rule_for(*owner, spec.routes@[i as int])));
            assert(rules@.map_values(|x: IngressRule| x@) =~= desired_rules(*owner, *spec).take(
                i + 1,
            ));
            i = i + 1;
        }
        assert(desired_rules(*owner, *spec).take(i as int) =~= desired_rules(*owner, *spec));
        rules
    }

    /// The routing part of the dependent resource's spec: the rules, the
    /// TLS block and the ingress class.
    pub fn build_spec(owner: &Owner, spec: &Ingress) -> (r: IngressSpec)
        ensures
            r@ == desired_spec(*owner, *spec),
    {
        IngressSpec {
            rules: IngressHandler::build_rules(owner, spec),
            tls: build_tls(owner, spec),
            ingress_class_name: spec.ingress_class.clone(),
        }
    }
}

} // verus!
