use suffiks_ingress::ingress::{Ingress, IngressHandler, Owner, Route, RouteType, XIngressSpec};
use suffiks_ingress::reconcile::{
    accept_spec, finish_write, plan_write, Lookup, StatusCode, StoreWrite,
};
use suffiks_ingress::resource::{IngressObject, IngressRule, IngressSpec, IngressTls};
use suffiks_ingress::string_map::StringMap;

fn owner(name: &str, namespace: &str, uid: &str) -> Owner {
    Owner {
        api_version: "suffiks.com/v1".to_string(),
        kind: "Application".to_string(),
        name: name.to_string(),
        namespace: namespace.to_string(),
        uid: uid.to_string(),
    }
}

fn route(host: &str, path: &str, port: u16, route_type: RouteType) -> Route {
    Route { host: host.to_string(), path: path.to_string(), port, route_type }
}

fn spec_of(routes: Vec<Route>, ingress_class: Option<&str>) -> Ingress {
    Ingress { routes, ingress_class: ingress_class.map(|c| c.to_string()) }
}

fn label(m: &Option<StringMap>, key: &str) -> Option<String> {
    m.as_ref().unwrap().get(&key.to_string())
}

fn create(owner: &Owner, spec: &Ingress) -> IngressObject {
    match plan_write(owner, spec, Lookup::Missing) {
        Ok(StoreWrite::Create(o)) => o,
        _ => panic!("expected a create"),
    }
}

fn replace(owner: &Owner, spec: &Ingress, existing: IngressObject) -> IngressObject {
    match plan_write(owner, spec, Lookup::Found(existing)) {
        Ok(StoreWrite::Replace { name, object }) => {
            assert_eq!(name, owner.name);
            object
        }
        _ => panic!("expected a replace"),
    }
}

fn assert_same(a: &IngressObject, b: &IngressObject) {
    assert_eq!(format!("{:?}", a.spec), format!("{:?}", b.spec));
    assert_eq!(format!("{:?}", a.owner_references), format!("{:?}", b.owner_references));
    assert_eq!(a.name, b.name);
    assert_eq!(a.namespace, b.namespace);
    for m in [(&a.labels, &b.labels), (&a.annotations, &b.annotations)] {
        let (x, y) = m;
        let mut xs = x.as_ref().unwrap().entries.clone();
        let mut ys = y.as_ref().unwrap().entries.clone();
        xs.sort();
        ys.sort();
        assert_eq!(xs, ys);
    }
}

#[test]
fn scenario_single_http_route_creates_resource() {
    let o = owner("svc1", "ns1", "u1");
    let s = spec_of(vec![route("a.example.com", "/", 8080, RouteType::Http)], None);
    let created = create(&o, &s);
    assert_eq!(created.name, "svc1");
    assert_eq!(created.namespace, "ns1");
    let spec = created.spec.clone().unwrap();
    assert_eq!(spec.rules.len(), 1);
    let rule = &spec.rules[0];
    assert_eq!(rule.host, "a.example.com");
    assert_eq!(rule.path, "/");
    assert_eq!(rule.path_type, "Prefix");
    assert_eq!(rule.service_name, "svc1");
    assert_eq!(rule.service_port, 8080);
    assert_eq!(spec.tls.len(), 1);
    assert_eq!(spec.tls[0].hosts, vec!["a.example.com".to_string()]);
    assert_eq!(spec.tls[0].secret_name, "svc1-ingress-cert");
    assert_eq!(spec.ingress_class_name, None);
}

#[test]
fn create_path_sets_owner_labels_and_annotation() {
    let o = owner("svc1", "ns1", "u1");
    let s = spec_of(vec![route("a.example.com", "/api", 80, RouteType::Grpc)], Some("nginx"));
    let created = create(&o, &s);
    assert_eq!(created.owner_references.len(), 1);
    let r = &created.owner_references[0];
    assert_eq!(r.api_version, "suffiks.com/v1");
    assert_eq!(r.kind, "Application");
    assert_eq!(r.name, "svc1");
    assert_eq!(r.uid, "u1");
    assert_eq!(label(&created.labels, "app.kubernetes.io/name"), Some("svc1".to_string()));
    assert_eq!(label(&created.labels, "app.kubernetes.io/instance"), Some("svc1".to_string()));
    assert_eq!(
        label(&created.labels, "app.kubernetes.io/managed-by"),
        Some("suffiks-ingress".to_string())
    );
    assert_eq!(created.labels.as_ref().unwrap().entries.len(), 3);
    assert_eq!(
        label(&created.annotations, "cert-manager.io/cluster-issuer"),
        Some("letsencrypt-production".to_string())
    );
    assert_eq!(created.annotations.as_ref().unwrap().entries.len(), 1);
    assert_eq!(created.spec.unwrap().ingress_class_name, Some("nginx".to_string()));
}

#[test]
fn empty_routes_give_empty_rules_and_hostless_tls() {
    let o = owner("svc2", "ns", "u2");
    let s = spec_of(vec![], None);
    let spec = create(&o, &s).spec.unwrap();
    assert!(spec.rules.is_empty());
    assert_eq!(spec.tls.len(), 1);
    assert!(spec.tls[0].hosts.is_empty());
    assert_eq!(spec.tls[0].secret_name, "svc2-ingress-cert");
}

#[test]
fn rules_follow_route_order_and_keep_repeated_hosts() {
    let o = owner("web", "ns", "u");
    let s = spec_of(
        vec![
            route("b.example.com", "/b", 81, RouteType::Http),
            route("a.example.com", "/a", 82, RouteType::Grpc),
            route("b.example.com", "/c", 83, RouteType::Http),
        ],
        None,
    );
    let rules = IngressHandler::build_rules(&o, &s);
    let hosts: Vec<&str> = rules.iter().map(|r| r.host.as_str()).collect();
    assert_eq!(hosts, vec!["b.example.com", "a.example.com", "b.example.com"]);
    let ports: Vec<u16> = rules.iter().map(|r| r.service_port).collect();
    assert_eq!(ports, vec![81, 82, 83]);
    let spec = IngressHandler::build_spec(&o, &s);
    assert_eq!(spec.tls[0].hosts, vec!["b.example.com", "a.example.com", "b.example.com"]);
}

#[test]
fn reconcile_twice_equals_once() {
    let o = owner("svc1", "ns1", "u1");
    let s = spec_of(vec![route("a.example.com", "/", 8080, RouteType::Http)], Some("nginx"));
    let once = create(&o, &s);
    let twice = replace(&o, &s, once.clone());
    assert_same(&once, &twice);
    let thrice = replace(&o, &s, twice.clone());
    assert_same(&twice, &thrice);
}

fn existing_with(host: &str, labels: Option<StringMap>, annotations: Option<StringMap>) -> IngressObject {
    IngressObject {
        name: "svc1".to_string(),
        namespace: "ns1".to_string(),
        labels,
        annotations,
        owner_references: vec![],
        spec: Some(IngressSpec {
            rules: vec![IngressRule {
                host: host.to_string(),
                path: "/".to_string(),
                path_type: "Prefix".to_string(),
                service_name: "other".to_string(),
                service_port: 1,
            }],
            tls: vec![IngressTls { hosts: vec![host.to_string()], secret_name: "old".to_string() }],
            ingress_class_name: Some("old-class".to_string()),
        }),
    }
}

#[test]
fn foreign_labels_and_annotations_are_kept() {
    let o = owner("svc1", "ns1", "u1");
    let s = spec_of(vec![route("a.example.com", "/", 8080, RouteType::Http)], None);
    let labels = StringMap::from_pairs(vec![
        ("foo".to_string(), "bar".to_string()),
        ("app.kubernetes.io/managed-by".to_string(), "someone-else".to_string()),
    ]);
    let annotations = StringMap::from_pairs(vec![("note".to_string(), "keep".to_string())]);
    let after = replace(&o, &s, existing_with("a.example.com", Some(labels), Some(annotations)));
    assert_eq!(label(&after.labels, "foo"), Some("bar".to_string()));
    assert_eq!(label(&after.labels, "app.kubernetes.io/name"), Some("svc1".to_string()));
    assert_eq!(label(&after.labels, "app.kubernetes.io/instance"), Some("svc1".to_string()));
    assert_eq!(
        label(&after.labels, "app.kubernetes.io/managed-by"),
        Some("suffiks-ingress".to_string())
    );
    assert_eq!(after.labels.as_ref().unwrap().entries.len(), 4);
    assert_eq!(label(&after.annotations, "note"), Some("keep".to_string()));
    assert_eq!(
        label(&after.annotations, "cert-manager.io/cluster-issuer"),
        Some("letsencrypt-production".to_string())
    );
}

#[test]
fn missing_metadata_maps_are_created() {
    let o = owner("svc1", "ns1", "u1");
    let s = spec_of(vec![], None);
    let after = replace(&o, &s, existing_with("x.example.com", None, None));
    assert_eq!(after.labels.as_ref().unwrap().entries.len(), 3);
    assert_eq!(after.annotations.as_ref().unwrap().entries.len(), 1);
}

#[test]
fn old_rules_are_replaced() {
    let o = owner("svc1", "ns1", "u1");
    let s = spec_of(vec![route("new.example.com", "/", 8080, RouteType::Http)], None);
    let after = replace(&o, &s, existing_with("old.example.com", None, None));
    let spec = after.spec.unwrap();
    assert_eq!(spec.rules.len(), 1);
    assert_eq!(spec.rules[0].host, "new.example.com");
    assert_eq!(spec.rules[0].service_name, "svc1");
    assert_eq!(spec.tls.len(), 1);
    assert_eq!(spec.tls[0].hosts, vec!["new.example.com".to_string()]);
    assert_eq!(spec.tls[0].secret_name, "svc1-ingress-cert");
    assert_eq!(spec.ingress_class_name, None);
    assert_eq!(after.owner_references.len(), 1);
    assert_eq!(after.owner_references[0].uid, "u1");
}

#[test]
fn missing_spec_is_constructed_on_update() {
    let o = owner("svc1", "ns1", "u1");
    let s = spec_of(vec![route("a.example.com", "/x", 9, RouteType::Http)], Some("c"));
    let mut existing = existing_with("a.example.com", None, None);
    existing.spec = None;
    let spec = replace(&o, &s, existing).spec.unwrap();
    assert_eq!(spec.rules.len(), 1);
    assert_eq!(spec.rules[0].path, "/x");
    assert_eq!(spec.ingress_class_name, Some("c".to_string()));
}

#[test]
fn decode_failure_is_invalid_argument() {
    let r = accept_spec(Err("EOF while parsing an object".to_string()));
    match r {
        Err(e) => {
            assert_eq!(e.code, StatusCode::InvalidArgument);
            assert_eq!(e.message, "EOF while parsing an object");
        }
        Ok(_) => panic!("a failed decode must not go on"),
    }
}

#[test]
fn decoded_spec_goes_on() {
    let s = spec_of(vec![route("a.example.com", "/", 1, RouteType::Http)], None);
    let r = accept_spec(Ok(XIngressSpec { ingress: s })).ok().unwrap();
    assert_eq!(r.routes.len(), 1);
    assert_eq!(r.routes[0].host, "a.example.com");
}

#[test]
fn store_failures_abort() {
    let o = owner("svc1", "ns1", "u1");
    let s = spec_of(vec![], None);
    match plan_write(&o, &s, Lookup::Failed("connection refused".to_string())) {
        Err(e) => {
            assert_eq!(e.code, StatusCode::Aborted);
            assert_eq!(e.message, "connection refused");
        }
        Ok(_) => panic!("a failed lookup must not write"),
    }
    match finish_write(Err("conflict".to_string())) {
        Err(e) => {
            assert_eq!(e.code, StatusCode::Aborted);
            assert_eq!(e.message, "conflict");
        }
        Ok(_) => panic!("a failed write must abort"),
    }
    assert!(finish_write(Ok(())).is_ok());
}

#[test]
fn other_operations_answer() {
    let d = IngressHandler::delete_status();
    assert_eq!(d.code, StatusCode::Success);
    assert_eq!(d.message, "Delete not implemented");
    assert!(IngressHandler::default_patches().is_empty());
    assert!(IngressHandler::validation_errors().is_empty());
    assert_eq!(IngressHandler::documentation_pages(), vec!["TODO: Documentation is still pending".to_string()]);
}
