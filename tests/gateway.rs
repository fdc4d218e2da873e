use shuttle_core::ambulance::{Ambulance, HealthRound, Tick, SVC_DEGRADED_THRESHOLD, WORKER_QUEUE_SIZE};
use shuttle_core::project::{check_project_name, is_valid_project_name, NameError};
use shuttle_core::proxy::{project_label, route, ProjectState, Route};
use shuttle_core::tls::{
    challenge_for, pem_bundle, plan_certificate, wildcard_identifier, wildcard_name, CertPlan,
    CustomDomain,
    CertResolver, Challenge,
};

#[test]
fn ambulance_skips_first_tick_and_degraded_queue() {
    let mut a = Ambulance::new();
    assert_eq!(a.tick(WORKER_QUEUE_SIZE), Tick::WarmUp);
    assert_eq!(a.tick(WORKER_QUEUE_SIZE), Tick::CheckHealth);
    let limit = WORKER_QUEUE_SIZE - SVC_DEGRADED_THRESHOLD;
    assert_eq!(limit, 1920);
    assert_eq!(a.tick(limit), Tick::CheckHealth);
    assert_eq!(a.tick(limit - 1), Tick::Degraded);
    assert_eq!(a.tick(0), Tick::Degraded);
}

#[test]
fn health_round_is_sequential() {
    let mut r = HealthRound::new(vec!["a".to_string(), "b".to_string()]);
    assert_eq!(r.enqueue_next(), Some(0));
    assert_eq!(r.enqueue_next(), None);
    r.completed();
    assert!(!r.finished());
    assert_eq!(r.enqueue_next(), Some(1));
    assert_eq!(r.enqueue_next(), None);
    r.completed();
    assert!(r.finished());
    assert_eq!(r.enqueue_next(), None);
}

#[test]
fn project_names() {
    assert!(is_valid_project_name("my-project-1"));
    assert!(is_valid_project_name("abc"));
    assert!(!is_valid_project_name("ab"));
    assert!(!is_valid_project_name("-abc"));
    assert!(!is_valid_project_name("abc-"));
    assert!(!is_valid_project_name("Abc"));
    assert!(!is_valid_project_name("a_bc"));
    assert!(is_valid_project_name(&"a".repeat(63)));
    assert!(!is_valid_project_name(&"a".repeat(64)));
}

#[test]
fn install_then_resolve() {
    let mut r = CertResolver::new();
    assert_eq!(r.resolve("api.example.com"), None);
    r.serve_pem("api.example.com", b"CERT-A".to_vec());
    assert_eq!(r.resolve("api.example.com"), Some(b"CERT-A".to_vec()));
    r.serve_pem("api.example.com", b"CERT-B".to_vec());
    assert_eq!(r.resolve("api.example.com"), Some(b"CERT-B".to_vec()));
}

#[test]
fn resolve_prefers_exact_then_wildcard_then_default() {
    let mut r = CertResolver::new();
    r.serve_default(b"DEFAULT".to_vec());
    assert_eq!(r.resolve("x.other.org"), Some(b"DEFAULT".to_vec()));
    r.serve_pem("*.example.com", b"WILD".to_vec());
    r.serve_pem("www.example.com", b"EXACT".to_vec());
    assert_eq!(r.resolve("www.example.com"), Some(b"EXACT".to_vec()));
    assert_eq!(r.resolve("shop.example.com"), Some(b"WILD".to_vec()));
    assert_eq!(r.resolve("a.b.example.com"), Some(b"DEFAULT".to_vec()));
    assert_eq!(r.resolve("localhost"), Some(b"DEFAULT".to_vec()));
}

#[test]
fn wildcard_names() {
    assert_eq!(wildcard_name("api.example.com"), Some("*.example.com".to_string()));
    assert_eq!(wildcard_name("localhost"), None);
    assert_eq!(wildcard_identifier("proxy.example.com"), "*.proxy.example.com");
    assert_eq!(challenge_for("*.proxy.example.com"), Challenge::Dns01);
    assert_eq!(challenge_for("custom.org"), Challenge::Http01);
}

#[test]
fn pem_bundle_concatenates() {
    assert_eq!(pem_bundle("CHAIN\n", "KEY\n"), b"CHAIN\nKEY\n".to_vec());
    assert_eq!(pem_bundle("", ""), Vec::<u8>::new());
}

#[test]
fn certificate_plan() {
    assert_eq!(plan_certificate(true, false), CertPlan::UseCached);
    assert_eq!(plan_certificate(false, true), CertPlan::Issue);
    assert_eq!(plan_certificate(false, false), CertPlan::MissingCredentials);
}

#[test]
fn routing() {
    assert_eq!(project_label("myproj.shuttleapp.rs"), "myproj");
    assert_eq!(project_label("myproj"), "myproj");
    assert_eq!(route(false, Some(ProjectState::Ready)), Route::Forward);
    assert_eq!(route(false, None), Route::NotFound);
    assert_eq!(route(false, Some(ProjectState::Stopped)), Route::NotReady);
    assert_eq!(route(true, Some(ProjectState::Ready)), Route::Degraded);
}

#[test]
fn custom_domains_installed_at_startup() {
    let domain = |fqdn: &str, cert: &str| CustomDomain {
        fqdn: fqdn.to_string(),
        project_name: "proj".to_string(),
        certificate: cert.to_string(),
        private_key: "KEY".to_string(),
    };
    let mut r = CertResolver::new();
    r.serve_pem("keep.org", b"OLD".to_vec());
    r.serve_custom_domains(&vec![
        domain("a.org", "A1"),
        domain("b.org", "B"),
        domain("a.org", "A2"),
    ]);
    assert_eq!(r.resolve("a.org"), Some(b"A2KEY".to_vec()));
    assert_eq!(r.resolve("b.org"), Some(b"BKEY".to_vec()));
    assert_eq!(r.resolve("keep.org"), Some(b"OLD".to_vec()));
    assert_eq!(r.resolve("c.org"), None);
}

#[test]
fn project_name_errors() {
    assert_eq!(check_project_name("good-name"), Ok(()));
    assert_eq!(check_project_name("x"), Err(NameError::Length));
    assert_eq!(check_project_name(&"a".repeat(64)), Err(NameError::Length));
    assert_eq!(check_project_name("-abc"), Err(NameError::DashAtEdge));
    assert_eq!(check_project_name("ab_c"), Err(NameError::Character));
    assert_eq!(check_project_name("-a_"), Err(NameError::DashAtEdge));
}
