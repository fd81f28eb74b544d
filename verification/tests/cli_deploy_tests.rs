use piggyback::cli::{
    resolve_name, resolve_port, resolve_port_var, CONTROL_PORT, DEFAULT_PROXY_PORT,
};
use piggyback::deploy::{are_pods_equal, plan_deploy, DeployPlan, PodFacts, POD_WAIT_SECS};

#[test]
fn name_defaults_to_piggyback() {
    assert_eq!(resolve_name(None), "piggyback".to_string());
}

#[test]
fn name_given_is_kept() {
    assert_eq!(resolve_name(Some("mytunnel".to_string())), "mytunnel".to_string());
}

#[test]
fn port_defaults_to_8080() {
    assert_eq!(resolve_port(None), 8080);
    assert_eq!(DEFAULT_PROXY_PORT, 8080);
}

#[test]
fn port_given_is_kept() {
    assert_eq!(resolve_port(Some(9000)), 9000);
}

#[test]
fn port_var_defaults_to_8080() {
    assert_eq!(resolve_port_var(None), "8080".to_string());
}

#[test]
fn port_var_given_is_kept() {
    assert_eq!(resolve_port_var(Some("9000".to_string())), "9000".to_string());
}

#[test]
fn control_port_is_fixed() {
    assert_eq!(CONTROL_PORT, 12345);
}

#[test]
fn pod_wait_is_thirty_seconds() {
    assert_eq!(POD_WAIT_SECS, 30);
}

fn facts(image: &[u8], port: i32) -> PodFacts {
    PodFacts { image: Some(image.to_vec()), container_port: port }
}

#[test]
fn pods_equal_when_image_and_port_agree() {
    assert!(are_pods_equal(&facts(b"img:v1", 8080), &facts(b"img:v1", 8080)));
}

#[test]
fn pods_differ_on_image() {
    assert!(!are_pods_equal(&facts(b"img:v1", 8080), &facts(b"img:v2", 8080)));
}

#[test]
fn pods_differ_on_port() {
    assert!(!are_pods_equal(&facts(b"img:v1", 8080), &facts(b"img:v1", 9090)));
}

#[test]
fn pods_differ_when_one_image_missing() {
    let bare = PodFacts { image: None, container_port: 8080 };
    assert!(!are_pods_equal(&bare, &facts(b"img:v1", 8080)));
    assert!(!are_pods_equal(&facts(b"img:v1", 8080), &bare));
}

#[test]
fn pods_equal_when_both_images_missing() {
    let a = PodFacts { image: None, container_port: 8080 };
    let b = PodFacts { image: None, container_port: 8080 };
    assert!(are_pods_equal(&a, &b));
}

#[test]
fn plan_creates_when_pod_missing() {
    assert_eq!(plan_deploy(&None, &facts(b"img:v1", 8080)), DeployPlan::Create);
}

#[test]
fn plan_keeps_equivalent_pod() {
    assert_eq!(
        plan_deploy(&Some(facts(b"img:v1", 8080)), &facts(b"img:v1", 8080)),
        DeployPlan::Keep
    );
}

#[test]
fn plan_recreates_differing_pod() {
    assert_eq!(
        plan_deploy(&Some(facts(b"img:v1", 8080)), &facts(b"img:v2", 8080)),
        DeployPlan::Recreate
    );
    assert_eq!(
        plan_deploy(&Some(facts(b"img:v1", 8080)), &facts(b"img:v1", 8081)),
        DeployPlan::Recreate
    );
}
