use nuop::bundle::{
    bundle_write, field_manager, generate_mapping_configmap, generate_source_configmap, WriteAction,
};
use nuop::config::Mapping;
use nuop::drift::has_drifted;
use nuop::manager::{bundles_hash, error_policy, reconcile, workload_write};
use nuop::mode::NuopMode;
use nuop::model::{
    generate_owner_reference, Credentials, EnvVar, NuOperatorSpec, OwnerReference,
    SecretKeySelector, Source,
};
use nuop::reconcile::{to_kube_error, Action};
use nuop::text_map::TextMap;
use nuop::workload::{
    generate_deployment, generate_volumes_and_mounts, Container, DeploymentMeta, PodSpec, Volume,
    VolumeMount, VolumeSource, Workload, WorkloadSpec,
};

fn map_of(entries: &[(&str, &str)]) -> TextMap {
    let mut m = TextMap::new();
    for (k, v) in entries {
        m.insert(k.to_string(), v.to_string());
    }
    m
}

fn mapping(name: &str) -> Mapping {
    Mapping {
        name: name.to_string(),
        group: "apps".to_string(),
        version: "v1".to_string(),
        kind: "Deployment".to_string(),
        field_selectors: TextMap::new(),
        label_selectors: TextMap::new(),
        requeue_after_change: None,
        requeue_after_noop: None,
    }
}

fn secret(name: &str) -> SecretKeySelector {
    SecretKeySelector { name: name.to_string(), key: "token".to_string(), optional: Some(false) }
}

fn source(location: &str, path: &str, token: Option<&str>) -> Source {
    Source {
        location: location.to_string(),
        path: path.to_string(),
        credentials: token.map(|t| Credentials { token: Some(secret(t)), username: None, password: None }),
    }
}

fn owner() -> OwnerReference {
    OwnerReference {
        api_version: "v1".to_string(),
        kind: "Deployment".to_string(),
        name: "test-deployment".to_string(),
        uid: "12345".to_string(),
        controller: None,
        block_owner_deletion: None,
    }
}

fn container(name: &str) -> Container {
    Container { name: name.to_string(), image: None, image_pull_policy: None, env: None, volume_mounts: None }
}

fn pod(containers: Vec<Container>, volumes: Option<Vec<Volume>>) -> WorkloadSpec {
    WorkloadSpec {
        replicas: None,
        selector: None,
        template_labels: None,
        template_annotations: None,
        pod: Some(PodSpec { init_containers: None, containers, volumes, service_account_name: None }),
    }
}

fn workload(annotations: Option<TextMap>, spec: Option<WorkloadSpec>) -> Workload {
    Workload { name: None, namespace: None, owner_references: None, annotations, spec }
}

fn replicas(n: i32) -> WorkloadSpec {
    WorkloadSpec { replicas: Some(n), selector: None, template_labels: None, template_annotations: None, pod: None }
}

fn env(name: &str, value: &str) -> EnvVar {
    EnvVar { name: name.to_string(), value: Some(value.to_string()), value_from: None }
}

fn mount(name: &str, path: &str) -> VolumeMount {
    VolumeMount { name: name.to_string(), mount_path: path.to_string(), read_only: None }
}

fn empty_dir(name: &str) -> Volume {
    Volume { name: name.to_string(), source: VolumeSource::EmptyDir }
}

fn hash_of(w: &Workload) -> String {
    w.annotations.as_ref().unwrap().get("nuop.hash").unwrap().clone()
}

#[test]
fn test_generate_configmaps() {
    let deployment_name = "test-deployment";
    let namespace = "test-namespace";
    assert!(generate_mapping_configmap(deployment_name, namespace, None, &vec![], &vec![]).is_none());
    assert!(generate_source_configmap(deployment_name, namespace, None, &vec![], &vec![]).is_none());

    let mappings = vec![mapping("test/mapping")];
    let docs = vec!["name: test/mapping\n".to_string()];
    let cm = generate_mapping_configmap(deployment_name, namespace, Some(owner()), &mappings, &docs).unwrap();
    assert_eq!(cm.name, "test-deployment-nuop-mapping-config");
    assert_eq!(cm.namespace, namespace);
    let refs = cm.owner_references.unwrap();
    assert_eq!(refs.len(), 1);
    assert_eq!(refs[0].uid, "12345");
    assert_eq!(cm.data.get("test-mapping.yaml"), Some(&"name: test/mapping\n".to_string()));

    let sources = vec![source("https://github.com/example/repo.git", "test/source", Some("github-token"))];
    let docs = vec!["path: test/source\n".to_string()];
    let cm = generate_source_configmap(deployment_name, namespace, Some(owner()), &sources, &docs).unwrap();
    assert_eq!(cm.name, "test-deployment-nuop-sources-config");
    assert!(cm.data.get("test-source.yaml").is_some());
}

#[test]
fn bundle_keeps_the_last_document_of_a_key() {
    let mappings = vec![mapping("a/b"), mapping("a-b"), mapping("c")];
    let docs = vec!["first".to_string(), "second".to_string(), "third".to_string()];
    let cm = generate_mapping_configmap("w", "ns", None, &mappings, &docs).unwrap();
    assert_eq!(cm.data.len(), 2);
    assert_eq!(cm.data.get("a-b.yaml"), Some(&"second".to_string()));
    assert_eq!(cm.data.get("c.yaml"), Some(&"third".to_string()));
    assert!(cm.owner_references.is_none());
}

#[test]
fn test_field_manager() {
    assert_eq!(field_manager("ConfigMap", "v1"), "ConfigMap.v1");
    assert_eq!(field_manager("NuOperator", "kemper.buzz/v1alpha1"), "NuOperator.kemper.buzz/v1alpha1");
}

#[test]
fn bundle_keys_replace_every_slash() {
    let sources = vec![source("l", "a/b/c", None), source("l", "plain", None)];
    let docs = vec!["x".to_string(), "y".to_string()];
    let cm = generate_source_configmap("w", "ns", None, &sources, &docs).unwrap();
    assert_eq!(cm.data.key_at(0), "a-b-c.yaml");
    assert_eq!(cm.data.key_at(1), "plain.yaml");
}

#[test]
fn owner_reference_needs_a_uid() {
    assert!(generate_owner_reference("kemper.buzz/v1alpha1", "NuOperator", "x", None).is_none());
    let o = generate_owner_reference("kemper.buzz/v1alpha1", "NuOperator", "x", Some("u1")).unwrap();
    assert_eq!(o.uid, "u1");
    assert_eq!(o.kind, "NuOperator");
    assert_eq!(o.controller, Some(true));
    assert_eq!(o.block_owner_deletion, Some(true));
}

#[test]
fn test_generate_volumes_and_mounts() {
    let deployment_name = "test-deployment";
    let sources = vec![
        source("https://github.com/test/repo1", "path/to/scripts", Some("secret1")),
        source("https://github.com/test/repo2", "another/path", None),
    ];
    let mappings = vec![mapping("test-mapping")];
    let (volumes, mounts) = generate_volumes_and_mounts(deployment_name, &sources, &mappings);
    assert_eq!(volumes.len(), 4);
    assert_eq!(mounts.len(), 4);

    assert_eq!(volumes[0].name, "scripts");
    assert!(matches!(volumes[0].source, VolumeSource::EmptyDir));
    assert_eq!(mounts[0].name, "scripts");
    assert_eq!(mounts[0].mount_path, "/scripts");

    assert_eq!(volumes[1].name, "config-sources");
    match &volumes[1].source {
        VolumeSource::ConfigMap { name, default_mode } => {
            assert_eq!(name, &format!("{}-nuop-sources-config", deployment_name));
            assert_eq!(*default_mode, Some(420));
        }
        _ => panic!("expected a bundle volume"),
    }
    assert_eq!(mounts[1].mount_path, "/config/sources");

    assert_eq!(volumes[2].name, "config-mappings");
    match &volumes[2].source {
        VolumeSource::ConfigMap { name, .. } => {
            assert_eq!(name, &format!("{}-nuop-mapping-config", deployment_name))
        }
        _ => panic!("expected a bundle volume"),
    }
    assert_eq!(mounts[2].mount_path, "/config/mappings");

    assert_eq!(volumes[3].name, "path-to-scripts-nuop-secret");
    match &volumes[3].source {
        VolumeSource::Secret { secret_name, default_mode } => {
            assert_eq!(secret_name.as_deref(), Some("secret1"));
            assert_eq!(*default_mode, Some(420));
        }
        _ => panic!("expected a secret volume"),
    }
    assert_eq!(mounts[3].name, "path-to-scripts-nuop-secret");
    assert_eq!(mounts[3].mount_path, "/secrets/path/to/scripts");
    assert_eq!(mounts[3].read_only, Some(true));

    let (v, m) = generate_volumes_and_mounts(deployment_name, &vec![], &vec![]);
    assert_eq!((v.len(), m.len()), (0, 0));
    let (v, m) = generate_volumes_and_mounts(deployment_name, &sources, &vec![]);
    assert_eq!((v.len(), m.len()), (3, 3));
    let (v, m) = generate_volumes_and_mounts(deployment_name, &vec![], &mappings);
    assert_eq!((v.len(), m.len()), (1, 1));
}

#[test]
fn secret_name_prefers_token_then_username_then_password() {
    let s = Source {
        location: "l".to_string(),
        path: "p".to_string(),
        credentials: Some(Credentials { token: None, username: Some(secret("user")), password: Some(secret("pw")) }),
    };
    let (v, _) = generate_volumes_and_mounts("d", &vec![s], &vec![]);
    match &v[2].source {
        VolumeSource::Secret { secret_name, .. } => assert_eq!(secret_name.as_deref(), Some("user")),
        _ => panic!("expected a secret volume"),
    }
}

#[test]
fn test_generate_deployment_with_sources_and_mappings() {
    let meta = DeploymentMeta {
        name: "test-app".to_string(),
        namespace: "test-namespace".to_string(),
        owner_references: Some(vec![OwnerReference {
            api_version: "apps/v1".to_string(),
            kind: "ReplicaSet".to_string(),
            name: "parent-rs".to_string(),
            uid: "parent-uid".to_string(),
            controller: Some(true),
            block_owner_deletion: Some(true),
        }]),
        service_account_name: Some("test-service-account".to_string()),
        annotations: Some(map_of(&[("nuop.hash", "12345")])),
    };
    let image = "test-image";
    let env_vars = vec![env("TEST_ENV", "test-value")];
    let sources = vec![source("https://github.com/test/repo", "test/path", Some("test-secret"))];
    let mut m = mapping("test-mapping");
    m.field_selectors = map_of(&[("metadata.name", "test")]);
    m.label_selectors = map_of(&[("app", "test")]);
    m.requeue_after_change = Some(30);
    m.requeue_after_noop = Some(60);
    let mappings = vec![m];

    let d = generate_deployment("test-deployment", meta, image, &env_vars, &sources, &mappings);
    assert_eq!(d.name.as_deref(), Some("test-app"));
    assert_eq!(d.namespace.as_deref(), Some("test-namespace"));
    assert_eq!(d.owner_references.as_ref().unwrap()[0].name, "parent-rs");
    assert_eq!(d.annotations.as_ref().unwrap().get("nuop.hash"), Some(&"12345".to_string()));

    let spec = d.spec.unwrap();
    assert_eq!(spec.replicas, Some(1));
    assert_eq!(spec.selector.as_ref().unwrap().get("app"), Some(&"test-app".to_string()));
    assert_eq!(spec.template_labels.as_ref().unwrap().get("app"), Some(&"test-app".to_string()));
    let ta = spec.template_annotations.as_ref().unwrap();
    assert_eq!(ta.len(), 1);
    assert_eq!(ta.get("nuop.hash"), Some(&"12345".to_string()));

    let pod = spec.pod.unwrap();
    assert_eq!(pod.service_account_name.as_deref(), Some("test-service-account"));
    let init = pod.init_containers.unwrap();
    assert_eq!(init.len(), 1);
    assert_eq!(init[0].name, "init-container");
    assert_eq!(init[0].image.as_deref(), Some(image));
    assert_eq!(init[0].image_pull_policy.as_deref(), Some("Never"));
    let init_env = init[0].env.as_ref().unwrap();
    assert_eq!(init_env[0].name, "NUOP_MODE");
    assert_eq!(init_env[0].value.as_deref(), Some(NuopMode::Init.as_str()));
    assert_eq!(init_env[1].name, "TEST_ENV");
    assert_eq!(init_env[1].value.as_deref(), Some("test-value"));

    assert_eq!(pod.containers.len(), 1);
    let c = &pod.containers[0];
    assert_eq!(c.name, "nureconciler");
    assert_eq!(c.image.as_deref(), Some(image));
    let c_env = c.env.as_ref().unwrap();
    assert_eq!(c_env[0].name, "NUOP_MODE");
    assert_eq!(c_env[0].value.as_deref(), Some(NuopMode::Managed.as_str()));
    assert_eq!(c_env[1].name, "TEST_ENV");
    assert!(!pod.volumes.unwrap().is_empty());
    assert!(!c.volume_mounts.as_ref().unwrap().is_empty());
}

#[test]
fn test_generate_deployment_without_sources_and_mappings() {
    let meta = DeploymentMeta {
        name: "test-app".to_string(),
        namespace: "test-namespace".to_string(),
        owner_references: None,
        service_account_name: None,
        annotations: None,
    };
    let d = generate_deployment("test-deployment", meta, "test-image", &vec![], &vec![], &vec![]);
    let spec = d.spec.unwrap();
    assert!(spec.template_annotations.is_none());
    let pod = spec.pod.unwrap();
    assert!(pod.init_containers.is_none());
    let c = &pod.containers[0];
    let c_env = c.env.as_ref().unwrap();
    assert_eq!(c_env.len(), 1);
    assert_eq!(c_env[0].name, "NUOP_MODE");
    assert_eq!(c_env[0].value.as_deref(), Some("managed"));
    assert_eq!(pod.volumes.unwrap().len(), 0);
    assert_eq!(c.volume_mounts.as_ref().unwrap().len(), 0);
}

#[test]
fn test_has_drifted_comprehensive() {
    let existing = workload(Some(map_of(&[("nuop.hash", "12345")])), Some(replicas(1)));
    let different_annotation = workload(Some(map_of(&[("nuop.hash", "67890")])), Some(replicas(1)));
    assert!(has_drifted(&existing, &different_annotation));

    let different_replicas = workload(Some(map_of(&[("nuop.hash", "12345")])), Some(replicas(3)));
    assert!(has_drifted(&existing, &different_replicas));

    let mut old_image = container("test");
    old_image.image = Some("old-image".to_string());
    let mut new_image = container("test");
    new_image.image = Some("new-image".to_string());
    assert!(has_drifted(
        &workload(None, Some(pod(vec![old_image], None))),
        &workload(None, Some(pod(vec![new_image], None)))
    ));

    let mut old_env = container("test");
    old_env.env = Some(vec![env("TEST", "old")]);
    let mut new_env = container("test");
    new_env.env = Some(vec![env("TEST", "new")]);
    assert!(has_drifted(
        &workload(None, Some(pod(vec![old_env], None))),
        &workload(None, Some(pod(vec![new_env], None)))
    ));

    let mut old_mounts = container("test");
    old_mounts.volume_mounts = Some(vec![mount("old-mount", "/old")]);
    let mut new_mounts = container("test");
    new_mounts.volume_mounts = Some(vec![mount("new-mount", "/new")]);
    assert!(has_drifted(
        &workload(None, Some(pod(vec![old_mounts], None))),
        &workload(None, Some(pod(vec![new_mounts], None)))
    ));

    assert!(has_drifted(
        &workload(None, Some(pod(vec![container("test")], Some(vec![empty_dir("old-volume")])))),
        &workload(None, Some(pod(vec![container("test")], Some(vec![empty_dir("new-volume")]))))
    ));

    let identical = workload(Some(map_of(&[("nuop.hash", "12345")])), Some(replicas(1)));
    assert!(!has_drifted(&existing, &identical));
}

#[test]
fn extra_volumes_or_containers_are_no_drift() {
    let shorter = workload(None, Some(pod(vec![container("a")], Some(vec![empty_dir("v1")]))));
    let longer = workload(
        None,
        Some(pod(vec![container("a"), container("b")], Some(vec![empty_dir("v1"), empty_dir("v2")]))),
    );
    assert!(!has_drifted(&shorter, &longer));
    assert!(!has_drifted(&longer, &shorter));
}

#[test]
fn container_name_alone_is_no_drift() {
    assert!(!has_drifted(
        &workload(None, Some(pod(vec![container("a")], None))),
        &workload(None, Some(pod(vec![container("b")], None)))
    ));
}

#[test]
fn missing_spec_is_no_drift() {
    let a = workload(Some(map_of(&[("nuop.hash", "1")])), None);
    let b = workload(Some(map_of(&[("nuop.hash", "2")])), Some(replicas(1)));
    assert!(!has_drifted(&a, &b));
}

fn operator_spec(mappings: Vec<Mapping>, sources: Vec<Source>) -> NuOperatorSpec {
    NuOperatorSpec { env: vec![], image: None, mappings, sources, service_account_name: None }
}

#[test]
fn bundle_then_workload_create() {
    let spec = operator_spec(
        vec![mapping("first"), mapping("second")],
        vec![source("https://github.com/x/y", "scripts", None)],
    );
    let mdocs = vec!["m1".to_string(), "m2".to_string()];
    let sdocs = vec!["s1".to_string()];
    let owner = generate_owner_reference("kemper.buzz/v1alpha1", "NuOperator", "op", Some("uid-1"));
    let desired = reconcile("op", "ns", &owner, &spec, &mdocs, &sdocs);

    let mb = desired.mapping_bundle.as_ref().unwrap();
    let sb = desired.sources_bundle.as_ref().unwrap();
    assert_eq!(mb.name, "op-nuop-nuop-mapping-config");
    assert_eq!(sb.name, "op-nuop-nuop-sources-config");
    assert_eq!(bundle_write(&None, mb), WriteAction::Create);
    assert_eq!(bundle_write(&None, sb), WriteAction::Create);
    assert_eq!(workload_write(&None, &desired.workload), WriteAction::Create);

    assert_eq!(desired.workload.name.as_deref(), Some("op-nuop"));
    assert_eq!(desired.workload.spec.as_ref().unwrap().pod.as_ref().unwrap().containers[0].image.as_deref(),
        Some("ghcr.io/ck3mp3r/nuop:latest"));
    assert_eq!(desired.requeue, Action::Requeue(300));

    // the hash covers the mapping entries, then the source entries, key before value
    assert_eq!(hash_of(&desired.workload), bundles_hash(&desired.mapping_bundle, &desired.sources_bundle));
    let expected = "first.yamlm1second.yamlm2scripts.yamls1";
    let only = Some(nuop::bundle::ConfigBundle {
        name: "x".to_string(),
        namespace: "x".to_string(),
        owner_references: None,
        data: map_of(&[(expected, "")]),
        binary_data: TextMap::new(),
    });
    assert_eq!(hash_of(&desired.workload), bundles_hash(&only, &None));
    assert_eq!(hash_of(&desired.workload).len(), 64);
}

#[test]
fn hash_driven_restart() {
    let spec = operator_spec(
        vec![mapping("first"), mapping("second")],
        vec![source("https://github.com/x/y", "scripts", None)],
    );
    let sdocs = vec!["s1".to_string()];
    let before = reconcile("op", "ns", &None, &spec, &vec!["m1".to_string(), "m2".to_string()], &sdocs);
    let after = reconcile("op", "ns", &None, &spec, &vec!["m1".to_string(), "m2-changed".to_string()], &sdocs);

    let existing_mapping = before.mapping_bundle;
    let existing_sources = before.sources_bundle;
    assert_eq!(bundle_write(&existing_mapping, after.mapping_bundle.as_ref().unwrap()), WriteAction::Patch);
    assert_eq!(bundle_write(&existing_sources, after.sources_bundle.as_ref().unwrap()), WriteAction::Unchanged);
    assert_ne!(hash_of(&before.workload), hash_of(&after.workload));
    assert_eq!(workload_write(&Some(before.workload), &after.workload), WriteAction::Patch);
}

#[test]
fn hash_is_deterministic() {
    let spec = operator_spec(vec![mapping("a")], vec![]);
    let docs = vec!["doc".to_string()];
    let one = reconcile("op", "ns", &None, &spec, &docs, &vec![]);
    let two = reconcile("op", "ns", &None, &spec, &docs, &vec![]);
    assert_eq!(hash_of(&one.workload), hash_of(&two.workload));
    assert!(one.sources_bundle.is_none());
}

#[test]
fn empty_spec_gets_no_bundles() {
    let spec = operator_spec(vec![], vec![]);
    let desired = reconcile("op", "ns", &None, &spec, &vec![], &vec![]);
    assert!(desired.mapping_bundle.is_none());
    assert!(desired.sources_bundle.is_none());
    // the digest of no bytes at all
    assert_eq!(
        hash_of(&desired.workload),
        "e3b0c44298fc1c149afbf4c8996fb92427ae41e4649b934ca495991b7852b855"
    );
}

#[test]
fn reapplying_the_desired_workload_writes_nothing() {
    let spec = operator_spec(vec![mapping("a")], vec![source("l", "p", Some("s"))]);
    let first = reconcile("op", "ns", &None, &spec, &vec!["d".to_string()], &vec!["e".to_string()]);
    let second = reconcile("op", "ns", &None, &spec, &vec!["d".to_string()], &vec!["e".to_string()]);
    assert_eq!(workload_write(&Some(first.workload), &second.workload), WriteAction::Unchanged);
    assert_eq!(bundle_write(&first.mapping_bundle, second.mapping_bundle.as_ref().unwrap()), WriteAction::Unchanged);
}

#[test]
fn custom_image_and_service_account() {
    let mut spec = operator_spec(vec![], vec![]);
    spec.image = Some("custom-image:v1.0".to_string());
    spec.service_account_name = Some("custom-sa".to_string());
    let desired = reconcile("custom-nuoperator", "test-namespace", &None, &spec, &vec![], &vec![]);
    let pod = desired.workload.spec.as_ref().unwrap().pod.as_ref().unwrap();
    assert_eq!(pod.containers[0].image.as_deref(), Some("custom-image:v1.0"));
    assert_eq!(pod.service_account_name.as_deref(), Some("custom-sa"));
}

#[test]
fn test_error_policy_returns_requeue_action() {
    let err = to_kube_error("TestFailure", "Test error", 500);
    assert_eq!(error_policy(&err), Action::Requeue(60));
}

#[test]
fn test_error_policy_with_different_error_types() {
    let bad_request = to_kube_error("BadRequest", "API error", 400);
    assert_eq!(error_policy(&bad_request), Action::Requeue(60));
    let not_found = to_kube_error("NotFound", "Resource not found", 404);
    assert_eq!(error_policy(&not_found), Action::Requeue(60));
}

#[test]
fn binary_data_difference_is_patched() {
    let desired = generate_mapping_configmap("w", "ns", None, &vec![mapping("a")], &vec!["x".to_string()]).unwrap();
    let mut existing = generate_mapping_configmap("w", "ns", None, &vec![mapping("a")], &vec!["x".to_string()]).unwrap();
    assert_eq!(bundle_write(&Some(existing), &desired), WriteAction::Unchanged);
    existing = generate_mapping_configmap("w", "ns", None, &vec![mapping("a")], &vec!["x".to_string()]).unwrap();
    existing.binary_data.insert("blob".to_string(), "AAAA".to_string());
    assert_eq!(bundle_write(&Some(existing), &desired), WriteAction::Patch);
}

#[test]
fn mode_parsing() {
    assert_eq!(NuopMode::from_value("Manager"), NuopMode::Manager);
    assert_eq!(NuopMode::from_value("MANAGED"), NuopMode::Managed);
    assert_eq!(NuopMode::from_value("Init"), NuopMode::Init);
    assert_eq!(NuopMode::from_value("other"), NuopMode::Standard);
    assert_eq!(NuopMode::from_setting(None), NuopMode::Standard);
    assert_eq!(NuopMode::from_lowercase("manager"), NuopMode::Manager);
    assert_eq!(NuopMode::from_lowercase("Manager"), NuopMode::Standard);
    assert_eq!(NuopMode::Standard.as_str(), "standard");
}
