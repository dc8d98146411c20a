use nqrust_hvcollector::utils::{
    compose_candidate, first_manifest_ancestor, is_development_dir, needs_compose_scaffold, project_manifest,
    scaffold_compose_file, COMPOSE_CANDIDATE_COUNT,
};

#[test]
fn compose_names() {
    let names: Vec<&str> = (0..COMPOSE_CANDIDATE_COUNT).map(compose_candidate).collect();
    assert_eq!(names, vec!["docker-compose.yaml", "docker-compose.yml", "compose.yaml", "compose.yml"]);
    assert_eq!(scaffold_compose_file(), "docker-compose.yaml");
}

#[test]
fn scaffold_only_when_no_compose_file() {
    assert!(needs_compose_scaffold(&vec![false, false, false, false]));
    assert!(!needs_compose_scaffold(&vec![false, false, true, false]));
    assert!(!needs_compose_scaffold(&vec![true, true, true, true]));
}

#[test]
fn development_directories() {
    assert!(is_development_dir("/home/u/installer/target/release"));
    assert!(is_development_dir("/srv/targets"));
    assert!(!is_development_dir("/opt/hvcollector"));
    assert!(!is_development_dir(""));
}

#[test]
fn nearest_ancestor_with_manifest() {
    assert_eq!(project_manifest(), "Cargo.toml");
    assert_eq!(first_manifest_ancestor(&vec![false, true, true]), Some(1));
    assert_eq!(first_manifest_ancestor(&vec![true]), Some(0));
    assert_eq!(first_manifest_ancestor(&vec![false, false]), None);
    assert_eq!(first_manifest_ancestor(&vec![]), None);
}
