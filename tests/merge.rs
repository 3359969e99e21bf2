use ciso::dependabot::{Update, UpdateOverride};
use ciso::ecosystem::Ecosystem;
use ciso::merge::{
    apply_override, build_updates, finalize, generate_config, normalize_path, Defaults, MergeError,
};
use std::collections::HashMap;

fn hit(path: &str, ecosystem: Ecosystem) -> (String, Ecosystem) {
    (path.to_string(), ecosystem)
}

fn patch(ecosystem: &str) -> UpdateOverride {
    UpdateOverride {
        package_ecosystem: ecosystem.to_string(),
        ..UpdateOverride::default()
    }
}

fn group_names(u: &Update) -> Vec<String> {
    u.groups.as_ref().unwrap().keys().cloned().collect()
}

#[test]
fn normalize_root_manifest() {
    let p = normalize_path(&"/repositories/848456627/contents/Cargo.toml".to_string());
    assert_eq!(p, Some("/".to_string()));
}

#[test]
fn normalize_nested_manifest() {
    let p = normalize_path(&"/repositories/1/contents/a/b/package.json".to_string());
    assert_eq!(p, Some("/a/b".to_string()));
}

#[test]
fn normalize_too_short() {
    assert_eq!(normalize_path(&"/repositories/1/Cargo.toml".to_string()), None);
    assert_eq!(normalize_path(&"".to_string()), None);
}

#[test]
fn ci_and_cargo_at_root() {
    let detected = vec![hit("/repositories/848456627/contents/Cargo.toml", Ecosystem::Cargo)];
    let config = generate_config(&detected, true, &vec![], &HashMap::new(), &Defaults::standard())
        .unwrap()
        .unwrap();
    assert_eq!(config.version, 2);
    assert!(config.registries.is_none());
    assert_eq!(config.updates.len(), 2);
    assert_eq!(config.updates[0].package_ecosystem, "github-actions");
    assert_eq!(config.updates[1].package_ecosystem, "cargo");
    for u in &config.updates {
        assert_eq!(u.directory.as_deref(), Some("/"));
        assert_eq!(u.schedule.interval, "weekly");
        assert_eq!(u.schedule.day.as_deref(), Some("saturday"));
        assert_eq!(u.schedule.timezone.as_deref(), Some("America/Los_Angeles"));
        assert_eq!(
            group_names(u),
            vec!["security", "security-major", "patch", "major", "minor"]
        );
        assert_eq!(u.open_pull_requests_limit, Some(5));
    }
}

#[test]
fn submodule_has_no_cooldown() {
    let detected = vec![
        hit("/repositories/7/contents/.gitmodules", Ecosystem::Submodule),
        hit("/repositories/7/contents/web/package.json", Ecosystem::Npm),
        hit("/repositories/7/contents/Dockerfile", Ecosystem::Docker),
    ];
    let updates = build_updates(&detected, false, &vec![], &Defaults::standard()).unwrap();
    assert_eq!(updates.len(), 3);
    assert_eq!(updates[0].package_ecosystem, "gitsubmodule");
    assert!(updates[0].cooldown.is_none());
    for u in &updates[1..] {
        let c = u.cooldown.as_ref().unwrap();
        assert_eq!(c.default_days, Some(7));
        assert_eq!(
            c.exclude,
            Some(vec!["*kcl*".to_string(), "*zoo*".to_string(), "*kittycad*".to_string()])
        );
    }
}

#[test]
fn override_limit_for_npm_only() {
    let detected = vec![
        hit("/repositories/7/contents/package.json", Ecosystem::Npm),
        hit("/repositories/7/contents/Cargo.toml", Ecosystem::Cargo),
    ];
    let mut o = patch("npm");
    o.open_pull_requests_limit = Some(10);
    let updates = build_updates(&detected, true, &vec![o], &Defaults::standard()).unwrap();
    assert_eq!(updates.len(), 3);
    assert_eq!(updates[0].open_pull_requests_limit, Some(5));
    assert_eq!(updates[1].package_ecosystem, "npm");
    assert_eq!(updates[1].open_pull_requests_limit, Some(10));
    assert_eq!(updates[2].open_pull_requests_limit, Some(5));
}

#[test]
fn duplicate_detection_is_dropped() {
    let detected = vec![
        hit("/repositories/7/contents/requirements.txt", Ecosystem::Pip),
        hit("/repositories/7/contents/pyproject.toml", Ecosystem::Pip),
        hit("/repositories/7/contents/sub/pyproject.toml", Ecosystem::Pip),
        hit("/repositories/7/contents/Dockerfile", Ecosystem::Docker),
    ];
    let updates = build_updates(&detected, false, &vec![], &Defaults::standard()).unwrap();
    let keys: Vec<(String, String)> = updates
        .iter()
        .map(|u| (u.directory.clone().unwrap(), u.package_ecosystem.clone()))
        .collect();
    assert_eq!(
        keys,
        vec![
            ("/".to_string(), "pip".to_string()),
            ("/sub".to_string(), "pip".to_string()),
            ("/".to_string(), "docker".to_string()),
        ]
    );
}

#[test]
fn detection_clashing_with_ci_entry_is_dropped() {
    let detected = vec![hit("/repositories/7/contents/x.yml", Ecosystem::GitHubActions)];
    let updates = build_updates(&detected, true, &vec![], &Defaults::standard()).unwrap();
    assert_eq!(updates.len(), 1);
}

#[test]
fn two_overrides_fail() {
    let detected = vec![hit("/repositories/7/contents/package.json", Ecosystem::Npm)];
    let overrides = vec![patch("npm"), patch("npm")];
    let r = build_updates(&detected, false, &overrides, &Defaults::standard());
    match r {
        Err(MergeError::AmbiguousOverride { package_ecosystem }) => {
            assert_eq!(package_ecosystem, "npm")
        }
        _ => panic!("expected an ambiguous override"),
    }
}

#[test]
fn two_overrides_of_other_ecosystem_do_not_matter() {
    let detected = vec![hit("/repositories/7/contents/Cargo.toml", Ecosystem::Cargo)];
    let overrides = vec![patch("npm"), patch("npm")];
    let r = build_updates(&detected, false, &overrides, &Defaults::standard()).unwrap();
    assert_eq!(r.len(), 1);
}

#[test]
fn malformed_path_fails() {
    let detected = vec![hit("Cargo.toml", Ecosystem::Cargo)];
    match build_updates(&detected, false, &vec![], &Defaults::standard()) {
        Err(MergeError::MalformedPath { path }) => assert_eq!(path, "Cargo.toml"),
        _ => panic!("expected a malformed path"),
    }
}

fn cargo_entry() -> Update {
    let detected = vec![hit("/repositories/7/contents/Cargo.toml", Ecosystem::Cargo)];
    build_updates(&detected, false, &vec![], &Defaults::standard()).unwrap().remove(0)
}

#[test]
fn no_override_keeps_entry() {
    let u = apply_override(cargo_entry(), &vec![]).unwrap();
    let expected = cargo_entry();
    assert_eq!(format!("{:?}", u), format!("{:?}", expected));
}

#[test]
fn milestone_only_override() {
    let mut o = patch("cargo");
    o.milestone = Some(4);
    let u = apply_override(cargo_entry(), &vec![o]).unwrap();
    let mut expected = cargo_entry();
    expected.milestone = Some(4);
    assert_eq!(format!("{:?}", u), format!("{:?}", expected));
}

#[test]
fn override_is_idempotent() {
    let mut o = patch("cargo");
    o.labels = Some(vec!["deps".to_string()]);
    o.directory = Some("/crates".to_string());
    o.milestone = Some(2);
    let overrides = vec![o, patch("npm")];
    let once = apply_override(cargo_entry(), &overrides).unwrap();
    let twice = apply_override(once.clone(), &overrides).unwrap();
    assert_eq!(format!("{:?}", once), format!("{:?}", twice));
    assert_eq!(once.directory.as_deref(), Some("/crates"));
    assert_eq!(once.labels, Some(vec!["deps".to_string()]));
}

#[test]
fn override_fills_directories_beside_directory() {
    let mut o = patch("cargo");
    o.directories = Some(vec!["/a".to_string()]);
    let u = apply_override(cargo_entry(), &vec![o]).unwrap();
    assert!(u.directory.is_some() && u.directories.is_some());
}

#[test]
fn generated_entries_fill_one_directory_field() {
    let detected = vec![
        hit("/repositories/7/contents/go.mod", Ecosystem::Go),
        hit("/repositories/7/contents/infra/.terraform.lock.hcl", Ecosystem::Terraform),
    ];
    let updates = build_updates(&detected, true, &vec![patch("gomod")], &Defaults::standard()).unwrap();
    for u in &updates {
        assert!(!(u.directory.is_some() && u.directories.is_some()));
    }
}

#[test]
fn override_keeps_ecosystem() {
    let mut o = patch("cargo");
    o.vendor = Some(true);
    let u = cargo_entry().override_config(&o);
    assert_eq!(u.package_ecosystem, "cargo");
    assert_eq!(u.vendor, Some(true));
}

#[test]
fn finalize_empty_is_none() {
    assert!(finalize(vec![], &HashMap::new()).is_none());
}

#[test]
fn finalize_passes_registries() {
    let mut regs = HashMap::new();
    regs.insert(
        "npm-private".to_string(),
        ciso::dependabot::Registry {
            registry_type: "npm-registry".to_string(),
            url: "https://npm.example.com".to_string(),
            username: None,
            password: None,
            token: Some("SECRET-REDACTED".to_string()),
            replaces_base: Some(true),
        },
    );
    let c = finalize(vec![cargo_entry()], &regs).unwrap();
    assert_eq!(c.version, 2);
    assert_eq!(c.updates.len(), 1);
    assert_eq!(c.registries.unwrap().len(), 1);
}

#[test]
fn no_detection_no_config() {
    let r = generate_config(&vec![], false, &vec![], &HashMap::new(), &Defaults::standard()).unwrap();
    assert!(r.is_none());
}

#[test]
fn ecosystem_names() {
    assert_eq!(Ecosystem::Go.to_string(), "gomod");
    assert_eq!(Ecosystem::Submodule.to_string(), "gitsubmodule");
    assert_eq!(Ecosystem::GitHubActions.to_string(), "github-actions");
}

#[test]
fn ecosystem_names_are_distinct() {
    let all = [
        Ecosystem::Cargo,
        Ecosystem::Npm,
        Ecosystem::Go,
        Ecosystem::Submodule,
        Ecosystem::Terraform,
        Ecosystem::Pip,
        Ecosystem::Uv,
        Ecosystem::Bundler,
        Ecosystem::Docker,
        Ecosystem::GitHubActions,
    ];
    for a in all {
        for b in all {
            assert_eq!(a.to_string() == b.to_string(), a == b);
        }
    }
}
