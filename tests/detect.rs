use ciso::detect::{exclude_repos, group_by_repo};
use ciso::ecosystem::Ecosystem;

fn h(repo: &str, path: &str) -> (String, String) {
    (repo.to_string(), path.to_string())
}

#[test]
fn pyproject_hits_of_uv_repos_are_dropped() {
    let roots = vec![h("o/a", "/r/1/contents/pyproject.toml"), h("o/b", "/r/2/contents/pyproject.toml")];
    let uv = vec![h("o/a", "/r/1/contents/uv.lock")];
    assert_eq!(exclude_repos(&roots, &uv), vec![h("o/b", "/r/2/contents/pyproject.toml")]);
    assert_eq!(exclude_repos(&roots, &vec![]), roots);
}

#[test]
fn hits_grouped_by_repository_in_order() {
    let searches = vec![
        (vec![h("o/a", "/r/1/contents/Cargo.toml"), h("o/b", "/r/2/contents/Cargo.toml")], Ecosystem::Cargo),
        (vec![], Ecosystem::Go),
        (vec![h("o/a", "/r/1/contents/web/package.json")], Ecosystem::Npm),
    ];
    let g = group_by_repo(&searches);
    assert_eq!(g.len(), 2);
    assert_eq!(g[0].0, "o/a");
    assert_eq!(
        g[0].1,
        vec![
            ("/r/1/contents/Cargo.toml".to_string(), Ecosystem::Cargo),
            ("/r/1/contents/web/package.json".to_string(), Ecosystem::Npm),
        ]
    );
    assert_eq!(g[1].0, "o/b");
    assert_eq!(g[1].1, vec![("/r/2/contents/Cargo.toml".to_string(), Ecosystem::Cargo)]);
}

#[test]
fn no_hits_no_groups() {
    assert!(group_by_repo(&vec![]).is_empty());
}
