//! The package ecosystems and their canonical identifiers.

use vstd::prelude::*;
use crate::text::owned;

verus! {

/// A package ecosystem whose dependencies can be kept up to date.
#[derive(Debug, Clone, Copy, PartialEq, Eq, Hash)]
pub enum Ecosystem {
    Cargo,
    Npm,
    Go,
    Submodule,
    Terraform,
    Pip,
    Uv,
    Bundler,
    Docker,
    GitHubActions,
}

impl Ecosystem {
    /// The canonical identifier of the ecosystem in a configuration file.
    pub open spec fn spec_name(self) -> Seq<char> {
        match self {
            Ecosystem::Cargo => "cargo"@,
            Ecosystem::Npm => "npm"@,
            Ecosystem::Go => "gomod"@,
            Ecosystem::Submodule => "gitsubmodule"@,
            Ecosystem::Terraform => "terraform"@,
            Ecosystem::Pip => "pip"@,
            Ecosystem::Uv => "uv"@,
            Ecosystem::Bundler => "bundler"@,
            Ecosystem::Docker => "docker"@,
            Ecosystem::GitHubActions => "github-actions"@,
        }
    }

    /// The canonical identifier of the ecosystem.
    pub fn to_string(&self) -> (r: String)
        ensures
            r@ == self.spec_name(),
    {
        match self {
            Ecosystem::Cargo => owned("cargo"),
            Ecosystem::Npm => owned("npm"),
            Ecosystem::Go => owned("gomod"),
            Ecosystem::Submodule => owned("gitsubmodule"),
            Ecosystem::Terraform => owned("terraform"),
            Ecosystem::Pip => owned("pip"),
            Ecosystem::Uv => owned("uv"),
            Ecosystem::Bundler => owned("bundler"),
            Ecosystem::Docker => owned("docker"),
            Ecosystem::GitHubActions => owned("github-actions"),
        }
    }
}

/// Each ecosystem has its own identifier: equal identifiers mean equal ecosystems.
pub proof fn lemma_names_distinct(a: Ecosystem, b: Ecosystem)
    ensures
        a.spec_name() == b.spec_name() ==> a == b,
{
    reveal_strlit("cargo");
    reveal_strlit("npm");
    reveal_strlit("gomod");
    reveal_strlit("gitsubmodule");
    reveal_strlit("terraform");
    reveal_strlit("pip");
    reveal_strlit("uv");
    reveal_strlit("bundler");
    reveal_strlit("docker");
    reveal_strlit("github-actions");
    if a.spec_name() == b.spec_name() {
        assert(a.spec_name().len() == b.spec_name().len());
        assert(a.spec_name()[0] == b.spec_name()[0]);
    }
}

} // verus!
