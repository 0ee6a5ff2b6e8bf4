use vstd::prelude::*;

use crate::manifest::Manifest;

verus! {

/// The part of the ecosystem a repository belongs to.
#[derive(Clone, Copy, Debug, PartialEq, Eq)]
pub enum RepoDomain {
    /// fleet-coordinate, pythagorean48-codes, holonomy-consensus
    Math,
    /// cocapn-glue-core, aboracle
    Protocol,
    /// spline-physics, constraint-theory-llvm
    Physics,
    /// constraint-theory-ecosystem, flux-research
    Docs,
    /// keeper, holodeck, PLATO room server
    Services,
}

/// Repository in the SuperInstance ecosystem.
#[derive(Clone, Debug)]
pub struct Repo {
    pub name: String,
    pub url: String,
    pub description: String,
    pub domain: RepoDomain,
    pub stars: u32,
}

/// The mathematical value of a [`Repo`]: its strings as character sequences.
pub struct RepoView {
    pub name: Seq<char>,
    pub url: Seq<char>,
    pub description: Seq<char>,
    pub domain: RepoDomain,
    pub stars: u32,
}

impl View for Repo {
    type V = RepoView;

    open spec fn view(&self) -> RepoView {
        RepoView {
            name: self.name@,
            url: self.url@,
            description: self.description@,
            domain: self.domain,
            stars: self.stars,
        }
    }
}

/// The views of a sequence of repositories.
pub open spec fn repo_views(repos: Seq<Repo>) -> Seq<RepoView> {
    repos.map_values(|r: Repo| r@)
}

/// Where the ecosystem's repositories are hosted.
pub open spec fn github_org_prefix() -> Seq<char> {
    "https://github.com/SuperInstance/"@
}

/// The repository inventory, in listing order.
pub open spec fn current_repos_views() -> Seq<RepoView> {
    seq![
        RepoView {
            name: "fleet-coordinate"@,
            url: "https://github.com/SuperInstance/fleet-coordinate"@,
            description: "ZHC consensus + Laman rigidity + beam equilibrium + H1 emergence"@,
            domain: RepoDomain::Math,
            stars: 0,
        },
        RepoView {
            name: "pythagorean48-codes"@,
            url: "https://github.com/SuperInstance/pythagorean48-codes"@,
            description: "48 exact direction vectors for trust encoding — shared codebook"@,
            domain: RepoDomain::Math,
            stars: 0,
        },
        RepoView {
            name: "holonomy-consensus"@,
            url: "https://github.com/SuperInstance/holonomy-consensus"@,
            description: "O(C·L) consensus — FM's implementation of zero-holonomy consensus"@,
            domain: RepoDomain::Math,
            stars: 0,
        },
        RepoView {
            name: "cocapn-glue-core"@,
            url: "https://github.com/SuperInstance/cocapn-glue-core"@,
            description: "Keeper↔Fleet binary wire protocol — TILE, HEARTBEAT, REGISTER messages"@,
            domain: RepoDomain::Protocol,
            stars: 0,
        },
        RepoView {
            name: "aboracle"@,
            url: "https://github.com/SuperInstance/aboracle"@,
            description: "FM-instinct agents — work-queue, beachcomb, health-system, mud-agent"@,
            domain: RepoDomain::Protocol,
            stars: 0,
        },
        RepoView {
            name: "spline-physics"@,
            url: "https://github.com/SuperInstance/spline-physics"@,
            description: "Beam physics — multi-segment joints, Newton-Raphson, 21 tests passing"@,
            domain: RepoDomain::Physics,
            stars: 0,
        },
        RepoView {
            name: "constraint-theory-llvm"@,
            url: "https://github.com/SuperInstance/constraint-theory-llvm"@,
            description: "LLVM backend — CDCL → AVX-512, analog spline computing, 210 tests"@,
            domain: RepoDomain::Physics,
            stars: 0,
        },
        RepoView {
            name: "constraint-theory-ecosystem"@,
            url: "https://github.com/SuperInstance/constraint-theory-ecosystem"@,
            description: "8-chapter cookbook, 12 recipes with GUARD DSL + FLUX-C examples"@,
            domain: RepoDomain::Docs,
            stars: 0,
        },
        RepoView {
            name: "flux-research"@,
            url: "https://github.com/SuperInstance/flux-research"@,
            description: "Dissertations, case studies, ArXiv papers — fleet math, marine cert"@,
            domain: RepoDomain::Docs,
            stars: 0,
        },
    ]
}

impl Manifest {
    /// The repositories of the ecosystem.
    pub fn current_repos() -> (repos: Vec<Repo>)
        ensures
            repo_views(repos@) == current_repos_views(),
            repos@.map_values(|r: Repo| r.domain) == seq![
                RepoDomain::Math,
                RepoDomain::Math,
                RepoDomain::Math,
                RepoDomain::Protocol,
                RepoDomain::Protocol,
                RepoDomain::Physics,
                RepoDomain::Physics,
                RepoDomain::Docs,
                RepoDomain::Docs,
            ],
    {
        let repos = vec![
            Repo {
                name: "fleet-coordinate".to_string(),
                url: "https://github.com/SuperInstance/fleet-coordinate".to_string(),
                description: "ZHC consensus + Laman rigidity + beam equilibrium + H1 emergence".to_string(),
                domain: RepoDomain::Math,
                stars: 0,
            },
            Repo {
                name: "pythagorean48-codes".to_string(),
                url: "https://github.com/SuperInstance/pythagorean48-codes".to_string(),
                description: "48 exact direction vectors for trust encoding — shared codebook".to_string(),
                domain: RepoDomain::Math,
                stars: 0,
            },
            Repo {
                name: "holonomy-consensus".to_string(),
                url: "https://github.com/SuperInstance/holonomy-consensus".to_string(),
                description: "O(C·L) consensus — FM's implementation of zero-holonomy consensus".to_string(),
                domain: RepoDomain::Math,
                stars: 0,
            },
            Repo {
                name: "cocapn-glue-core".to_string(),
                url: "https://github.com/SuperInstance/cocapn-glue-core".to_string(),
                description: "Keeper↔Fleet binary wire protocol — TILE, HEARTBEAT, REGISTER messages".to_string(),
                domain: RepoDomain::Protocol,
                stars: 0,
            },
            Repo {
                name: "aboracle".to_string(),
                url: "https://github.com/SuperInstance/aboracle".to_string(),
                description: "FM-instinct agents — work-queue, beachcomb, health-system, mud-agent".to_string(),
                domain: RepoDomain::Protocol,
                stars: 0,
            },
            Repo {
                name: "spline-physics".to_string(),
                url: "https://github.com/SuperInstance/spline-physics".to_string(),
                description: "Beam physics — multi-segment joints, Newton-Raphson, 21 tests passing".to_string(),
                domain: RepoDomain::Physics,
                stars: 0,
            },
            Repo {
                name: "constraint-theory-llvm".to_string(),
                url: "https://github.com/SuperInstance/constraint-theory-llvm".to_string(),
                description: "LLVM backend — CDCL → AVX-512, analog spline computing, 210 tests".to_string(),
                domain: RepoDomain::Physics,
                stars: 0,
            },
            Repo {
                name: "constraint-theory-ecosystem".to_string(),
                url: "https://github.com/SuperInstance/constraint-theory-ecosystem".to_string(),
                description: "8-chapter cookbook, 12 recipes with GUARD DSL + FLUX-C examples".to_string(),
                domain: RepoDomain::Docs,
                stars: 0,
            },
            Repo {
                name: "flux-research".to_string(),
                url: "https://github.com/SuperInstance/flux-research".to_string(),
                description: "Dissertations, case studies, ArXiv papers — fleet math, marine cert".to_string(),
                domain: RepoDomain::Docs,
                stars: 0,
            },
        ];
        assert(repo_views(repos@) =~= current_repos_views());
        assert(repos@.map_values(|r: Repo| r.domain) =~= seq![
            RepoDomain::Math,
            RepoDomain::Math,
            RepoDomain::Math,
            RepoDomain::Protocol,
            RepoDomain::Protocol,
            RepoDomain::Physics,
            RepoDomain::Physics,
            RepoDomain::Docs,
            RepoDomain::Docs,
        ]);
        repos
    }
}

/// The inventory's domains, as the domain documentation lists them: the
/// repositories in listing order, Math for fleet-coordinate,
/// pythagorean48-codes and holonomy-consensus, Protocol for cocapn-glue-core
/// and aboracle, Physics for spline-physics and constraint-theory-llvm, Docs
/// for constraint-theory-ecosystem and flux-research, and no Services yet.
pub proof fn lemma_repo_domains()
    ensures
        current_repos_views().map_values(|r: RepoView| r.name) == seq![
            "fleet-coordinate"@,
            "pythagorean48-codes"@,
            "holonomy-consensus"@,
            "cocapn-glue-core"@,
            "aboracle"@,
            "spline-physics"@,
            "constraint-theory-llvm"@,
            "constraint-theory-ecosystem"@,
            "flux-research"@,
        ],
        current_repos_views().map_values(|r: RepoView| r.domain) == seq![
            RepoDomain::Math,
            RepoDomain::Math,
            RepoDomain::Math,
            RepoDomain::Protocol,
            RepoDomain::Protocol,
            RepoDomain::Physics,
            RepoDomain::Physics,
            RepoDomain::Docs,
            RepoDomain::Docs,
        ],
        forall|i: int|
            0 <= i < current_repos_views().len() ==> ((#[trigger] current_repos_views()[i]).domain
                == RepoDomain::Math <==> (current_repos_views()[i].name == "fleet-coordinate"@
                    || current_repos_views()[i].name == "pythagorean48-codes"@
                    || current_repos_views()[i].name == "holonomy-consensus"@)),
        forall|i: int|
            0 <= i < current_repos_views().len() ==> ((#[trigger] current_repos_views()[i]).domain
                == RepoDomain::Protocol <==> (current_repos_views()[i].name == "cocapn-glue-core"@
                    || current_repos_views()[i].name == "aboracle"@)),
        forall|i: int|
            0 <= i < current_repos_views().len() ==> ((#[trigger] current_repos_views()[i]).domain
                == RepoDomain::Physics <==> (current_repos_views()[i].name == "spline-physics"@
                    || current_repos_views()[i].name == "constraint-theory-llvm"@)),
        forall|i: int|
            0 <= i < current_repos_views().len() ==> ((#[trigger] current_repos_views()[i]).domain
                == RepoDomain::Docs <==> (current_repos_views()[i].name == "constraint-theory-ecosystem"@
                    || current_repos_views()[i].name == "flux-research"@)),
        forall|i: int|
            0 <= i < current_repos_views().len() ==> (#[trigger] current_repos_views()[i]).domain
                != RepoDomain::Services,
{
    reveal_strlit("fleet-coordinate");
    reveal_strlit("pythagorean48-codes");
    reveal_strlit("holonomy-consensus");
    reveal_strlit("cocapn-glue-core");
    reveal_strlit("aboracle");
    reveal_strlit("spline-physics");
    reveal_strlit("constraint-theory-llvm");
    reveal_strlit("constraint-theory-ecosystem");
    reveal_strlit("flux-research");
    let r = current_repos_views();
    assert(r.map_values(|x: RepoView| x.name) =~= seq![
        "fleet-coordinate"@,
        "pythagorean48-codes"@,
        "holonomy-consensus"@,
        "cocapn-glue-core"@,
        "aboracle"@,
        "spline-physics"@,
        "constraint-theory-llvm"@,
        "constraint-theory-ecosystem"@,
        "flux-research"@,
    ]);
    assert(r.map_values(|x: RepoView| x.domain) =~= seq![
        RepoDomain::Math,
        RepoDomain::Math,
        RepoDomain::Math,
        RepoDomain::Protocol,
        RepoDomain::Protocol,
        RepoDomain::Physics,
        RepoDomain::Physics,
        RepoDomain::Docs,
        RepoDomain::Docs,
    ]);
    assert("fleet-coordinate"@.len() == 16);
    assert("pythagorean48-codes"@.len() == 19);
    assert("holonomy-consensus"@.len() == 18);
    assert("cocapn-glue-core"@.len() == 16);
    assert("aboracle"@.len() == 8);
    assert("spline-physics"@.len() == 14);
    assert("constraint-theory-llvm"@.len() == 22);
    assert("constraint-theory-ecosystem"@.len() == 27);
    assert("flux-research"@.len() == 13);
    assert("fleet-coordinate"@ != "cocapn-glue-core"@) by {
        assert("fleet-coordinate"@[0] != "cocapn-glue-core"@[0]);
    }
    assert forall|i: int| 0 <= i < r.len() implies {
            &&& (r[i].domain == RepoDomain::Math <==> (r[i].name == "fleet-coordinate"@ || r[i].name == "pythagorean48-codes"@ || r[i].name == "holonomy-consensus"@))
            &&& (r[i].domain == RepoDomain::Protocol <==> (r[i].name == "cocapn-glue-core"@ || r[i].name == "aboracle"@))
            &&& (r[i].domain == RepoDomain::Physics <==> (r[i].name == "spline-physics"@ || r[i].name == "constraint-theory-llvm"@))
            &&& (r[i].domain == RepoDomain::Docs <==> (r[i].name == "constraint-theory-ecosystem"@ || r[i].name == "flux-research"@))
            &&& (#[trigger] r[i]).domain != RepoDomain::Services
        } by {
        assert(i == 0 || i == 1 || i == 2 || i == 3 || i == 4 || i == 5 || i == 6 || i == 7 || i == 8);
    }
}

/// Every repository of the inventory lives under the organisation's GitHub
/// account, at the URL made of the prefix and its name.
pub proof fn lemma_repo_urls_on_github()
    ensures
        forall|i: int|
            0 <= i < current_repos_views().len() ==> (#[trigger] current_repos_views()[i]).url
                == github_org_prefix() + current_repos_views()[i].name,
{
    reveal_strlit("https://github.com/SuperInstance/");
    reveal_strlit("fleet-coordinate");
    reveal_strlit("https://github.com/SuperInstance/fleet-coordinate");
    reveal_strlit("pythagorean48-codes");
    reveal_strlit("https://github.com/SuperInstance/pythagorean48-codes");
    reveal_strlit("holonomy-consensus");
    reveal_strlit("https://github.com/SuperInstance/holonomy-consensus");
    reveal_strlit("cocapn-glue-core");
    reveal_strlit("https://github.com/SuperInstance/cocapn-glue-core");
    reveal_strlit("aboracle");
    reveal_strlit("https://github.com/SuperInstance/aboracle");
    reveal_strlit("spline-physics");
    reveal_strlit("https://github.com/SuperInstance/spline-physics");
    reveal_strlit("constraint-theory-llvm");
    reveal_strlit("https://github.com/SuperInstance/constraint-theory-llvm");
    reveal_strlit("constraint-theory-ecosystem");
    reveal_strlit("https://github.com/SuperInstance/constraint-theory-ecosystem");
    reveal_strlit("flux-research");
    reveal_strlit("https://github.com/SuperInstance/flux-research");
    let repos = current_repos_views();
    assert(repos[0].url =~= github_org_prefix() + repos[0].name);
    assert(repos[1].url =~= github_org_prefix() + repos[1].name);
    assert(repos[2].url =~= github_org_prefix() + repos[2].name);
    assert(repos[3].url =~= github_org_prefix() + repos[3].name);
    assert(repos[4].url =~= github_org_prefix() + repos[4].name);
    assert(repos[5].url =~= github_org_prefix() + repos[5].name);
    assert(repos[6].url =~= github_org_prefix() + repos[6].name);
    assert(repos[7].url =~= github_org_prefix() + repos[7].name);
    assert(repos[8].url =~= github_org_prefix() + repos[8].name);
    assert forall|i: int| 0 <= i < repos.len() implies (#[trigger] repos[i]).url == github_org_prefix()
        + repos[i].name by {
        assert(i == 0 || i == 1 || i == 2 || i == 3 || i == 4 || i == 5 || i == 6 || i == 7 || i == 8);
    }
}

} // verus!
