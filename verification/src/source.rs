//! The install-source phase: how the chosen source becomes packages on
//! the host.
use vstd::prelude::*;

use crate::model::{InstallConfig, LogLevel};
use crate::plans::{
    apt_deps_spec, build_from_source, build_from_source_spec, configure_upstream_repo,
    install_apt_deps, install_packages, install_packages_spec, note, plan_error, upstream_repo_spec,
    Plan,
};
use crate::steps::{step_views, Step, StepView};

verus! {

/// Steps of `a` followed by `b`, unless `a` ends with an error.
pub open spec fn then_spec(
    a: (Seq<StepView>, Option<Seq<char>>),
    b: (Seq<StepView>, Option<Seq<char>>),
) -> (Seq<StepView>, Option<Seq<char>>) {
    if a.1 is Some {
        a
    } else {
        (a.0 + b.0, b.1)
    }
}

/// The install-source phase: upstream packages (prerequisites, the apt
/// repository for the host's release, the profile's packages), a source
/// build (prerequisites, the build), or nothing but a note when only
/// configuring.
pub open spec fn source_run_spec(
    cfg: InstallConfig,
    debian_family: bool,
    pretty: Seq<char>,
    version: Seq<char>,
    repo: Option<(Seq<char>, Seq<char>)>,
) -> (Seq<StepView>, Option<Seq<char>>) {
    match cfg.source {
        crate::model::InstallSource::UpstreamCompat => then_spec(
            apt_deps_spec(debian_family, pretty, cfg.dry_run),
            (upstream_repo_spec(version) + install_packages_spec(cfg.profile, cfg.dry_run), None),
        ),
        crate::model::InstallSource::BuildFromSource => then_spec(
            apt_deps_spec(debian_family, pretty, cfg.dry_run),
            then_spec(
                build_from_source_spec(repo),
                (
                    seq![
                        StepView::Note(
                            LogLevel::Info,
                            "build-from-source: locating built .debs and dpkg -i"@,
                        ),
                    ],
                    None,
                ),
            ),
        ),
        crate::model::InstallSource::ConfigureOnly => (
            seq![
                StepView::Note(LogLevel::Info, "configure-only source: skipping package install"@),
            ],
            None,
        ),
    }
}

/// The install-source phase for `cfg`, given the host's OS facts and, for a
/// source build, the repository root and its shown parent.
pub fn run(
    cfg: &InstallConfig,
    debian_family: bool,
    pretty: &str,
    version_id: &str,
    repo: Option<(&str, &str)>,
) -> (p: Plan)
    ensures
        (step_views(p.steps@), plan_error(p)) == source_run_spec(
            *cfg,
            debian_family,
            pretty@,
            version_id@,
            match repo {
                Some((r, q)) => Some((r@, q@)),
                None => None,
            },
        ),
{
    let ghost rv = match repo {
        Some((r, q)) => Some((r@, q@)),
        None => None,
    };
    match cfg.source {
        crate::model::InstallSource::UpstreamCompat => {
            let a = install_apt_deps(debian_family, pretty, cfg.dry_run);
            if a.error.is_some() {
                return a;
            }
            let mut steps = a.steps;
            let ghost s0 = step_views(steps@);
            let mut b = configure_upstream_repo(version_id);
            let ghost b0 = step_views(b@);
            steps.append(&mut b);
            let mut c = install_packages(cfg.profile, cfg.dry_run);
            let ghost c0 = step_views(c@);
            steps.append(&mut c);
            assert(step_views(steps@) =~= s0 + (b0 + c0));
            Plan { steps, error: None }
        },
        crate::model::InstallSource::BuildFromSource => {
            let a = install_apt_deps(debian_family, pretty, cfg.dry_run);
            if a.error.is_some() {
                return a;
            }
            let mut steps = a.steps;
            let ghost s0 = step_views(steps@);
            let b = build_from_source(repo);
            let ghost b0 = step_views(b.steps@);
            let mut bs = b.steps;
            steps.append(&mut bs);
            assert(step_views(steps@) =~= s0 + b0);
            if b.error.is_some() {
                return Plan { steps, error: b.error };
            }
            steps.push(note(LogLevel::Info, "build-from-source: locating built .debs and dpkg -i"));
            assert(step_views(steps@) =~= s0 + (b0 + seq![
                StepView::Note(LogLevel::Info, "build-from-source: locating built .debs and dpkg -i"@),
            ]));
            Plan { steps, error: None }
        },
        crate::model::InstallSource::ConfigureOnly => {
            let mut steps: Vec<Step> = Vec::new();
            steps.push(note(LogLevel::Info, "configure-only source: skipping package install"));
            assert(step_views(steps@) =~= source_run_spec(*cfg, debian_family, pretty@, version_id@, rv).0);
            Plan { steps, error: None }
        },
    }
}

} // verus!
