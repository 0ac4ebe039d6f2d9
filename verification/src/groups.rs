//! The three dependency-declaration groups and their fixed identifiers.

use vstd::prelude::*;

verus! {

/// One dependency-declaration group of a module's manifest.
#[derive(Clone, Copy, Debug, PartialEq, Eq, Structural)]
pub enum DependencyGroup {
    Normal,
    Dev,
    Build,
}

/// The manifest table that holds the group's declarations.
pub open spec fn spec_dep_group(g: DependencyGroup) -> Seq<char> {
    match g {
        DependencyGroup::Normal => "dependencies"@,
        DependencyGroup::Dev => "dev-dependencies"@,
        DependencyGroup::Build => "build-dependencies"@,
    }
}

/// The sub-key of the reserved ignore-list metadata table for the group.
/// The development group's key is `dev`, not `development`.
pub open spec fn spec_ignore_group(g: DependencyGroup) -> Seq<char> {
    match g {
        DependencyGroup::Normal => "normal"@,
        DependencyGroup::Dev => "dev"@,
        DependencyGroup::Build => "build"@,
    }
}

/// The removal tool's group flag; the normal group needs none.
pub open spec fn spec_extra_flag(g: DependencyGroup) -> Option<Seq<char>> {
    match g {
        DependencyGroup::Normal => None,
        DependencyGroup::Dev => Some("--dev"@),
        DependencyGroup::Build => Some("--build"@),
    }
}

/// The group's display label, used when a ledger entry is rendered.
pub open spec fn spec_label(g: DependencyGroup) -> Seq<char> {
    match g {
        DependencyGroup::Normal => "Normal"@,
        DependencyGroup::Dev => "Dev"@,
        DependencyGroup::Build => "Build"@,
    }
}

impl DependencyGroup {
    pub fn dep_group(&self) -> (r: &'static str)
        ensures
            r@ == spec_dep_group(*self),
    {
        match self {
            DependencyGroup::Normal => "dependencies",
            DependencyGroup::Dev => "dev-dependencies",
            DependencyGroup::Build => "build-dependencies",
        }
    }

    pub fn ignore_group(&self) -> (r: &'static str)
        ensures
            r@ == spec_ignore_group(*self),
    {
        match self {
            DependencyGroup::Normal => "normal",
            DependencyGroup::Dev => "dev",
            DependencyGroup::Build => "build",
        }
    }

    pub fn extra_flag(&self) -> (r: Option<&'static str>)
        ensures
            match r {
                Some(f) => spec_extra_flag(*self) == Some(f@),
                None => spec_extra_flag(*self) is None,
            },
    {
        match self {
            DependencyGroup::Normal => None,
            DependencyGroup::Dev => Some("--dev"),
            DependencyGroup::Build => Some("--build"),
        }
    }

    pub fn label(&self) -> (r: &'static str)
        ensures
            r@ == spec_label(*self),
    {
        match self {
            DependencyGroup::Normal => "Normal",
            DependencyGroup::Dev => "Dev",
            DependencyGroup::Build => "Build",
        }
    }
}

} // verus!
