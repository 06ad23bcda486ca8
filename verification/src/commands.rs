//! Descriptors for the two operations the library exposes at the command
//! line — `pack` and `verify` — and their arguments. The argument parsing
//! itself lives outside the library; these descriptors pin the names, help
//! texts and arities it uses.

use vstd::prelude::*;

verus! {

/// The optional destination argument of `pack`.
#[derive(Debug, Default, Clone, Copy)]
pub struct Output;

impl Output {
    pub fn name(&self) -> (r: &'static str)
        ensures
            r@ == "output"@,
    {
        "output"
    }

    pub fn short(&self) -> (r: Option<&'static str>)
        ensures
            r is Some && r->0@ == "o"@,
    {
        Some("o")
    }

    pub fn long(&self) -> (r: Option<&'static str>)
        ensures
            r is Some && r->0@ == "output"@,
    {
        Some("output")
    }

    pub fn help(&self) -> (r: Option<&'static str>)
        ensures
            r is Some && r->0@ == "Destination for application package"@,
    {
        Some("Destination for application package")
    }

    pub fn takes_value(&self) -> (r: bool)
        ensures
            r,
    {
        true
    }
}

/// The positional source-directory argument of `pack`.
#[derive(Debug, Default, Clone, Copy)]
pub struct PackPath;

impl PackPath {
    pub fn name(&self) -> (r: &'static str)
        ensures
            r@ == "PATH"@,
    {
        "PATH"
    }

    pub fn help(&self) -> (r: Option<&'static str>)
        ensures
            r is Some && r->0@ == "Path to the folder containing the application data"@,
    {
        Some("Path to the folder containing the application data")
    }

    pub fn required(&self) -> (r: bool)
        ensures
            r,
    {
        true
    }
}

/// The `pack` operation: creates a package from a source directory.
#[derive(Debug, Default, Clone, Copy)]
pub struct Pack;

impl Pack {
    pub fn name(&self) -> (r: &'static str)
        ensures
            r@ == "pack"@,
    {
        "pack"
    }

    pub fn about(&self) -> (r: Option<&'static str>)
        ensures
            r is Some && r->0@ == "Creates a new application package"@,
    {
        Some("Creates a new application package")
    }
}

/// The positional package-file argument of `verify`.
#[derive(Debug, Default, Clone, Copy)]
pub struct VerifyPath;

impl VerifyPath {
    pub fn name(&self) -> (r: &'static str)
        ensures
            r@ == "PATH"@,
    {
        "PATH"
    }

    pub fn help(&self) -> (r: Option<&'static str>)
        ensures
            r is Some && r->0@ == "Path to the s9pk file to verify"@,
    {
        Some("Path to the s9pk file to verify")
    }

    pub fn required(&self) -> (r: bool)
        ensures
            r,
    {
        true
    }
}

/// The `verify` operation: checks a candidate package file.
#[derive(Debug, Default, Clone, Copy)]
pub struct Verify;

impl Verify {
    pub fn name(&self) -> (r: &'static str)
        ensures
            r@ == "verify"@,
    {
        "verify"
    }

    pub fn about(&self) -> (r: Option<&'static str>)
        ensures
            r is Some && r->0@ == "Verifies an application package"@,
    {
        Some("Verifies an application package")
    }
}

} // verus!
