//! Where the sandbox and its files lie on disk.

use vstd::prelude::*;

verus! {

/// The directory that `cargo new` creates inside the identifier's directory.
pub const PACKAGE_DIR: &'static str = "sandbox";

/// The package manifest, relative to the sandbox root.
pub const MANIFEST_FILE: &'static str = "Cargo.toml";

/// The entry point that each evaluation overwrites, relative to the root.
pub const ENTRY_POINT_FILE: &'static str = "src/main.rs";

/// The result artifact that the wrapper program writes, relative to the root.
pub const RESULT_FILE: &'static str = "output";

/// `name` under the directory `dir`.
pub open spec fn joined(dir: Seq<char>, name: Seq<char>) -> Seq<char> {
    dir + "/"@ + name
}

/// The directory of a sandbox's identifier under the base directory.
pub open spec fn identifier_dir(base: Seq<char>, id: Seq<char>) -> Seq<char> {
    joined(base, id)
}

/// The root of the package of a sandbox.
pub open spec fn package_root(base: Seq<char>, id: Seq<char>) -> Seq<char> {
    joined(identifier_dir(base, id), PACKAGE_DIR@)
}

/// `name` under the directory `dir`.
pub fn join(dir: &str, name: &str) -> (r: String)
    ensures
        r@ == joined(dir@, name@),
{
    dir.to_string().concat("/").concat(name)
}

} // verus!
