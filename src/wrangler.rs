use vstd::prelude::*;

verus! {

/// The provider tool, named by the executable that the search path resolves.
#[derive(Debug, Clone)]
pub struct Wrangler {
    path: String,
}

impl Wrangler {
    pub closed spec fn spec_path(&self) -> Seq<char> {
        self.path@
    }

    /// The tool as `wrangler`, found on the search path.
    pub fn from_path() -> (r: Self)
        ensures
            r.spec_path() == "wrangler"@,
    {
        Self { path: "wrangler".to_owned() }
    }

    /// The executable to run.
    pub fn path(&self) -> (r: &str)
        ensures
            r@ == self.spec_path(),
    {
        self.path.as_str()
    }
}

} // verus!
