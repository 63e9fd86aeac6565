//! Configuration for the external meta-object compiler: the data the build
//! driver needs to invoke it. Running the tool is the driver's business, not
//! this crate's.

use vstd::prelude::*;

verus! {

/// Where the meta-object compiler should look for headers.
#[derive(Clone, Debug)]
pub struct MocConfig {
    include_paths: Vec<String>,
}

impl View for MocConfig {
    type V = Seq<Seq<char>>;

    closed spec fn view(&self) -> Seq<Seq<char>> {
        self.include_paths.deep_view()
    }
}

impl MocConfig {
    /// A configuration with no search paths.
    pub fn new() -> (r: Self)
        ensures
            r@ == Seq::<Seq<char>>::empty(),
    {
        let r = Self { include_paths: Vec::new() };
        proof {
            assert(r@ =~= Seq::<Seq<char>>::empty());
        }
        r
    }

    /// Adds one header search path.
    pub fn include_path(&mut self, path: &str)
        ensures
            final(self)@ == old(self)@.push(path@),
    {
        let ghost pre = self@;
        self.include_paths.push(String::from_str(path));
        proof {
            assert(self@ =~= pre.push(path@));
        }
    }

    /// The search paths, in the order they were added.
    pub fn include_paths(&self) -> (r: &Vec<String>)
        ensures
            r.deep_view() == self@,
    {
        &self.include_paths
    }
}

impl Default for MocConfig {
    fn default() -> (r: Self)
        ensures
            r@ == Seq::<Seq<char>>::empty(),
    {
        Self::new()
    }
}

} // verus!
