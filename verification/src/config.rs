//! The options of the pass.

use vstd::prelude::*;

verus! {

/// The options of the pass, fixed for one file. None of them changes what
/// the finder does yet.
#[derive(Debug, Clone, PartialEq, Eq)]
pub struct Config {
    /// Whether a failure should stop the compilation.
    pub throw_on_failure: bool,
    /// The names of the components that should be left alone.
    pub skip_components: Vec<String>,
    /// Whether components that mutate what they are given should be left
    /// alone.
    pub skip_components_with_mutation: bool,
}

/// The view of [`Config`].
pub struct ConfigView {
    pub throw_on_failure: bool,
    pub skip_components: Seq<Seq<char>>,
    pub skip_components_with_mutation: bool,
}

impl View for Config {
    type V = ConfigView;

    open spec fn view(&self) -> ConfigView {
        ConfigView {
            throw_on_failure: self.throw_on_failure,
            skip_components: Seq::new(
                self.skip_components@.len(),
                |i: int| self.skip_components@[i]@,
            ),
            skip_components_with_mutation: self.skip_components_with_mutation,
        }
    }
}

/// The value of a boolean option that the configuration leaves out.
pub fn false_by_default() -> (b: bool)
    ensures
        !b,
{
    false
}

/// The list of skipped components where the configuration names none.
pub fn default_skip_components() -> (v: Vec<String>)
    ensures
        v@ == Seq::<String>::empty(),
{
    Vec::new()
}

impl Default for Config {
    fn default() -> (r: Self)
        ensures
            r@ == (ConfigView {
                throw_on_failure: false,
                skip_components: Seq::empty(),
                skip_components_with_mutation: false,
            }),
    {
        let r = Config {
            throw_on_failure: false_by_default(),
            skip_components: default_skip_components(),
            skip_components_with_mutation: false_by_default(),
        };
        assert(r@.skip_components =~= Seq::empty());
        r
    }
}

} // verus!
