use vstd::prelude::*;

verus! {

/// Scene options
pub struct SceneOptions {
    /// Mounts target.
    pub mount: Option<String>,
}

impl Default for SceneOptions {
    /// Options without a mount target.
    fn default() -> (r: Self)
        ensures
            r.mount is None,
    {
        SceneOptions { mount: None }
    }
}

} // verus!
