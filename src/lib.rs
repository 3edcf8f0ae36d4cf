//! A small real-time application runtime: a scene document of entities,
//! scripts that transform it stage by stage through a marshaling layer, and
//! native plugins with ordered lifecycle hooks.
use vstd::prelude::*;

pub mod assets;
pub mod console;
pub mod ctx;
pub mod document;
pub mod error;
pub mod frame;
pub mod json_text;
pub mod log;
pub mod marshal;
pub mod plugin;
pub mod render;
pub mod script;
pub mod world;

verus! {

/// How an application starts: the first scene and asset descriptor to read,
/// whether debug mode is on, and its plugins in registration order.
pub struct IEAppDescriptor<'a, P> {
    pub first_scene: Option<&'a str>,
    pub assets_descriptor: Option<&'a str>,
    pub debug_mode: bool,
    pub plugins: Vec<P>,
}

impl<'a, P> Default for IEAppDescriptor<'a, P> {
    fn default() -> (r: Self)
        ensures
            r.first_scene is None,
            r.assets_descriptor is None,
            !r.debug_mode,
            r.plugins@.len() == 0,
    {
        IEAppDescriptor { first_scene: None, assets_descriptor: None, debug_mode: false, plugins: Vec::new() }
    }
}

} // verus!
