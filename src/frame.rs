use vstd::prelude::*;

verus! {

/// One step of a frame, in the order the world runs them.
#[derive(Clone, Copy, Debug, PartialEq, Eq, Structural)]
pub enum FrameStep {
    /// The `update` stage of the script module at this position.
    ScriptUpdate(usize),
    /// The hot-reload checks of debug mode.
    ReloadChecks,
    /// Every plugin's `update`, in registration order.
    PluginUpdates,
    /// The built-in render pass.
    RenderScene,
    /// Every plugin's `render`, in registration order.
    PluginRenders,
    /// The run flag is read; a cleared flag halts the world.
    EndFrame,
}

/// One step of a scene (re)load, once the scene is in place and its modules
/// are compiled.
#[derive(Clone, Copy, Debug, PartialEq, Eq, Structural)]
pub enum LoadStep {
    /// The `init` stage of the script module at this position.
    ScriptInit(usize),
    /// Every plugin's `init`, in registration order.
    PluginInits,
}

/// What a load covers.
#[derive(Clone, Copy, Debug, PartialEq, Eq, Structural)]
pub enum LoadKind {
    /// A scene was (re)loaded: scripts and plugins are initialised, and the
    /// load is complete only once the plugins' inits have run.
    Scene,
    /// Only the scripts were rebuilt: plugins are not initialised again.
    ScriptsOnly,
}

/// The steps of one frame over `n` script modules.
pub open spec fn frame_plan(n: nat, debug_mode: bool) -> Seq<FrameStep> {
    Seq::new(n, |i: int| FrameStep::ScriptUpdate(i as usize)) + (if debug_mode {
        seq![FrameStep::ReloadChecks]
    } else {
        Seq::empty()
    }) + seq![
        FrameStep::PluginUpdates,
        FrameStep::RenderScene,
        FrameStep::PluginRenders,
        FrameStep::EndFrame,
    ]
}

/// The steps of a load of `kind` over `n` script modules.
pub open spec fn load_plan(n: nat, kind: LoadKind) -> Seq<LoadStep> {
    let inits = Seq::new(n, |i: int| LoadStep::ScriptInit(i as usize));
    if kind == LoadKind::Scene {
        inits.push(LoadStep::PluginInits)
    } else {
        inits
    }
}

/// The steps of one frame over `n_scripts` script modules: each module's
/// update in list order, then (in debug mode) the reload checks, the
/// plugins' updates, the built-in render, the plugins' renders, and the
/// run-flag check.
pub fn frame_steps(n_scripts: usize, debug_mode: bool) -> (r: Vec<FrameStep>)
    ensures
        r@ == frame_plan(n_scripts as nat, debug_mode),
{
    let mut r: Vec<FrameStep> = Vec::new();
    let mut i: usize = 0;
    while i < n_scripts
        invariant
            i <= n_scripts,
            r@ == Seq::new(i as nat, |j: int| FrameStep::ScriptUpdate(j as usize)),
        decreases n_scripts - i,
    {
        r.push(FrameStep::ScriptUpdate(i));
        i = i + 1;
        assert(r@ =~= Seq::new(i as nat, |j: int| FrameStep::ScriptUpdate(j as usize)));
    }
    if debug_mode {
        r.push(FrameStep::ReloadChecks);
    }
    r.push(FrameStep::PluginUpdates);
    r.push(FrameStep::RenderScene);
    r.push(FrameStep::PluginRenders);
    r.push(FrameStep::EndFrame);
    assert(r@ =~= frame_plan(n_scripts as nat, debug_mode));
    r
}

/// The steps of a load over `n_scripts` script modules: each module's init
/// in list order, then, for a scene load, the plugins' inits.
pub fn load_steps(n_scripts: usize, kind: LoadKind) -> (r: Vec<LoadStep>)
    ensures
        r@ == load_plan(n_scripts as nat, kind),
{
    let mut r: Vec<LoadStep> = Vec::new();
    let mut i: usize = 0;
    while i < n_scripts
        invariant
            i <= n_scripts,
            r@ == Seq::new(i as nat, |j: int| LoadStep::ScriptInit(j as usize)),
        decreases n_scripts - i,
    {
        r.push(LoadStep::ScriptInit(i));
        i = i + 1;
        assert(r@ =~= Seq::new(i as nat, |j: int| LoadStep::ScriptInit(j as usize)));
    }
    if kind == LoadKind::Scene {
        r.push(LoadStep::PluginInits);
    }
    r
}

/// A frame runs the plugins' updates exactly once and their renders exactly
/// once, updates first, after every script update; it runs no plugin init.
/// A scene (re)load runs the plugins' inits exactly once, after every
/// script init; a scripts-only reload runs none.
pub proof fn lemma_plugin_hooks_once(n: nat, debug_mode: bool)
    ensures
        ({
            let f = frame_plan(n, debug_mode);
            let u = n + if debug_mode { 1int } else { 0int };
            &&& f[u] == FrameStep::PluginUpdates
            &&& f[u + 2] == FrameStep::PluginRenders
            &&& forall|i: int| 0 <= i < f.len() && f[i] == FrameStep::PluginUpdates ==> i == u
            &&& forall|i: int| 0 <= i < f.len() && f[i] == FrameStep::PluginRenders ==> i == u + 2
            &&& forall|i: int| 0 <= i < f.len() && (f[i] is ScriptUpdate) ==> i < u
        }),
        load_plan(n, LoadKind::Scene)[n as int] == LoadStep::PluginInits,
        forall|i: int|
            0 <= i < load_plan(n, LoadKind::Scene).len() && load_plan(n, LoadKind::Scene)[i]
                == LoadStep::PluginInits ==> i == n,
        forall|i: int|
            0 <= i < load_plan(n, LoadKind::ScriptsOnly).len() ==> load_plan(n, LoadKind::ScriptsOnly)[i]
                != LoadStep::PluginInits,
{
}

} // verus!
