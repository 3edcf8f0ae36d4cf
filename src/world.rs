use vstd::prelude::*;
use vstd::string::*;

use crate::ctx::{models, HighgroundCtx, WorldState};
use crate::document::{entities, lemma_spawn_appends, with_entity, Document, Value};
use crate::error::{ErrorKind, IslandError, IslandResult};
use crate::json_text::{parse_result, parse_document};
use crate::log::IslandLogger;
use crate::marshal::{decode, decode_model, encode, encode_model, ScriptValue};
use crate::script::{
    kept_modules, module_records, records_for, resolve_modules, script_list, script_paths,
    ScriptModule,
};

verus! {

/// Where the world is in its life: not yet running, running frames, or
/// halted for good.
#[derive(Clone, Copy, Debug, PartialEq, Eq, Structural)]
pub enum Phase {
    Uninitialized,
    Running,
    Halted,
}

/// A lifecycle stage of a script module.
#[derive(Clone, Copy, Debug, PartialEq, Eq, Structural)]
pub enum Stage {
    Init,
    Update,
}

/// Everything a script host needs to invoke one stage: which module and
/// entry point, a fresh context, and the scene marshaled out.
#[derive(Debug)]
pub struct StageCall {
    pub module: usize,
    pub stage: Stage,
    pub context: HighgroundCtx,
    pub document: ScriptValue,
}

/// The scene after a spawn request for `e`: appended when `e` is an object
/// and the scene has an entity list, else unchanged.
pub open spec fn spawn_model(scene: Value, e: Value) -> Value {
    if e is Obj {
        with_entity(scene, e)
    } else {
        scene
    }
}

/// Why a spawn request for `e` is rejected by `scene`, if it is.
pub open spec fn spawn_failure(scene: Value, e: Value) -> Option<Seq<char>> {
    if !(e is Obj) {
        Some("an entity must be an object"@)
    } else if entities(scene) is None {
        Some("the scene has no entity list"@)
    } else {
        None
    }
}

/// One error line of the log.
pub open spec fn error_line(msg: Seq<char>) -> Seq<char> {
    "[ERROR]: "@ + msg + "\n"@
}

/// The log lines for the rejected requests among `es`, applied in order to
/// `scene`.
pub open spec fn spawn_log(scene: Value, es: Seq<Value>) -> Seq<char>
    decreases es.len(),
{
    if es.len() == 0 {
        Seq::empty()
    } else {
        spawn_log(scene, es.drop_last()) + match spawn_failure(
            apply_spawns(scene, es.drop_last()),
            es.last(),
        ) {
            Some(reason) => error_line("Failed to spawn entity: "@ + reason),
            None => Seq::empty(),
        }
    }
}

/// The scene after the spawn requests `es`, applied in order.
pub open spec fn apply_spawns(scene: Value, es: Seq<Value>) -> Value
    decreases es.len(),
{
    if es.len() == 0 {
        scene
    } else {
        spawn_model(apply_spawns(scene, es.drop_last()), es.last())
    }
}

/// The scene after a successful staged call: the returned document, then
/// the queued spawns.
pub open spec fn stage_result(returned: Value, spawns: Seq<Value>) -> Value {
    apply_spawns(decode_model(returned)->Some_0, spawns)
}

/// Spawn requests only ever add entities at the end: every entity the scene
/// had keeps its position.
pub proof fn lemma_spawns_keep_entities(scene: Value, es: Seq<Value>)
    requires
        entities(scene) is Some,
    ensures
        entities(apply_spawns(scene, es)) is Some,
        entities(apply_spawns(scene, es))->Some_0.len() >= entities(scene)->Some_0.len(),
        forall|k: int|
            0 <= k < entities(scene)->Some_0.len() ==> entities(apply_spawns(scene, es))->Some_0[k]
                == entities(scene)->Some_0[k],
    decreases es.len(),
{
    if es.len() > 0 {
        lemma_spawns_keep_entities(scene, es.drop_last());
        let mid = apply_spawns(scene, es.drop_last());
        if es.last() is Obj {
            lemma_spawn_appends(mid, es.last());
        }
    }
}

/// Script updates chain: when one module's update returns a scene holding an
/// entity, the scene handed to the next module's update holds that entity
/// too, at the same position, whatever spawns the first queued.
pub proof fn lemma_chained_updates(returned: Value, spawns: Seq<Value>, k: int)
    requires
        decode_model(returned) is Some,
        entities(decode_model(returned)->Some_0) is Some,
        0 <= k < entities(decode_model(returned)->Some_0)->Some_0.len(),
    ensures
        entities(encode_model(stage_result(returned, spawns))) is Some,
        k < entities(encode_model(stage_result(returned, spawns)))->Some_0.len(),
        entities(encode_model(stage_result(returned, spawns)))->Some_0[k] == entities(
            decode_model(returned)->Some_0,
        )->Some_0[k],
{
    lemma_spawns_keep_entities(decode_model(returned)->Some_0, spawns);
}

/// A copy of a scene taken when it was loaded. Once taken it cannot be
/// changed, only replaced by a new capture.
#[derive(Debug)]
pub struct Snapshot {
    doc: Document,
}

impl Snapshot {
    /// The captured scene.
    pub closed spec fn model(&self) -> Value {
        self.doc.model()
    }

    /// Capture a copy of a scene.
    pub fn capture(scene: &Document) -> (r: Snapshot)
        ensures
            r.model() == scene.model(),
    {
        Snapshot { doc: scene.deep_copy() }
    }

    /// A fresh copy of the captured scene.
    pub fn restore(&self) -> (r: Document)
        ensures
            r.model() == self.model(),
    {
        self.doc.deep_copy()
    }
}

/// The lifecycle phase of a world. It only moves forward: from
/// `Uninitialized` to `Running`, and from either to `Halted`, which is final.
#[derive(Debug)]
pub struct Lifecycle {
    phase: Phase,
}

impl Lifecycle {
    /// The current phase.
    pub closed spec fn phase(&self) -> Phase {
        self.phase
    }

    /// A lifecycle that has not started.
    pub fn new() -> (r: Lifecycle)
        ensures
            r.phase() == Phase::Uninitialized,
    {
        Lifecycle { phase: Phase::Uninitialized }
    }

    /// The current phase.
    pub fn get(&self) -> (r: Phase)
        ensures
            r == self.phase(),
    {
        self.phase
    }

    /// Enter `Running`, unless halted.
    pub fn start(&mut self)
        ensures
            final(self).phase() == (if old(self).phase() == Phase::Halted {
                Phase::Halted
            } else {
                Phase::Running
            }),
    {
        if self.phase != Phase::Halted {
            self.phase = Phase::Running;
        }
    }

    /// Enter `Halted`, for good.
    pub fn halt(&mut self)
        ensures
            final(self).phase() == Phase::Halted,
    {
        self.phase = Phase::Halted;
    }
}

/// The world: the live scene, the snapshot taken when it was loaded, the
/// loaded script modules, and the flags the frame loop reads.
#[derive(Debug)]
pub struct World {
    pub scene: Document,
    pub initial_scene: Snapshot,
    pub scripts: Vec<ScriptModule>,
    pub should_run: bool,
    pub state: WorldState,
    pub debug_draw: bool,
    pub logger: IslandLogger,
    pub lifecycle: Lifecycle,
}

impl World {
    /// The snapshot of the scene taken at the most recent load.
    pub open spec fn snapshot(&self) -> Value {
        self.initial_scene.model()
    }

    /// The phase of the frame lifecycle.
    pub open spec fn phase_of(&self) -> Phase {
        self.lifecycle.phase()
    }

    /// A world holding the built-in empty scene, not yet running.
    pub fn new() -> (r: World)
        ensures
            r.scene.model() == crate::document::default_scene_model(),
            r.snapshot() == crate::document::default_scene_model(),
            r.scripts@.len() == 0,
            r.should_run,
            r.state == WorldState::Gameplay,
            !r.debug_draw,
            r.logger.text() == Seq::<char>::empty(),
            r.phase_of() == Phase::Uninitialized,
    {
        let scene = Document::default_scene();
        let initial_scene = Snapshot::capture(&scene);
        World {
            scene,
            initial_scene,
            scripts: Vec::new(),
            should_run: true,
            state: WorldState::Gameplay,
            debug_draw: false,
            logger: IslandLogger::new(),
            lifecycle: Lifecycle::new(),
        }
    }

    /// The phase of the frame lifecycle.
    pub fn phase(&self) -> (r: Phase)
        ensures
            r == self.phase_of(),
    {
        self.lifecycle.get()
    }

    /// Load a scene document: it becomes the live scene and the snapshot,
    /// and the module list is emptied. Gives back the script paths to
    /// compile. When the script list is unreadable nothing changes.
    pub fn load_scene_json(&mut self, scene: Document) -> (r: IslandResult<Vec<String>>)
        ensures
            match r {
                Ok(paths) => {
                    &&& script_list(scene.model()) == Some(paths@.map_values(|p: String| p@))
                    &&& final(self).scene.model() == scene.model()
                    &&& final(self).snapshot() == scene.model()
                    &&& final(self).scripts@.len() == 0
                    &&& final(self).should_run == old(self).should_run
                    &&& final(self).state == old(self).state
                    &&& final(self).debug_draw == old(self).debug_draw
                    &&& final(self).logger == old(self).logger
                    &&& final(self).phase_of() == old(self).phase_of()
                },
                Err(e) => {
                    &&& script_list(scene.model()) is None
                    &&& e.kind == ErrorKind::Parse
                    &&& *final(self) == *old(self)
                },
            },
    {
        let paths = match script_paths(&scene) {
            Ok(p) => p,
            Err(e) => return Err(e),
        };
        self.initial_scene = Snapshot::capture(&scene);
        self.scene = scene;
        self.scripts = Vec::new();
        Ok(paths)
    }

    /// Load a scene from JSON text, as `load_scene_json` does once the text
    /// is read. Malformed text is a parse error and changes nothing.
    pub fn load_scene_str(&mut self, text: &str) -> (r: IslandResult<Vec<String>>)
        ensures
            match r {
                Ok(paths) => {
                    &&& parse_result(text@) is Some
                    &&& script_list(parse_result(text@)->Some_0) == Some(
                        paths@.map_values(|p: String| p@),
                    )
                    &&& final(self).scene.model() == parse_result(text@)->Some_0
                    &&& final(self).snapshot() == parse_result(text@)->Some_0
                    &&& final(self).scripts@.len() == 0
                },
                Err(e) => {
                    &&& e.kind == ErrorKind::Parse
                    &&& parse_result(text@) is None || script_list(parse_result(text@)->Some_0) is None
                    &&& *final(self) == *old(self)
                },
            },
    {
        match parse_document(text) {
            Ok(scene) => self.load_scene_json(scene),
            Err(e) => Err(e),
        }
    }

    /// Reset the live scene to the snapshot, discarding every change made
    /// since the scene was loaded, and empty the module list. Gives back the
    /// script paths to compile again.
    pub fn reload_scene(&mut self) -> (r: IslandResult<Vec<String>>)
        ensures
            final(self).scene.model() == old(self).snapshot(),
            final(self).snapshot() == old(self).snapshot(),
            final(self).scripts@.len() == 0,
            final(self).should_run == old(self).should_run,
            final(self).state == old(self).state,
            final(self).debug_draw == old(self).debug_draw,
            final(self).phase_of() == old(self).phase_of(),
            match r {
                Ok(paths) => script_list(old(self).snapshot()) == Some(
                    paths@.map_values(|p: String| p@),
                ),
                Err(e) => script_list(old(self).snapshot()) is None && e.kind == ErrorKind::Parse,
            },
    {
        self.scene = self.initial_scene.restore();
        self.scripts = Vec::new();
        let r = script_paths(&self.scene);
        if r.is_ok() {
            self.logger.info("Reloaded scene");
        }
        r
    }

    /// Give back the script paths of the live scene, to compile again. The
    /// scene and the snapshot are not touched.
    pub fn reload_scripts(&self) -> (r: IslandResult<Vec<String>>)
        ensures
            match r {
                Ok(paths) => script_list(self.scene.model()) == Some(
                    paths@.map_values(|p: String| p@),
                ),
                Err(e) => script_list(self.scene.model()) is None && e.kind == ErrorKind::Parse,
            },
    {
        script_paths(&self.scene)
    }

    /// Install freshly compiled modules, in list order. Where two share a
    /// name, the later one replaces the earlier.
    pub fn install_modules(&mut self, modules: Vec<ScriptModule>)
        ensures
            final(self).scripts@ == kept_modules(modules@),
            final(self).scene == old(self).scene,
            final(self).snapshot() == old(self).snapshot(),
            final(self).should_run == old(self).should_run,
            final(self).state == old(self).state,
            final(self).debug_draw == old(self).debug_draw,
            final(self).logger == old(self).logger,
            final(self).phase_of() == old(self).phase_of(),
    {
        self.scripts = resolve_modules(&modules);
    }

    /// Install the modules compiled from the live scene's script list:
    /// `entry_points` gives, for each listed path in order, whether its module
    /// has `init` and `update`. Each module is named by its path; where two
    /// share a name the later one wins. Fails, changing nothing, when the
    /// script list is unreadable or the entry points do not match it one for
    /// one.
    pub fn install_scripts(&mut self, entry_points: &Vec<(bool, bool)>) -> (r: IslandResult<()>)
        ensures
            r is Ok <==> (script_list(old(self).scene.model()) is Some && script_list(
                old(self).scene.model(),
            )->Some_0.len() == entry_points@.len()),
            r is Ok ==> exists|recs: Seq<ScriptModule>|
                records_for(recs, script_list(old(self).scene.model())->Some_0, entry_points@)
                    && final(self).scripts@ == #[trigger] kept_modules(recs),
            r is Err ==> *final(self) == *old(self),
            final(self).scene == old(self).scene,
            final(self).initial_scene == old(self).initial_scene,
            final(self).should_run == old(self).should_run,
            final(self).state == old(self).state,
            final(self).debug_draw == old(self).debug_draw,
            final(self).logger == old(self).logger,
            final(self).lifecycle == old(self).lifecycle,
    {
        let paths = match script_paths(&self.scene) {
            Ok(p) => p,
            Err(e) => return Err(e),
        };
        if paths.len() != entry_points.len() {
            return Err(
                IslandError::new(
                    ErrorKind::ScriptCompile,
                    String::from_str("one compile result is needed per script path"),
                ),
            );
        }
        let records = module_records(&paths, entry_points);
        self.scripts = resolve_modules(&records);
        Ok(())
    }

    /// Prepare a staged call of `stage` on the module at `module`. A missing
    /// `init` is nothing to do; a missing `update` is a runtime error.
    /// Otherwise the call gets a fresh context and the scene marshaled out.
    pub fn begin_stage(&self, module: usize, stage: Stage) -> (r: IslandResult<Option<StageCall>>)
        requires
            module < self.scripts@.len(),
        ensures
            match r {
                Err(e) => {
                    &&& stage == Stage::Update
                    &&& !self.scripts@[module as int].has_update
                    &&& e.kind == ErrorKind::ScriptRuntime
                },
                Ok(None) => stage == Stage::Init && !self.scripts@[module as int].has_init,
                Ok(Some(call)) => {
                    &&& stage == Stage::Init ==> self.scripts@[module as int].has_init
                    &&& stage == Stage::Update ==> self.scripts@[module as int].has_update
                    &&& call.module == module
                    &&& call.stage == stage
                    &&& call.document.model() == encode_model(self.scene.model())
                    &&& call.context.world_state == self.state
                    &&& call.context.spawned_entities@.len() == 0
                    &&& call.context.logger.text() == Seq::<char>::empty()
                },
            },
    {
        let m = &self.scripts[module];
        let present = match stage {
            Stage::Init => m.has_init,
            Stage::Update => m.has_update,
        };
        if !present {
            return match stage {
                Stage::Init => Ok(None),
                Stage::Update => Err(
                    IslandError::new(
                        ErrorKind::ScriptRuntime,
                        String::from_str("failed to find the update function in ").concat(
                            m.name.as_str(),
                        ),
                    ),
                ),
            };
        }
        Ok(
            Some(
                StageCall {
                    module,
                    stage,
                    context: HighgroundCtx::new(self.state),
                    document: encode(&self.scene),
                },
            ),
        )
    }

    /// Apply what a staged call gave back. A failed invocation is a runtime
    /// error and a value with no document form a serialization error; either
    /// way the world is left as it was, but for the lines the script logged,
    /// which are kept. Otherwise the script's log is taken over, the returned
    /// document replaces the scene, and the context's queued spawns are
    /// applied.
    pub fn finish_stage(&mut self, returned: Result<ScriptValue, String>, context: HighgroundCtx) -> (r:
        IslandResult<()>)
        ensures
            match returned {
                Err(_) => r matches Err(e) && e.kind == ErrorKind::ScriptRuntime,
                Ok(v) => match decode_model(v.model()) {
                    None => r matches Err(e) && e.kind == ErrorKind::Serialization,
                    Some(_) => r is Ok,
                },
            },
            r is Err ==> {
                &&& final(self).scene == old(self).scene
                &&& final(self).initial_scene == old(self).initial_scene
                &&& final(self).scripts == old(self).scripts
                &&& final(self).should_run == old(self).should_run
                &&& final(self).state == old(self).state
                &&& final(self).debug_draw == old(self).debug_draw
                &&& final(self).lifecycle == old(self).lifecycle
                &&& final(self).logger.text() == old(self).logger.text() + context.logger.text()
            },
            match returned {
                Err(_) => true,
                Ok(v) => match decode_model(v.model()) {
                    None => true,
                    Some(d) => {
                        &&& final(self).logger.text() == old(self).logger.text()
                            + context.logger.text() + spawn_log(d, models(context.spawned_entities@))
                        &&& final(self).scene.model() == stage_result(
                            v.model(),
                            models(context.spawned_entities@),
                        )
                        &&& final(self).snapshot() == old(self).snapshot()
                        &&& final(self).scripts == old(self).scripts
                        &&& final(self).should_run == old(self).should_run
                        &&& final(self).state == old(self).state
                        &&& final(self).debug_draw == old(self).debug_draw
                        &&& final(self).phase_of() == old(self).phase_of()
                    },
                },
            },
    {
        let v = match returned {
            Ok(v) => v,
            Err(msg) => {
                self.logger.absorb(&context.logger);
                return Err(IslandError::new(ErrorKind::ScriptRuntime, msg));
            },
        };
        let d = match decode(&v) {
            Ok(d) => d,
            Err(e) => {
                self.logger.absorb(&context.logger);
                return Err(e);
            },
        };
        self.scene = d;
        self.handle_context(context);
        Ok(())
    }

    /// Apply a context's queued spawns, in order, and take over its log.
    /// A spawn that fails is logged as an error and skipped.
    pub fn handle_context(&mut self, ctx: HighgroundCtx)
        ensures
            final(self).scene.model() == apply_spawns(
                old(self).scene.model(),
                models(ctx.spawned_entities@),
            ),
            final(self).logger.text() == old(self).logger.text() + ctx.logger.text() + spawn_log(
                old(self).scene.model(),
                models(ctx.spawned_entities@),
            ),
            final(self).snapshot() == old(self).snapshot(),
            final(self).scripts == old(self).scripts,
            final(self).should_run == old(self).should_run,
            final(self).state == old(self).state,
            final(self).debug_draw == old(self).debug_draw,
            final(self).phase_of() == old(self).phase_of(),
    {
        self.logger.absorb(&ctx.logger);
        let ghost log0 = self.logger.text();
        let ghost s0 = self.scene.model();
        let ghost es = models(ctx.spawned_entities@);
        let n = ctx.spawned_entities.len();
        let mut i: usize = 0;
        while i < n
            invariant
                n == ctx.spawned_entities@.len(),
                es == models(ctx.spawned_entities@),
                i <= n,
                self.scene.model() == apply_spawns(s0, es.subrange(0, i as int)),
                self.logger.text() == log0 + spawn_log(s0, es.subrange(0, i as int)),
                self.snapshot() == old(self).snapshot(),
                self.scripts == old(self).scripts,
                self.should_run == old(self).should_run,
                self.state == old(self).state,
                self.debug_draw == old(self).debug_draw,
                self.phase_of() == old(self).phase_of(),
            decreases n - i,
        {
            let entity = ctx.spawned_entities[i].deep_copy();
            let ghost before = self.scene.model();
            let ghost log_before = self.logger.text();
            proof {
                assert(es.subrange(0, i + 1).drop_last() =~= es.subrange(0, i as int));
                assert(es.subrange(0, i + 1).last() == es[i as int]);
            }
            match self.spawn_entity(entity) {
                Ok(()) => {
                    assert(self.logger.text() =~= log0 + spawn_log(s0, es.subrange(0, i + 1)));
                },
                Err(e) => {
                    let line = String::from_str("Failed to spawn entity: ").concat(e.reason.as_str());
                    self.logger.error(line.as_str());
                    assert(self.logger.text() =~= log0 + spawn_log(s0, es.subrange(0, i + 1)));
                },
            }
            proof {
                assert(self.scene.model() == spawn_model(before, es[i as int]));
            }
            i = i + 1;
        }
        assert(es.subrange(0, n as int) =~= es);
        assert(self.logger.text() =~= old(self).logger.text() + ctx.logger.text() + spawn_log(s0, es));
    }

    /// Append an entity to the scene. It must be an object, and the scene
    /// must have an entity list; otherwise this is a validation error and
    /// the scene is unchanged.
    pub fn spawn_entity(&mut self, entity: Document) -> (r: IslandResult<()>)
        ensures
            match r {
                Ok(()) => {
                    &&& entity.model() is Obj
                    &&& entities(old(self).scene.model()) is Some
                    &&& final(self).scene.model() == with_entity(
                        old(self).scene.model(),
                        entity.model(),
                    )
                },
                Err(e) => {
                    &&& e.kind == ErrorKind::Validation
                    &&& !(entity.model() is Obj) || entities(old(self).scene.model()) is None
                    &&& final(self).scene == old(self).scene
                },
            },
            match r {
                Ok(()) => spawn_failure(old(self).scene.model(), entity.model()) is None,
                Err(e) => spawn_failure(old(self).scene.model(), entity.model()) == Some(e.reason@),
            },
            final(self).scene.model() == spawn_model(old(self).scene.model(), entity.model()),
            final(self).snapshot() == old(self).snapshot(),
            final(self).scripts == old(self).scripts,
            final(self).should_run == old(self).should_run,
            final(self).state == old(self).state,
            final(self).debug_draw == old(self).debug_draw,
            final(self).logger == old(self).logger,
            final(self).phase_of() == old(self).phase_of(),
    {
        if !entity.is_object() {
            return Err(
                IslandError::new(ErrorKind::Validation, String::from_str("an entity must be an object")),
            );
        }
        let ghost e = entity.model();
        if self.scene.push_entity(entity) {
            Ok(())
        } else {
            proof {
                assert(with_entity(old(self).scene.model(), e) == old(self).scene.model());
            }
            Err(
                IslandError::new(ErrorKind::Validation, String::from_str("the scene has no entity list")),
            )
        }
    }

    /// Enter the running phase, once loading is done. A halted world stays
    /// halted.
    pub fn start_running(&mut self)
        ensures
            final(self).phase_of() == (if old(self).phase_of() == Phase::Halted {
                Phase::Halted
            } else {
                Phase::Running
            }),
            final(self).scene == old(self).scene,
            final(self).snapshot() == old(self).snapshot(),
            final(self).scripts == old(self).scripts,
            final(self).should_run == old(self).should_run,
    {
        self.lifecycle.start();
    }

    /// Close a frame: a cleared run flag halts the world for good. Returns
    /// whether another frame runs.
    pub fn end_frame(&mut self) -> (r: bool)
        ensures
            final(self).phase_of() == (if old(self).phase_of() == Phase::Halted
                || !old(self).should_run {
                Phase::Halted
            } else {
                old(self).phase_of()
            }),
            r == (final(self).phase_of() == Phase::Running),
            final(self).scene == old(self).scene,
            final(self).snapshot() == old(self).snapshot(),
            final(self).scripts == old(self).scripts,
            final(self).should_run == old(self).should_run,
    {
        if !self.should_run {
            self.lifecycle.halt();
        }
        self.lifecycle.get() == Phase::Running
    }
}

} // verus!
