use std::cell::RefCell;
use std::rc::Rc;

use island_engine::assets::{sprite_requests, AssetStore, TextureFilter};
use island_engine::console::{parse_command, Command};
use island_engine::ctx::{HighgroundCtx, WorldState};
use island_engine::document::{str_eq, Document, Number};
use island_engine::error::{ErrorKind, IslandError, IslandResult};
use island_engine::frame::{frame_steps, load_steps, FrameStep, LoadKind, LoadStep};
use island_engine::json_text::parse_document;
use island_engine::log::IslandLogger;
use island_engine::marshal::{decode, encode, ScriptValue};
use island_engine::plugin::{Plugin, PluginRegistry};
use island_engine::render::{camera_view, sprite_draws, transform_draws, Vec2N};
use island_engine::script::{module_name, resolve_modules, script_paths, ScriptModule};
use island_engine::world::{Phase, Stage, World};
use island_engine::IEAppDescriptor;

const SCENE_A: &str =
    r#"{"entities":[],"camera":{"position":{"x":0,"y":0},"zoom":{"x":1,"y":1}}}"#;

fn doc(text: &str) -> Document {
    parse_document(text).expect("test document must parse")
}

fn entities_of(world: &World) -> &Vec<Document> {
    match world.scene.get("entities") {
        Some(Document::Array(items)) => items,
        _ => panic!("scene has no entity list"),
    }
}

fn module(name: &str, has_init: bool, has_update: bool) -> ScriptModule {
    ScriptModule { name: name.to_string(), has_init, has_update }
}

fn whole(n: u64) -> Number {
    Number::from_u64(n)
}

/// Runs one update stage of module `i` with a script that returns `result`.
fn run_update(world: &mut World, i: usize, result: Result<ScriptValue, String>) -> IslandResult<()> {
    let call = world.begin_stage(i, Stage::Update)?.expect("update entry point present");
    world.finish_stage(result, call.context)
}

#[test]
fn empty_scene_update_succeeds() {
    let mut world = World::new();
    let paths = world.load_scene_str(SCENE_A).unwrap();
    assert!(paths.is_empty());
    world.install_modules(vec![]);
    for step in frame_steps(world.scripts.len(), false) {
        if let FrameStep::ScriptUpdate(i) = step {
            run_update(&mut world, i, Err("unused".to_string())).unwrap();
        }
    }
    assert_eq!(entities_of(&world).len(), 0);
    assert_eq!(world.scene, doc(SCENE_A));
}

#[test]
fn script_result_replaces_scene() {
    let mut world = World::new();
    world.load_scene_str(SCENE_A).unwrap();
    world.install_modules(vec![module("mover", true, true)]);
    let returned = doc(
        r#"{"entities":[{"id":1}],"camera":{"position":{"x":0,"y":0},"zoom":{"x":1,"y":1}}}"#,
    );
    run_update(&mut world, 0, Ok(encode(&returned))).unwrap();
    assert_eq!(entities_of(&world), &vec![doc(r#"{"id":1}"#)]);
}

#[test]
fn spawn_appends_to_existing_entities() {
    let mut world = World::new();
    world.load_scene_str(r#"{"entities":[{"id":0}],"camera":{}}"#).unwrap();
    world.spawn_entity(doc(r#"{"name":"foo"}"#)).unwrap();
    let es = entities_of(&world);
    assert_eq!(es.len(), 2);
    assert_eq!(es[0], doc(r#"{"id":0}"#));
    assert_eq!(es[1], doc(r#"{"name":"foo"}"#));
}

#[test]
fn spawn_rejects_non_object() {
    let mut world = World::new();
    world.load_scene_str(r#"{"entities":[{"id":0}],"camera":{}}"#).unwrap();
    let before = world.scene.deep_copy();
    let err = world.spawn_entity(doc("[1,2]")).unwrap_err();
    assert_eq!(err.kind, ErrorKind::Validation);
    assert_eq!(world.scene, before);
    let err = world.spawn_entity(doc("3")).unwrap_err();
    assert_eq!(err.kind, ErrorKind::Validation);
    assert_eq!(entities_of(&world).len(), 1);
}

#[test]
fn spawn_without_entity_list_fails() {
    let mut world = World::new();
    world.load_scene_str(r#"{"camera":{}}"#).unwrap();
    let err = world.spawn_entity(doc(r#"{"a":1}"#)).unwrap_err();
    assert_eq!(err.kind, ErrorKind::Validation);
    assert_eq!(world.scene, doc(r#"{"camera":{}}"#));
}

#[test]
fn reload_scene_discards_script_changes() {
    let mut world = World::new();
    world.load_scene_str(SCENE_A).unwrap();
    world.install_modules(vec![module("grow", false, true)]);
    let mutated = doc(r#"{"entities":[{"id":7}],"camera":{}}"#);
    run_update(&mut world, 0, Ok(encode(&mutated))).unwrap();
    world.spawn_entity(doc(r#"{"id":8}"#)).unwrap();
    assert_eq!(entities_of(&world).len(), 2);
    let paths = world.reload_scene().unwrap();
    assert!(paths.is_empty());
    assert_eq!(world.scene, doc(SCENE_A));
    assert!(world.scripts.is_empty());
}

#[test]
fn reload_scene_uses_latest_load() {
    let mut world = World::new();
    world.load_scene_str(SCENE_A).unwrap();
    world.load_scene_str(r#"{"entities":[{"k":1}],"camera":{}}"#).unwrap();
    world.spawn_entity(doc(r#"{"k":2}"#)).unwrap();
    world.reload_scene().unwrap();
    assert_eq!(world.scene, doc(r#"{"entities":[{"k":1}],"camera":{}}"#));
}

#[test]
fn reload_of_default_scene_restores_default() {
    let mut world = World::new();
    world.spawn_entity(doc(r#"{"k":2}"#)).unwrap();
    world.reload_scene().unwrap();
    assert_eq!(world.scene, Document::default_scene());
    assert_eq!(
        world.scene,
        doc(r#"{"camera":{"position":{"x":0,"y":0},"zoom":{"x":1,"y":1}},"entities":[]}"#)
    );
}

#[test]
fn reload_scripts_keeps_scene() {
    let mut world = World::new();
    world.load_scene_str(r#"{"entities":[],"scripts":["a/b.py"]}"#).unwrap();
    world.spawn_entity(doc(r#"{"k":2}"#)).unwrap();
    let paths = world.reload_scripts().unwrap();
    assert_eq!(paths, vec!["a/b.py".to_string()]);
    assert_eq!(entities_of(&world).len(), 1);
}

#[test]
fn second_script_sees_first_scripts_entity() {
    let mut world = World::new();
    world.load_scene_str(SCENE_A).unwrap();
    world.install_modules(vec![module("a", true, true), module("b", true, true)]);
    let call_a = world.begin_stage(0, Stage::Update).unwrap().unwrap();
    let mut seen = decode(&call_a.document).unwrap();
    seen.push_entity(doc(r#"{"from":"a"}"#));
    world.finish_stage(Ok(encode(&seen)), call_a.context).unwrap();
    let call_b = world.begin_stage(1, Stage::Update).unwrap().unwrap();
    let input_b = decode(&call_b.document).unwrap();
    match input_b.get("entities") {
        Some(Document::Array(items)) => assert_eq!(items, &vec![doc(r#"{"from":"a"}"#)]),
        _ => panic!("input of the second script has no entity list"),
    }
}

#[test]
fn queued_spawns_follow_replacement() {
    let mut world = World::new();
    world.load_scene_str(SCENE_A).unwrap();
    world.install_modules(vec![module("a", true, true)]);
    let mut call = world.begin_stage(0, Stage::Update).unwrap().unwrap();
    call.context.spawn_entity(r#"{"queued":true}"#);
    call.context.spawn_entity("not json");
    call.context.spawn_entity("5");
    let returned = doc(r#"{"entities":[{"returned":true}],"camera":{}}"#);
    world.finish_stage(Ok(encode(&returned)), call.context).unwrap();
    assert_eq!(
        entities_of(&world),
        &vec![doc(r#"{"returned":true}"#), doc(r#"{"queued":true}"#)]
    );
    let log = world.logger.log();
    assert!(log.contains("[ERROR]: Failed to spawn entity: not json"));
    assert!(log.contains("[ERROR]: Failed to spawn entity: an entity must be an object"));
}

#[test]
fn missing_update_is_runtime_error() {
    let mut world = World::new();
    world.load_scene_str(SCENE_A).unwrap();
    world.install_modules(vec![module("idle", true, false)]);
    let before = world.scene.deep_copy();
    let err = world.begin_stage(0, Stage::Update).unwrap_err();
    assert_eq!(err.kind, ErrorKind::ScriptRuntime);
    assert!(err.reason.contains("idle"));
    assert_eq!(world.scene, before);
}

#[test]
fn missing_init_is_tolerated() {
    let mut world = World::new();
    world.install_modules(vec![module("idle", false, true)]);
    assert!(world.begin_stage(0, Stage::Init).unwrap().is_none());
}

#[test]
fn failed_invocation_leaves_scene() {
    let mut world = World::new();
    world.load_scene_str(SCENE_A).unwrap();
    world.install_modules(vec![module("boom", true, true)]);
    let before = world.scene.deep_copy();
    let err = run_update(&mut world, 0, Err("ZeroDivisionError".to_string())).unwrap_err();
    assert_eq!(err.kind, ErrorKind::ScriptRuntime);
    assert_eq!(err.reason, "ZeroDivisionError");
    assert_eq!(world.scene, before);
}

#[test]
fn callable_result_is_serialization_error() {
    let mut world = World::new();
    world.load_scene_str(SCENE_A).unwrap();
    world.install_modules(vec![module("bad", true, true)]);
    let before = world.scene.deep_copy();
    let returned = ScriptValue::Dict(vec![(
        "entities".to_string(),
        ScriptValue::List(vec![ScriptValue::Callable("function".to_string())]),
    )]);
    let err = run_update(&mut world, 0, Ok(returned)).unwrap_err();
    assert_eq!(err.kind, ErrorKind::Serialization);
    assert_eq!(world.scene, before);
}

#[test]
fn foreign_object_is_serialization_error() {
    let err = decode(&ScriptValue::Foreign("socket".to_string())).unwrap_err();
    assert_eq!(err.kind, ErrorKind::Serialization);
}

#[test]
fn round_trip_keeps_documents() {
    let texts = [
        SCENE_A,
        "null",
        "true",
        "-12.5e3",
        r#""text""#,
        r#"[1,[2,[3,{"k":[]}]],"s",false,null]"#,
        r#"{"b":1,"a":2,"nested":{"z":[{"y":0.25}]}}"#,
    ];
    for t in texts {
        let d = doc(t);
        assert_eq!(decode(&encode(&d)).unwrap(), d);
    }
}

#[test]
fn encode_maps_each_kind() {
    let d = doc(r#"{"n":null,"b":true,"x":3,"s":"hi","l":[1]}"#);
    let expected = ScriptValue::Dict(vec![
        ("n".to_string(), ScriptValue::Nil),
        ("b".to_string(), ScriptValue::Bool(true)),
        ("x".to_string(), ScriptValue::Number(whole(3))),
        ("s".to_string(), ScriptValue::Str("hi".to_string())),
        ("l".to_string(), ScriptValue::List(vec![ScriptValue::Number(whole(1))])),
    ]);
    assert_eq!(encode(&d), expected);
}

#[test]
fn parse_reads_numbers_and_order() {
    let d = doc(r#"{"b":-1.5,"a":[true]}"#);
    let expected = Document::Object(vec![
        (
            "b".to_string(),
            Document::Number(Number { positive: false, mantissa: 15, exponent: -1 }),
        ),
        ("a".to_string(), Document::Array(vec![Document::Bool(true)])),
    ]);
    assert_eq!(d, expected);
}

#[test]
fn malformed_text_is_parse_error() {
    let err = parse_document("{\"entities\": [").unwrap_err();
    assert_eq!(err.kind, ErrorKind::Parse);
    let mut world = World::new();
    let err = world.load_scene_str("not a scene").unwrap_err();
    assert_eq!(err.kind, ErrorKind::Parse);
    assert_eq!(world.scene, Document::default_scene());
}

#[test]
fn non_string_script_path_is_parse_error() {
    let mut world = World::new();
    let err = world.load_scene_str(r#"{"entities":[],"scripts":["a.py",3]}"#).unwrap_err();
    assert_eq!(err.kind, ErrorKind::Parse);
    assert_eq!(world.scene, Document::default_scene());
}

#[test]
fn script_paths_keep_order() {
    let scene = doc(r#"{"scripts":["s/one.py","two.py","x/y/three.py"]}"#);
    let paths = script_paths(&scene).unwrap();
    assert_eq!(paths, vec!["s/one.py", "two.py", "x/y/three.py"]);
    assert!(script_paths(&doc(r#"{"scripts":5}"#)).unwrap().is_empty());
    assert!(script_paths(&doc("{}")).unwrap().is_empty());
}

#[test]
fn module_names_from_paths() {
    assert_eq!(module_name("scripts/player.py"), "player");
    assert_eq!(module_name("enemy.py"), "enemy");
    assert_eq!(module_name("a/b/"), "");
    assert_eq!(module_name("dir/x.py.py"), "x");
    assert_eq!(module_name("noext"), "noext");
}

#[test]
fn later_module_of_same_name_wins() {
    let mods = vec![
        module("a", true, false),
        module("b", true, true),
        module("a", false, true),
    ];
    let kept = resolve_modules(&mods);
    assert_eq!(kept, vec![module("b", true, true), module("a", false, true)]);
    let mut world = World::new();
    world.install_modules(mods);
    assert_eq!(world.scripts.len(), 2);
    assert_eq!(world.scripts[1], module("a", false, true));
}

struct Recorder {
    name: &'static str,
    seen: Rc<RefCell<Vec<String>>>,
    fail_update: bool,
    fail_render: bool,
}

impl Plugin for Recorder {
    fn init(&mut self, _world: &mut World) -> IslandResult<()> {
        self.seen.borrow_mut().push(format!("{} init", self.name));
        Ok(())
    }

    fn update(&mut self, world: &mut World) -> IslandResult<()> {
        self.seen.borrow_mut().push(format!("{} update", self.name));
        world.logger.info(&format!("{} update", self.name));
        if self.fail_update {
            return Err(IslandError::new(ErrorKind::ScriptRuntime, "update failed".to_string()));
        }
        Ok(())
    }

    fn render(&self, _world: &World) -> IslandResult<()> {
        self.seen.borrow_mut().push(format!("{} render", self.name));
        if self.fail_render {
            return Err(IslandError::new(ErrorKind::ScriptRuntime, "render failed".to_string()));
        }
        Ok(())
    }
}

fn recorder(name: &'static str, seen: &Rc<RefCell<Vec<String>>>) -> Recorder {
    Recorder { name, seen: seen.clone(), fail_update: false, fail_render: false }
}

/// Runs one frame's plugin steps, as the frame plan orders them.
fn run_frame(world: &mut World, registry: &mut PluginRegistry<Recorder>) -> IslandResult<()> {
    for step in frame_steps(world.scripts.len(), false) {
        match step {
            FrameStep::PluginUpdates => registry.update_all(world)?,
            FrameStep::PluginRenders => {
                registry.render_all(world);
            },
            _ => {},
        }
    }
    Ok(())
}

#[test]
fn plugins_run_in_registration_order() {
    let seen = Rc::new(RefCell::new(Vec::new()));
    let mut registry = PluginRegistry::new(vec![recorder("A", &seen), recorder("B", &seen)]);
    let mut world = World::new();
    run_frame(&mut world, &mut registry).unwrap();
    assert_eq!(*seen.borrow(), vec!["A update", "B update", "A render", "B render"]);
    assert_eq!(world.logger.log(), "[INFO]: A update\n[INFO]: B update\n");
}

#[test]
fn plugin_init_once_per_load() {
    let seen = Rc::new(RefCell::new(Vec::new()));
    let mut registry = PluginRegistry::new(vec![recorder("A", &seen), recorder("B", &seen)]);
    let mut world = World::new();
    for step in load_steps(0, LoadKind::Scene) {
        if step == LoadStep::PluginInits {
            registry.init_all(&mut world).unwrap();
        }
    }
    run_frame(&mut world, &mut registry).unwrap();
    run_frame(&mut world, &mut registry).unwrap();
    let inits = seen.borrow().iter().filter(|s| s.ends_with("init")).count();
    let updates = seen.borrow().iter().filter(|s| s.ends_with("update")).count();
    assert_eq!(inits, 2);
    assert_eq!(updates, 4);
    world.reload_scene().unwrap();
    registry.init_all(&mut world).unwrap();
    let inits = seen.borrow().iter().filter(|s| s.ends_with("init")).count();
    assert_eq!(inits, 4);
}

#[test]
fn plugin_update_failure_stops_the_rest() {
    let seen = Rc::new(RefCell::new(Vec::new()));
    let mut a = recorder("A", &seen);
    a.fail_update = true;
    let mut registry = PluginRegistry::new(vec![a, recorder("B", &seen)]);
    let mut world = World::new();
    assert!(run_frame(&mut world, &mut registry).is_err());
    assert_eq!(*seen.borrow(), vec!["A update"]);
}

#[test]
fn plugin_render_failure_does_not_stop_others() {
    let seen = Rc::new(RefCell::new(Vec::new()));
    let mut a = recorder("A", &seen);
    a.fail_render = true;
    let mut registry = PluginRegistry::new(vec![a, recorder("B", &seen)]);
    let world = World::new();
    let failures = registry.render_all(&world);
    assert_eq!(failures.len(), 1);
    assert_eq!(*seen.borrow(), vec!["A render", "B render"]);
    assert_eq!(registry.len(), 2);
}

#[test]
fn frame_plan_orders_steps() {
    assert_eq!(
        frame_steps(2, true),
        vec![
            FrameStep::ScriptUpdate(0),
            FrameStep::ScriptUpdate(1),
            FrameStep::ReloadChecks,
            FrameStep::PluginUpdates,
            FrameStep::RenderScene,
            FrameStep::PluginRenders,
            FrameStep::EndFrame,
        ]
    );
    assert_eq!(
        frame_steps(0, false),
        vec![
            FrameStep::PluginUpdates,
            FrameStep::RenderScene,
            FrameStep::PluginRenders,
            FrameStep::EndFrame,
        ]
    );
    assert_eq!(
        load_steps(2, LoadKind::Scene),
        vec![LoadStep::ScriptInit(0), LoadStep::ScriptInit(1), LoadStep::PluginInits]
    );
    assert_eq!(
        load_steps(2, LoadKind::ScriptsOnly),
        vec![LoadStep::ScriptInit(0), LoadStep::ScriptInit(1)]
    );
}

#[test]
fn lifecycle_moves_forward() {
    let mut world = World::new();
    assert_eq!(world.phase(), Phase::Uninitialized);
    world.start_running();
    assert_eq!(world.phase(), Phase::Running);
    assert!(world.end_frame());
    world.should_run = false;
    assert!(!world.end_frame());
    assert_eq!(world.phase(), Phase::Halted);
    world.should_run = true;
    world.start_running();
    assert_eq!(world.phase(), Phase::Halted);
}

#[test]
fn logger_formats_levels() {
    let mut logger = IslandLogger::new();
    assert_eq!(logger.log(), "");
    logger.info("a");
    logger.warn("b");
    logger.error("c");
    assert_eq!(logger.log(), "[INFO]: a\n[WARNING]: b\n[ERROR]: c\n");
}

#[test]
fn context_queries() {
    let mut ctx = HighgroundCtx::new(WorldState::Menu);
    assert_eq!(ctx.world_state(), "Menu");
    ctx.log_warn("careful");
    assert_eq!(ctx.logger.log(), "[WARNING]: careful\n");
    assert_eq!(HighgroundCtx::new(WorldState::Editor).world_state(), "Editor");
    assert_eq!(HighgroundCtx::new(WorldState::Gameplay).world_state(), "Gameplay");
    ctx.spawn_entity(r#"{"a":1}"#);
    assert_eq!(ctx.spawned_entities, vec![doc(r#"{"a":1}"#)]);
}

#[test]
fn context_logs_reach_world() {
    let mut world = World::new();
    world.install_modules(vec![module("talker", true, true)]);
    let mut call = world.begin_stage(0, Stage::Init).unwrap().unwrap();
    call.context.log_info("hello");
    call.context.log_error("oops");
    let same = decode(&call.document).unwrap();
    world.finish_stage(Ok(encode(&same)), call.context).unwrap();
    assert_eq!(world.logger.log(), "[INFO]: hello\n[ERROR]: oops\n");
}

#[test]
fn console_commands_parse() {
    assert_eq!(parse_command("quit"), Command::Quit);
    assert_eq!(parse_command("toggle_debug_draw"), Command::ToggleDebugDraw);
    assert_eq!(parse_command("info hello there"), Command::Info("hello there".to_string()));
    assert_eq!(parse_command("warn x"), Command::Warn("x".to_string()));
    assert_eq!(parse_command("error"), Command::Error("".to_string()));
    assert_eq!(parse_command("spawn {\"a\":1}"), Command::Spawn("{\"a\":1}".to_string()));
    assert_eq!(parse_command("jump high"), Command::Invalid("jump".to_string()));
}

#[test]
fn console_commands_act() {
    let mut world = World::new();
    world.run_command(parse_command("toggle_debug_draw"));
    assert!(world.debug_draw);
    world.run_command(parse_command("spawn {\"a\":1}"));
    assert_eq!(entities_of(&world), &vec![doc(r#"{"a":1}"#)]);
    world.run_command(parse_command("spawn oops"));
    assert_eq!(entities_of(&world).len(), 1);
    assert!(world.logger.log().ends_with("[ERROR]: Failed to spawn entity: oops\n"));
    world.run_command(parse_command("spawn [1]"));
    assert_eq!(entities_of(&world).len(), 1);
    assert!(world
        .logger
        .log()
        .ends_with("[ERROR]: Failed to spawn entity: an entity must be an object\n"));
    world.run_command(parse_command("fly"));
    assert!(world.logger.log().ends_with("[ERROR]: Invalid command: \"fly\"\n"));
    world.run_command(parse_command("quit"));
    assert!(!world.should_run);
}

#[test]
fn sprites_skip_incomplete_entities() {
    let scene = doc(
        r#"{"entities":[
            {"position":{"x":1,"y":2},"scale":{"x":1,"y":1},
             "sprite":{"texture":"hero","dest_size":{"x":16,"y":16},"flip_x":true,"flip_y":false,
                       "source_rec":{"x":0,"y":0,"w":8,"h":8}}},
            {"position":{"x":1,"y":2},"scale":{"x":1,"y":1}},
            {"position":{"x":5,"y":6},"scale":{"x":2,"y":2},
             "sprite":{"texture":"tree","dest_size":{"x":4,"y":4},"flip_x":false,"flip_y":false,
                       "source_rec":"bad"}},
            {"position":{"x":1},"scale":{"x":1,"y":1},
             "sprite":{"texture":"ghost","dest_size":{"x":1,"y":1},"flip_x":false,"flip_y":false}}
        ],"camera":{"position":{"x":3,"y":4},"zoom":{"x":1,"y":2}}}"#,
    );
    let draws = sprite_draws(&scene);
    assert_eq!(draws.len(), 2);
    assert_eq!(draws[0].texture, "hero");
    assert_eq!(draws[0].position, Vec2N { x: whole(1), y: whole(2) });
    assert!(draws[0].flip_x);
    assert!(draws[0].source.is_some());
    assert_eq!(draws[1].texture, "tree");
    assert!(draws[1].source.is_none());
    let transforms = transform_draws(&scene);
    assert_eq!(transforms.len(), 3);
    assert_eq!(transforms[2].1, Vec2N { x: whole(2), y: whole(2) });
    assert_eq!(
        camera_view(&scene),
        Some((Vec2N { x: whole(3), y: whole(4) }, Vec2N { x: whole(1), y: whole(2) }))
    );
    assert_eq!(camera_view(&doc("{}")), None);
    assert!(sprite_draws(&doc("{}")).is_empty());
}

#[test]
fn asset_requests_and_fallback() {
    let descriptor = doc(
        r#"{"sprites":[
            {"name":"hero","path":"hero.png","filter":"linear"},
            {"name":"tree","path":"tree.png","filter":"blurry"},
            {"name":"nopath","filter":"nearest"}
        ]}"#,
    );
    let reqs = sprite_requests(&descriptor);
    assert_eq!(reqs.len(), 2);
    assert_eq!(reqs[0].filter, TextureFilter::Linear);
    assert!(reqs[0].filter_known);
    assert_eq!(reqs[1].filter, TextureFilter::Nearest);
    assert!(!reqs[1].filter_known);
    let mut store = AssetStore::new(7);
    let mut logger = IslandLogger::new();
    store.insert("hero".to_string(), 1);
    store.insert("tree".to_string(), 2);
    store.insert("hero".to_string(), 3);
    assert_eq!(store.get("hero", &mut logger), 3);
    assert_eq!(store.get("tree", &mut logger), 2);
    assert_eq!(logger.log(), "");
    assert_eq!(store.get("missing", &mut logger), 7);
    assert_eq!(store.get("default_sprite", &mut logger), 7);
    assert_eq!(logger.log(), "[ERROR]: No such sprite: missing\n");
}

#[test]
fn long_digit_string_is_accepted() {
    let digits = "7".repeat(40000);
    let text = format!("{{\"code\":\"{}\",\"x\":1.5}}", digits);
    let d = parse_document(&text).unwrap();
    assert_eq!(d.get("code"), Some(&Document::Text(digits.clone())));
    let mut world = World::new();
    world.load_scene_str(&format!("{{\"entities\":[],\"tag\":\"{}\"}}", digits)).unwrap();
    world.run_command(parse_command(&format!("spawn {{\"id\":\"{}\"}}", digits)));
    assert_eq!(entities_of(&world).len(), 1);
    let big = format!("[{}]", "9".repeat(30000));
    assert!(parse_document(&big).is_ok());
}

#[test]
fn failed_stage_keeps_script_log() {
    let mut world = World::new();
    world.install_modules(vec![module("boom", true, true)]);
    let mut call = world.begin_stage(0, Stage::Update).unwrap().unwrap();
    call.context.log_info("before raising");
    let before = world.scene.deep_copy();
    let err = world.finish_stage(Err("ValueError".to_string()), call.context).unwrap_err();
    assert_eq!(err.kind, ErrorKind::ScriptRuntime);
    assert_eq!(world.scene, before);
    assert_eq!(world.logger.log(), "[INFO]: before raising\n");
}

#[test]
fn install_scripts_follows_scene_list() {
    let mut world = World::new();
    world
        .load_scene_str(r#"{"entities":[],"scripts":["a/player.py","enemy.py","b/player.py"]}"#)
        .unwrap();
    world.install_scripts(&vec![(true, false), (false, true), (true, true)]).unwrap();
    assert_eq!(world.scripts, vec![module("enemy", false, true), module("player", true, true)]);
    let err = world.install_scripts(&vec![(true, true)]).unwrap_err();
    assert_eq!(err.kind, ErrorKind::ScriptCompile);
    assert_eq!(world.scripts.len(), 2);
}

#[test]
fn update_without_plugins_keeps_world() {
    let mut registry: PluginRegistry<Recorder> = PluginRegistry::new(vec![]);
    let mut world = World::new();
    world.load_scene_str(SCENE_A).unwrap();
    world.update(&mut registry).unwrap();
    assert_eq!(world.scene, doc(SCENE_A));
    assert_eq!(world.logger.log(), "");
}

#[test]
fn store_from_requests_holds_every_name() {
    let descriptor = doc(
        r#"{"sprites":[
            {"name":"hero","path":"hero.png","filter":"linear"},
            {"name":"tree","path":"tree.png","filter":"nearest"}
        ]}"#,
    );
    let reqs = sprite_requests(&descriptor);
    let store = AssetStore::from_requests(0, &reqs, &vec![4, 5]).unwrap();
    let mut logger = IslandLogger::new();
    assert_eq!(store.get("hero", &mut logger), 4);
    assert_eq!(store.get("tree", &mut logger), 5);
    assert_eq!(store.get("default_sprite", &mut logger), 0);
    assert_eq!(logger.log(), "");
    assert!(AssetStore::from_requests(0, &reqs, &vec![4]).is_err());
}

#[test]
fn long_fraction_is_rejected_without_panic() {
    let mut text = String::from("0.");
    text.push_str(&"0".repeat(32769));
    let err = parse_document(&text).unwrap_err();
    assert_eq!(err.kind, ErrorKind::Parse);
    let mut ctx = HighgroundCtx::new(WorldState::Gameplay);
    ctx.spawn_entity(&text);
    assert!(ctx.spawned_entities.is_empty());
    let mut fits = String::from("0.");
    fits.push_str(&"0".repeat(32000));
    assert_eq!(
        parse_document(&fits).unwrap(),
        Document::Number(Number { positive: true, mantissa: 0, exponent: -32000 })
    );
}

#[test]
fn plugin_passes_through_world() {
    let seen = Rc::new(RefCell::new(Vec::new()));
    let mut registry = PluginRegistry::new(vec![recorder("A", &seen), recorder("B", &seen)]);
    let mut world = World::new();
    world.update(&mut registry).unwrap();
    assert!(world.render(&mut registry).is_empty());
    assert_eq!(*seen.borrow(), vec!["A update", "B update", "A render", "B render"]);
}

#[test]
fn strings_compare_by_characters() {
    assert!(str_eq("entities", "entities"));
    assert!(!str_eq("entities", "entitie"));
    assert!(!str_eq("abc", "abd"));
    assert!(str_eq("", ""));
}

#[test]
fn descriptor_defaults() {
    let d: IEAppDescriptor<Recorder> = IEAppDescriptor::default();
    assert!(d.first_scene.is_none());
    assert!(d.assets_descriptor.is_none());
    assert!(!d.debug_mode);
    assert!(d.plugins.is_empty());
}

#[test]
fn error_carries_kind_and_reason() {
    let e = IslandError::new(ErrorKind::Io, "missing file".to_string());
    assert_eq!(e.kind, ErrorKind::Io);
    assert_eq!(e.reason, "missing file");
}
