use vstd::prelude::*;
use vstd::string::*;

use crate::document::{entities, member, Document, Number, Value};

verus! {

/// A pair of numbers read from an object's `x` and `y` members.
#[derive(Clone, Copy, Debug, PartialEq, Eq, Structural)]
pub struct Vec2N {
    pub x: Number,
    pub y: Number,
}

/// A rectangle read from an object's `x`, `y`, `w` and `h` members.
#[derive(Clone, Copy, Debug, PartialEq, Eq, Structural)]
pub struct RectN {
    pub x: Number,
    pub y: Number,
    pub w: Number,
    pub h: Number,
}

/// What the renderer needs to draw one sprite.
#[derive(Debug, PartialEq)]
pub struct SpriteDraw {
    pub position: Vec2N,
    pub scale: Vec2N,
    pub texture: String,
    pub dest_size: Vec2N,
    pub source: Option<RectN>,
    pub flip_x: bool,
    pub flip_y: bool,
}

/// The model of a sprite draw: the same, with the texture name as text.
pub struct SpriteModel {
    pub position: Vec2N,
    pub scale: Vec2N,
    pub texture: Seq<char>,
    pub dest_size: Vec2N,
    pub source: Option<RectN>,
    pub flip_x: bool,
    pub flip_y: bool,
}

impl SpriteDraw {
    pub open spec fn model(&self) -> SpriteModel {
        SpriteModel {
            position: self.position,
            scale: self.scale,
            texture: self.texture@,
            dest_size: self.dest_size,
            source: self.source,
            flip_x: self.flip_x,
            flip_y: self.flip_y,
        }
    }
}

/// The member `k` of `v`, when `v` is present.
pub open spec fn field(v: Option<Value>, k: Seq<char>) -> Option<Value> {
    match v {
        Some(x) => member(x, k),
        None => None,
    }
}

/// The number a value holds, if it is one.
pub open spec fn num_of(v: Option<Value>) -> Option<Number> {
    match v {
        Some(Value::Num(n)) => Some(n),
        _ => None,
    }
}

/// The flag a value holds, if it is one.
pub open spec fn bool_of(v: Option<Value>) -> Option<bool> {
    match v {
        Some(Value::Bool(b)) => Some(b),
        _ => None,
    }
}

/// The text a value holds, if it is text.
pub open spec fn str_of(v: Option<Value>) -> Option<Seq<char>> {
    match v {
        Some(Value::Str(s)) => Some(s),
        _ => None,
    }
}

/// A value read as an `x`, `y` pair.
pub open spec fn vec2_of(v: Option<Value>) -> Option<Vec2N> {
    match (num_of(field(v, "x"@)), num_of(field(v, "y"@))) {
        (Some(x), Some(y)) => Some(Vec2N { x, y }),
        _ => None,
    }
}

/// A value read as a rectangle.
pub open spec fn rect_of(v: Option<Value>) -> Option<RectN> {
    match (
        num_of(field(v, "x"@)),
        num_of(field(v, "y"@)),
        num_of(field(v, "w"@)),
        num_of(field(v, "h"@)),
    ) {
        (Some(x), Some(y), Some(w), Some(h)) => Some(RectN { x, y, w, h }),
        _ => None,
    }
}

/// The sprite an entity shows: it needs a position, a scale and a sprite
/// with a texture name, a size and both flip flags. The source rectangle is
/// optional. An entity missing any of the rest is not drawn.
pub open spec fn sprite_of(e: Value) -> Option<SpriteModel> {
    let e = Some(e);
    let sprite = field(e, "sprite"@);
    match (
        vec2_of(field(e, "position"@)),
        vec2_of(field(e, "scale"@)),
        str_of(field(sprite, "texture"@)),
        vec2_of(field(sprite, "dest_size"@)),
        bool_of(field(sprite, "flip_x"@)),
        bool_of(field(sprite, "flip_y"@)),
    ) {
        (Some(position), Some(scale), Some(texture), Some(dest_size), Some(flip_x), Some(flip_y)) => Some(
            SpriteModel {
                position,
                scale,
                texture,
                dest_size,
                source: rect_of(field(sprite, "source_rec"@)),
                flip_x,
                flip_y,
            },
        ),
        _ => None,
    }
}

/// The sprites of a list of entities, in entity order.
pub open spec fn sprite_plan(es: Seq<Value>) -> Seq<SpriteModel>
    decreases es.len(),
{
    if es.len() == 0 {
        Seq::empty()
    } else {
        match sprite_of(es.last()) {
            Some(s) => sprite_plan(es.drop_last()).push(s),
            None => sprite_plan(es.drop_last()),
        }
    }
}

/// The position and scale of every entity that has both, in entity order.
pub open spec fn transform_plan(es: Seq<Value>) -> Seq<(Vec2N, Vec2N)>
    decreases es.len(),
{
    if es.len() == 0 {
        Seq::empty()
    } else {
        let e = Some(es.last());
        match (vec2_of(field(e, "position"@)), vec2_of(field(e, "scale"@))) {
            (Some(p), Some(s)) => transform_plan(es.drop_last()).push((p, s)),
            _ => transform_plan(es.drop_last()),
        }
    }
}

/// The camera of a scene: its position and zoom.
pub open spec fn camera_of(scene: Value) -> Option<(Vec2N, Vec2N)> {
    let camera = member(scene, "camera"@);
    match (vec2_of(field(camera, "position"@)), vec2_of(field(camera, "zoom"@))) {
        (Some(p), Some(z)) => Some((p, z)),
        _ => None,
    }
}

/// The model of a value that may be absent.
pub open spec fn opt_model(d: Option<&Document>) -> Option<Value> {
    match d {
        Some(x) => Some(x.model()),
        None => None,
    }
}

fn member_of<'a>(d: Option<&'a Document>, key: &str) -> (r: Option<&'a Document>)
    ensures
        match r {
            Some(x) => field(opt_model(d), key@) == Some(x.model()),
            None => field(opt_model(d), key@) is None,
        },
{
    match d {
        Some(x) => x.get(key),
        None => None,
    }
}

fn number_of(d: Option<&Document>) -> (r: Option<Number>)
    ensures
        r == num_of(opt_model(d)),
{
    match d {
        Some(Document::Number(n)) => Some(*n),
        _ => None,
    }
}

fn flag_of(d: Option<&Document>) -> (r: Option<bool>)
    ensures
        r == bool_of(opt_model(d)),
{
    match d {
        Some(Document::Bool(b)) => Some(*b),
        _ => None,
    }
}

fn text_of(d: Option<&Document>) -> (r: Option<String>)
    ensures
        match r {
            Some(s) => str_of(opt_model(d)) == Some(s@),
            None => str_of(opt_model(d)) is None,
        },
{
    match d {
        Some(Document::Text(s)) => Some(s.clone()),
        _ => None,
    }
}

/// Read a value as an `x`, `y` pair.
pub fn as_vec2(d: Option<&Document>) -> (r: Option<Vec2N>)
    ensures
        r == vec2_of(opt_model(d)),
{
    match (number_of(member_of(d, "x")), number_of(member_of(d, "y"))) {
        (Some(x), Some(y)) => Some(Vec2N { x, y }),
        _ => None,
    }
}

/// Read a value as a rectangle.
pub fn as_rect(d: Option<&Document>) -> (r: Option<RectN>)
    ensures
        r == rect_of(opt_model(d)),
{
    match (
        number_of(member_of(d, "x")),
        number_of(member_of(d, "y")),
        number_of(member_of(d, "w")),
        number_of(member_of(d, "h")),
    ) {
        (Some(x), Some(y), Some(w), Some(h)) => Some(RectN { x, y, w, h }),
        _ => None,
    }
}

/// The sprite an entity shows, if it shows one.
pub fn sprite_draw(e: &Document) -> (r: Option<SpriteDraw>)
    ensures
        match r {
            Some(s) => sprite_of(e.model()) == Some(s.model()),
            None => sprite_of(e.model()) is None,
        },
{
    let e = Some(e);
    let sprite = member_of(e, "sprite");
    match (
        as_vec2(member_of(e, "position")),
        as_vec2(member_of(e, "scale")),
        text_of(member_of(sprite, "texture")),
        as_vec2(member_of(sprite, "dest_size")),
        flag_of(member_of(sprite, "flip_x")),
        flag_of(member_of(sprite, "flip_y")),
    ) {
        (Some(position), Some(scale), Some(texture), Some(dest_size), Some(flip_x), Some(flip_y)) => Some(
            SpriteDraw {
                position,
                scale,
                texture,
                dest_size,
                source: as_rect(member_of(sprite, "source_rec")),
                flip_x,
                flip_y,
            },
        ),
        _ => None,
    }
}

/// The sprites to draw for a scene, in entity order. Entities that lack a
/// component, or hold a malformed one, are skipped; a scene without an
/// entity list draws none.
pub fn sprite_draws(scene: &Document) -> (r: Vec<SpriteDraw>)
    ensures
        r@.map_values(|s: SpriteDraw| s.model()) == match entities(scene.model()) {
            Some(es) => sprite_plan(es),
            None => Seq::empty(),
        },
{
    let mut out: Vec<SpriteDraw> = Vec::new();
    proof {
        reveal_strlit("entities");
        assert("entities"@ =~= crate::document::entities_key());
    }
    match scene.get("entities") {
        Some(Document::Array(items)) => {
            let ghost es = entities(scene.model())->Some_0;
            let mut i: usize = 0;
            while i < items.len()
                invariant
                    es.len() == items@.len(),
                    forall|j: int| 0 <= j < items@.len() ==> es[j] == #[trigger] items@[j].model(),
                    i <= items.len(),
                    out@.map_values(|s: SpriteDraw| s.model()) == sprite_plan(es.subrange(0, i as int)),
                decreases items.len() - i,
            {
                assert(es.subrange(0, i + 1).drop_last() =~= es.subrange(0, i as int));
                assert(es.subrange(0, i + 1).last() == items@[i as int].model());
                let ghost before = out@;
                match sprite_draw(&items[i]) {
                    Some(s) => {
                        let ghost sm = s.model();
                        out.push(s);
                        assert(out@.map_values(|s: SpriteDraw| s.model()) =~= before.map_values(
                            |s: SpriteDraw| s.model(),
                        ).push(sm));
                    },
                    None => {},
                }
                i = i + 1;
            }
            assert(es.subrange(0, items@.len() as int) =~= es);
            out
        },
        _ => {
            assert(out@.map_values(|s: SpriteDraw| s.model()) =~= Seq::<SpriteModel>::empty());
            out
        },
    }
}

/// The position and scale of every entity that has both, in entity order,
/// for the debug overlay.
pub fn transform_draws(scene: &Document) -> (r: Vec<(Vec2N, Vec2N)>)
    ensures
        r@ == match entities(scene.model()) {
            Some(es) => transform_plan(es),
            None => Seq::empty(),
        },
{
    let mut out: Vec<(Vec2N, Vec2N)> = Vec::new();
    proof {
        reveal_strlit("entities");
        assert("entities"@ =~= crate::document::entities_key());
    }
    match scene.get("entities") {
        Some(Document::Array(items)) => {
            let ghost es = entities(scene.model())->Some_0;
            let mut i: usize = 0;
            while i < items.len()
                invariant
                    es.len() == items@.len(),
                    forall|j: int| 0 <= j < items@.len() ==> es[j] == #[trigger] items@[j].model(),
                    i <= items.len(),
                    out@ == transform_plan(es.subrange(0, i as int)),
                decreases items.len() - i,
            {
                assert(es.subrange(0, i + 1).drop_last() =~= es.subrange(0, i as int));
                assert(es.subrange(0, i + 1).last() == items@[i as int].model());
                let e = Some(&items[i]);
                match (as_vec2(member_of(e, "position")), as_vec2(member_of(e, "scale"))) {
                    (Some(p), Some(sc)) => out.push((p, sc)),
                    _ => {},
                }
                i = i + 1;
            }
            assert(es.subrange(0, items@.len() as int) =~= es);
            out
        },
        _ => out,
    }
}

/// The camera of a scene: its position and zoom, when both are readable.
pub fn camera_view(scene: &Document) -> (r: Option<(Vec2N, Vec2N)>)
    ensures
        r == camera_of(scene.model()),
{
    let camera = scene.get("camera");
    match (as_vec2(member_of(camera, "position")), as_vec2(member_of(camera, "zoom"))) {
        (Some(p), Some(z)) => Some((p, z)),
        _ => None,
    }
}

} // verus!
