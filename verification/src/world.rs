//! The static collision world: named layers of solid rectangles derived
//! from map data, closed off by four synthetic boundary edges, and the
//! collision query the player moves against.

use crate::geometry::{Rect, RectV, Vec2, Vec2V, COORD_LIMIT, UNIT};
use vstd::prelude::*;
use vstd::string::StringExecFns;

verus! {

/// Identifiers of the drawable map layers the renderer binds textures to.
#[derive(Hash, PartialEq, Eq, Clone, Copy)]
pub enum MapLayers {
    Terrain,
    Objects,
    Lava,
}

/// One shape record of a map object layer, as the map loader hands it over.
/// Only rectangular records take part in collision geometry.
#[derive(Clone, Copy, PartialEq, Eq, Structural, Debug)]
pub enum MapShape {
    Rectangle { x: i64, y: i64, width: i64, height: i64 },
    Other,
}

impl MapShape {
    /// The rectangle a rectangular record describes.
    pub open spec fn rect(self) -> RectV {
        match self {
            MapShape::Rectangle { x, y, width, height } => RectV {
                x: x as int,
                y: y as int,
                w: width as int,
                h: height as int,
            },
            MapShape::Other => RectV { x: 0, y: 0, w: 0, h: 0 },
        }
    }

    pub open spec fn wf(self) -> bool {
        self is Rectangle ==> self.rect().wf()
    }
}

/// The rectangles of a list of shape records: every rectangular record,
/// in order, with every other record skipped silently.
pub open spec fn rects_of_shapes(shapes: Seq<MapShape>) -> Seq<RectV>
    decreases shapes.len(),
{
    if shapes.len() == 0 {
        Seq::empty()
    } else if shapes.last() is Rectangle {
        rects_of_shapes(shapes.drop_last()).push(shapes.last().rect())
    } else {
        rects_of_shapes(shapes.drop_last())
    }
}

/// A raw object layer as the map loader yields it: a name and its shapes.
pub struct RawObjectLayer {
    pub name: String,
    pub shapes: Vec<MapShape>,
}

/// A named list of solid rectangles.
#[derive(Clone)]
pub struct ObjectLayer {
    pub name: String,
    pub rects: Vec<Rect>,
}

#[verifier::ext_equal]
pub ghost struct LayerV {
    pub name: Seq<char>,
    pub rects: Seq<RectV>,
}

impl View for ObjectLayer {
    type V = LayerV;

    open spec fn view(&self) -> LayerV {
        LayerV { name: self.name@, rects: self.rects@.map_values(|r: Rect| r@) }
    }
}

/// The reserved name of the collidable-terrain layer.
pub open spec fn unmovable_name() -> Seq<char> {
    "Unmovable"@
}

/// The four synthetic boundary edges of thickness one world unit: left,
/// top, right and bottom. Left and top lie just inside the boundary,
/// right and bottom just outside it, as the map geometry has them.
pub open spec fn edge_rects(b: RectV) -> Seq<RectV> {
    seq![
        RectV { x: b.x, y: b.y, w: UNIT as int, h: b.h },
        RectV { x: b.x, y: b.y, w: b.w, h: UNIT as int },
        RectV { x: b.right(), y: b.y, w: UNIT as int, h: b.h },
        RectV { x: b.left(), y: b.bottom(), w: b.w, h: UNIT as int },
    ]
}

/// Mathematical model of a [`World`].
#[verifier::ext_equal]
pub ghost struct WorldV {
    pub rect: RectV,
    pub object_rects: Seq<LayerV>,
    pub unmovable_index: int,
}

impl WorldV {
    /// The rectangles of the collidable-terrain layer.
    pub open spec fn unmovable_rects(self) -> Seq<RectV> {
        self.object_rects[self.unmovable_index].rects
    }

    /// Well-formed world: the boundary starts at the origin, the
    /// collidable-terrain layer exists, carries the reserved name and is
    /// non-empty, and every solid rectangle is well-formed.
    pub open spec fn wf(self) -> bool {
        &&& self.rect.wf()
        &&& self.rect.x == 0
        &&& self.rect.y == 0
        &&& 0 <= self.unmovable_index < self.object_rects.len()
        &&& self.object_rects[self.unmovable_index].name == unmovable_name()
        &&& self.unmovable_rects().len() > 0
        &&& forall|i: int, j: int|
            0 <= i < self.object_rects.len() && 0 <= j < self.object_rects[i].rects.len()
                ==> (#[trigger] self.object_rects[i].rects[j]).wf()
    }

    /// The box `r`, displaced by `d`, overlaps some collidable rectangle.
    pub open spec fn collides(self, r: RectV, d: Vec2V) -> bool {
        exists|i: int|
            0 <= i < self.unmovable_rects().len() && r.translated(d).overlaps(
                #[trigger] self.unmovable_rects()[i],
            )
    }
}

/// The static world: its boundary rectangle and the named layers of solid
/// rectangles. Immutable after construction.
#[derive(Clone)]
pub struct World {
    pub rect: Rect,
    pub object_rects: Vec<ObjectLayer>,
    pub unmovable_index: usize,
}

impl View for World {
    type V = WorldV;

    open spec fn view(&self) -> WorldV {
        WorldV {
            rect: self.rect@,
            object_rects: self.object_rects@.map_values(|l: ObjectLayer| l@),
            unmovable_index: self.unmovable_index as int,
        }
    }
}

/// Every rectangle a well-formed shape list yields is well-formed.
proof fn lemma_rects_of_shapes_wf(shapes: Seq<MapShape>)
    requires
        forall|j: int| 0 <= j < shapes.len() ==> (#[trigger] shapes[j]).wf(),
    ensures
        forall|k: int|
            0 <= k < rects_of_shapes(shapes).len() ==> (#[trigger] rects_of_shapes(shapes)[k]).wf(),
    decreases shapes.len(),
{
    if shapes.len() > 0 {
        let prefix = shapes.drop_last();
        assert forall|j: int| 0 <= j < prefix.len() implies (#[trigger] prefix[j]).wf() by {
            assert(prefix[j] == shapes[j]);
        }
        lemma_rects_of_shapes_wf(prefix);
        assert(shapes.last().wf());
        assert forall|k: int| 0 <= k < rects_of_shapes(shapes).len() implies (
        #[trigger] rects_of_shapes(shapes)[k]).wf() by {
            if k < rects_of_shapes(prefix).len() {
                assert(rects_of_shapes(shapes)[k] == rects_of_shapes(prefix)[k]);
            } else {
                assert(rects_of_shapes(shapes)[k] == shapes.last().rect());
            }
        }
    }
}

impl World {
    /// Builds the world from the loader's object layers and the map's size
    /// in subunits. Every object layer becomes a named rectangle list; the
    /// mandatory `"Unmovable"` layer is then extended with the four
    /// synthetic boundary edges that close the play area.
    pub fn new(map_layers: Vec<RawObjectLayer>, width: i64, height: i64) -> (w: World)
        requires
            0 <= width && width + UNIT <= COORD_LIMIT,
            0 <= height && height + UNIT <= COORD_LIMIT,
            forall|i: int, j: int|
                0 <= i < map_layers@.len() && 0 <= j < map_layers@[i].shapes@.len()
                    ==> (#[trigger] map_layers@[i].shapes@[j]).wf(),
            exists|i: int| 0 <= i < map_layers@.len() && map_layers@[i].name@ == unmovable_name(),
            forall|i: int, j: int|
                0 <= i < j < map_layers@.len() ==> (#[trigger] map_layers@[i].name@)
                    != (#[trigger] map_layers@[j].name@),
        ensures
            w@.wf(),
            w@.rect == (RectV { x: 0, y: 0, w: width as int, h: height as int }),
            w@.object_rects.len() == map_layers@.len(),
            forall|i: int|
                0 <= i < map_layers@.len()
                    ==> (#[trigger] w@.object_rects[i]).name == map_layers@[i].name@,
            forall|i: int|
                0 <= i < map_layers@.len() && i != w@.unmovable_index
                    ==> (#[trigger] w@.object_rects[i]).rects == rects_of_shapes(
                    map_layers@[i].shapes@,
                ),
            w@.object_rects[w@.unmovable_index].rects == rects_of_shapes(
                map_layers@[w@.unmovable_index as int].shapes@,
            ) + edge_rects(w@.rect),
    {
        let rect = Rect::new(0, 0, width, height);
        let mut object_rects = World::objects_to_rects(&map_layers);

        let key: String = String::from_str("Unmovable");
        let mut idx: usize = 0;
        let mut found = false;
        while !found && idx < object_rects.len()
            invariant
                key@ == unmovable_name(),
                idx <= object_rects@.len(),
                found ==> idx < object_rects@.len() && object_rects@[idx as int]@.name
                    == unmovable_name(),
                !found ==> forall|k: int|
                    0 <= k < idx ==> (#[trigger] object_rects@[k])@.name != unmovable_name(),
            decreases object_rects@.len() - idx + (if found { 0int } else { 1int }),
        {
            if object_rects[idx].name == key {
                found = true;
            } else {
                idx += 1;
            }
        }
        proof {
            if !found {
                let i = choose|i: int|
                    0 <= i < map_layers@.len() && map_layers@[i].name@ == unmovable_name();
                assert(object_rects@[i]@.name == unmovable_name());
                assert(false);
            }
        }

        let mut edges = World::edges_to_rects(&rect);
        let mut unmovable_layer = object_rects.remove(idx);
        unmovable_layer.rects.append(&mut edges);
        object_rects.insert(idx, unmovable_layer);

        let w = World { rect, object_rects, unmovable_index: idx };
        proof {
            assert forall|i: int| 0 <= i < map_layers@.len() implies (#[trigger] w@.object_rects[i]).name
                == map_layers@[i].name@ by {}
            assert(w@.object_rects[idx as int].rects =~= rects_of_shapes(
                map_layers@[idx as int].shapes@,
            ) + edge_rects(w@.rect));
            proof_world_wf(w@, map_layers@);
        }
        w
    }

    /// Per-frame tick of the world, reserved for movable geometry; the
    /// current world has none, so nothing changes.
    pub fn update(&mut self)
        ensures
            *final(self) == *old(self),
    {
    }

    /// The four synthetic boundary edges of `rect`; see [`edge_rects`].
    fn edges_to_rects(rect: &Rect) -> (edges: Vec<Rect>)
        requires
            rect@.wf(),
            rect@.right() + UNIT <= COORD_LIMIT,
            rect@.bottom() + UNIT <= COORD_LIMIT,
        ensures
            edges@.map_values(|r: Rect| r@) == edge_rects(rect@),
    {
        let mut rects: Vec<Rect> = Vec::new();
        rects.push(Rect { x: rect.x, y: rect.y, w: UNIT, h: rect.h });
        rects.push(Rect { x: rect.x, y: rect.y, w: rect.w, h: UNIT });
        rects.push(Rect { x: rect.right(), y: rect.y, w: UNIT, h: rect.h });
        rects.push(Rect { x: rect.left(), y: rect.bottom(), w: rect.w, h: UNIT });
        proof {
            assert(rects@.map_values(|r: Rect| r@) =~= edge_rects(rect@));
        }
        rects
    }

    /// Does the box, displaced by `move_vector`, overlap any rectangle of
    /// the collidable-terrain layer? Pure query; the world never changes.
    pub fn collision(&self, rect: &Rect, move_vector: Vec2) -> (hit: bool)
        requires
            self@.wf(),
            rect@.wf(),
            -COORD_LIMIT <= move_vector.x <= COORD_LIMIT,
            -COORD_LIMIT <= move_vector.y <= COORD_LIMIT,
        ensures
            hit == self@.collides(rect@, move_vector@),
    {
        let moved_rect = Rect {
            x: rect.x + move_vector.x,
            y: rect.y + move_vector.y,
            w: rect.w,
            h: rect.h,
        };
        proof {
            assert(moved_rect@ == rect@.translated(move_vector@));
        }
        let regions: &Vec<Rect> = &self.object_rects[self.unmovable_index].rects;
        let mut collision = false;
        let mut i: usize = 0;
        while i < regions.len()
            invariant
                regions@.map_values(|r: Rect| r@) == self@.unmovable_rects(),
                self@.wf(),
                moved_rect@ == rect@.translated(move_vector@),
                moved_rect@.arith_ok(),
                i <= regions@.len(),
                collision == exists|k: int|
                    0 <= k < i && moved_rect@.overlaps(#[trigger] self@.unmovable_rects()[k]),
            decreases regions@.len() - i,
        {
            proof {
                assert(regions@.map_values(|r: Rect| r@)[i as int] == regions@[i as int]@);
                assert(self@.object_rects[self@.unmovable_index].rects[i as int].wf());
            }
            if moved_rect.overlaps(&regions[i]) {
                collision = true;
                proof {
                    assert(moved_rect@.overlaps(self@.unmovable_rects()[i as int]));
                }
            }
            i += 1;
        }
        collision
    }

    /// Turns each raw object layer into a named rectangle list, keeping
    /// layer order and skipping non-rectangular shapes.
    fn objects_to_rects(map_layers: &Vec<RawObjectLayer>) -> (layers: Vec<ObjectLayer>)
        ensures
            layers@.len() == map_layers@.len(),
            forall|i: int|
                0 <= i < map_layers@.len() ==> (#[trigger] layers@[i])@.name
                    == map_layers@[i].name@ && layers@[i]@.rects == rects_of_shapes(
                    map_layers@[i].shapes@,
                ),
    {
        let mut layers: Vec<ObjectLayer> = Vec::new();
        let mut i: usize = 0;
        while i < map_layers.len()
            invariant
                i <= map_layers@.len(),
                layers@.len() == i,
                forall|k: int|
                    0 <= k < i ==> (#[trigger] layers@[k])@.name == map_layers@[k].name@
                        && layers@[k]@.rects == rects_of_shapes(map_layers@[k].shapes@),
            decreases map_layers@.len() - i,
        {
            let shapes: &Vec<MapShape> = &map_layers[i].shapes;
            let mut layer_rects: Vec<Rect> = Vec::new();
            let mut j: usize = 0;
            while j < shapes.len()
                invariant
                    j <= shapes@.len(),
                    layer_rects@.map_values(|r: Rect| r@) == rects_of_shapes(shapes@.take(j as int)),
                decreases shapes@.len() - j,
            {
                let ghost prefix = shapes@.take(j as int);
                match shapes[j] {
                    MapShape::Rectangle { x, y, width, height } => {
                        layer_rects.push(Rect { x, y, w: width, h: height });
                    },
                    MapShape::Other => {},
                }
                proof {
                    assert(shapes@.take(j + 1).drop_last() =~= prefix);
                    assert(shapes@.take(j + 1).last() == shapes@[j as int]);
                    assert(layer_rects@.map_values(|r: Rect| r@) =~= rects_of_shapes(
                        shapes@.take(j + 1),
                    ));
                }
                j += 1;
            }
            proof {
                assert(shapes@.take(shapes@.len() as int) =~= shapes@);
            }
            let layer_name: String = map_layers[i].name.clone();
            layers.push(ObjectLayer { name: layer_name, rects: layer_rects });
            i += 1;
        }
        layers
    }
}

/// Establishes well-formedness of a freshly built world.
proof fn proof_world_wf(w: WorldV, map_layers: Seq<RawObjectLayer>)
    requires
        w.rect.wf(),
        w.rect.x == 0,
        w.rect.y == 0,
        w.rect.right() + UNIT <= COORD_LIMIT as int,
        w.rect.bottom() + UNIT <= COORD_LIMIT as int,
        0 <= w.unmovable_index < w.object_rects.len(),
        w.object_rects.len() == map_layers.len(),
        w.object_rects[w.unmovable_index].name == unmovable_name(),
        forall|i: int, j: int|
            0 <= i < map_layers.len() && 0 <= j < map_layers[i].shapes@.len()
                ==> (#[trigger] map_layers[i].shapes@[j]).wf(),
        forall|i: int|
            0 <= i < w.object_rects.len() && i != w.unmovable_index
                ==> (#[trigger] w.object_rects[i]).rects == rects_of_shapes(map_layers[i].shapes@),
        w.object_rects[w.unmovable_index].rects == rects_of_shapes(
            map_layers[w.unmovable_index].shapes@,
        ) + edge_rects(w.rect),
    ensures
        w.wf(),
{
    assert forall|i: int, j: int|
        0 <= i < w.object_rects.len() && 0 <= j < w.object_rects[i].rects.len() implies (
    #[trigger] w.object_rects[i].rects[j]).wf() by {
        lemma_rects_of_shapes_wf(map_layers[i].shapes@);
        if i == w.unmovable_index {
            let base = rects_of_shapes(map_layers[i].shapes@);
            if j >= base.len() {
                assert(w.object_rects[i].rects[j] == edge_rects(w.rect)[j - base.len()]);
            }
        }
    }
    assert(w.unmovable_rects().len() >= 4);
}

/// A world whose collidable-terrain layer ends in the four synthetic
/// edges — as every world built by [`World::new`] does — contains each of
/// them, so [`lemma_boundary_containment`] applies to it.
pub proof fn lemma_edges_present(w: WorldV, base: Seq<RectV>)
    requires
        w.unmovable_rects() == base + edge_rects(w.rect),
    ensures
        forall|k: int| 0 <= k < 4 ==> w.unmovable_rects().contains(#[trigger] edge_rects(w.rect)[k]),
{
    assert forall|k: int| 0 <= k < 4 implies w.unmovable_rects().contains(
        #[trigger] edge_rects(w.rect)[k],
    ) by {
        assert(w.unmovable_rects()[base.len() + k] == edge_rects(w.rect)[k]);
    }
}

/// Boundary containment law: an actor box lying inside the play area, when
/// displaced by less than its own extent on each axis, cannot end up
/// outside the boundary without colliding with one of the four synthetic
/// edge rectangles. (A displacement that large could jump the edges.)
pub proof fn lemma_boundary_containment(w: WorldV, r: RectV, d: Vec2V)
    requires
        w.wf(),
        forall|k: int| 0 <= k < 4 ==> w.unmovable_rects().contains(#[trigger] edge_rects(w.rect)[k]),
        0 < r.w,
        0 < r.h,
        UNIT as int <= r.x && r.x + r.w <= w.rect.w,
        UNIT as int <= r.y && r.y + r.h <= w.rect.h,
        -r.w < d.x < r.w,
        -r.h < d.y < r.h,
    ensures
        !r.translated(d).contained_in(w.rect) ==> w.collides(r, d),
{
    let m = r.translated(d);
    let b = w.rect;
    if !m.contained_in(b) {
        let e = if m.x < b.x {
            edge_rects(b)[0]
        } else if m.x + m.w > b.x + b.w {
            edge_rects(b)[2]
        } else if m.y < b.y {
            edge_rects(b)[1]
        } else {
            edge_rects(b)[3]
        };
        assert(m.overlaps(e));
        assert(w.unmovable_rects().contains(e));
        let i = choose|i: int| 0 <= i < w.unmovable_rects().len() && w.unmovable_rects()[i] == e;
        assert(m.overlaps(w.unmovable_rects()[i]));
    }
}

} // verus!
