//! Layers, the canvas that orders them, and its viewport.

use vstd::prelude::*;
use crate::element::CanvasElement;
use crate::error::Error;
use crate::geometry::{coord_ok, Point, Transform, UNIT};

verus! {

/// Where a render pass reports each element it draws, back to front.
#[derive(Debug)]
pub struct RenderContext {
    pub drawn: Vec<String>,
}

impl RenderContext {
    pub fn new() -> (r: RenderContext)
        ensures
            r.drawn@.len() == 0,
    {
        RenderContext { drawn: Vec::new() }
    }

    /// The ids drawn so far.
    pub open spec fn ids(&self) -> Seq<Seq<char>> {
        self.drawn@.map_values(|s: String| s@)
    }
}

/// A named, ordered container of elements. Opacity is in thousandths.
#[derive(Debug)]
pub struct Layer {
    pub id: String,
    pub name: String,
    pub visible: bool,
    pub locked: bool,
    pub opacity: u32,
    pub elements: Vec<CanvasElement>,
}

/// The ids of the elements, in order.
pub open spec fn element_ids(es: Seq<CanvasElement>) -> Seq<Seq<char>> {
    es.map_values(|e: CanvasElement| e.id_spec())
}

impl Layer {
    /// What a render pass draws of this layer: nothing when it is hidden.
    pub open spec fn drawn(&self) -> Seq<Seq<char>> {
        if self.visible {
            element_ids(self.elements@)
        } else {
            Seq::empty()
        }
    }

    pub fn new(id: String, name: String) -> (r: Layer)
        ensures
            r.id == id,
            r.name == name,
            r.visible,
            !r.locked,
            r.opacity == 1000,
            r.elements@.len() == 0,
    {
        Layer { id, name, visible: true, locked: false, opacity: 1000, elements: Vec::new() }
    }

    pub fn id(&self) -> (r: &str)
        ensures
            r@ == self.id@,
    {
        self.id.as_str()
    }

    pub fn name(&self) -> (r: &str)
        ensures
            r@ == self.name@,
    {
        self.name.as_str()
    }

    pub fn set_name(&mut self, name: String)
        ensures
            *final(self) == (Layer { name, ..*old(self) }),
    {
        self.name = name;
    }

    pub fn is_visible(&self) -> (r: bool)
        ensures
            r == self.visible,
    {
        self.visible
    }

    pub fn set_visible(&mut self, visible: bool)
        ensures
            *final(self) == (Layer { visible, ..*old(self) }),
    {
        self.visible = visible;
    }

    pub fn is_locked(&self) -> (r: bool)
        ensures
            r == self.locked,
    {
        self.locked
    }

    pub fn set_locked(&mut self, locked: bool)
        ensures
            *final(self) == (Layer { locked, ..*old(self) }),
    {
        self.locked = locked;
    }

    pub fn opacity(&self) -> (r: u32)
        ensures
            r == self.opacity,
    {
        self.opacity
    }

    /// Sets the opacity, clamped to at most one (1000 thousandths).
    pub fn set_opacity(&mut self, opacity: u32)
        ensures
            *final(self) == (Layer {
                opacity: if opacity > 1000 { 1000 } else { opacity },
                ..*old(self)
            }),
    {
        self.opacity = if opacity > 1000 {
            1000
        } else {
            opacity
        };
    }

    /// Appends an element on top of the others.
    pub fn add_element(&mut self, element: CanvasElement)
        ensures
            final(self).elements@ == old(self).elements@.push(element),
            final(self).id == old(self).id,
            final(self).name == old(self).name,
            final(self).visible == old(self).visible,
            final(self).locked == old(self).locked,
            final(self).opacity == old(self).opacity,
    {
        self.elements.push(element);
    }

    /// Takes out the element at `index`, if there is one; those above it move down.
    pub fn remove_element(&mut self, index: usize) -> (r: Option<CanvasElement>)
        ensures
            index < old(self).elements@.len() ==> r == Some(old(self).elements@[index as int])
                && final(self).elements@ == old(self).elements@.remove(index as int),
            index >= old(self).elements@.len() ==> r is None && final(self).elements@ == old(self).elements@,
            final(self).id == old(self).id,
            final(self).name == old(self).name,
            final(self).visible == old(self).visible,
            final(self).locked == old(self).locked,
            final(self).opacity == old(self).opacity,
    {
        if index < self.elements.len() {
            Some(self.elements.remove(index))
        } else {
            None
        }
    }

    pub fn elements(&self) -> (r: &[CanvasElement])
        ensures
            r@ == self.elements@,
    {
        self.elements.as_slice()
    }

    /// Reports the ids of the elements in order, unless the layer is hidden.
    pub fn render(&self, context: &mut RenderContext)
        ensures
            final(context).ids() == old(context).ids() + self.drawn(),
    {
        if !self.visible {
            assert(old(context).ids() + self.drawn() =~= old(context).ids());
            return;
        }
        let n = self.elements.len();
        let mut i: usize = 0;
        while i < n
            invariant
                n == self.elements@.len(),
                self.visible,
                i <= n,
                context.ids() == old(context).ids() + element_ids(self.elements@.subrange(0, i as int)),
            decreases n - i,
        {
            let id = self.elements[i].id().to_owned();
            proof {
                assert(element_ids(self.elements@.subrange(0, i + 1)) =~= element_ids(
                    self.elements@.subrange(0, i as int),
                ).push(self.elements@[i as int].id_spec()));
            }
            let ghost before = context.drawn@;
            context.drawn.push(id);
            proof {
                assert(context.drawn@ == before.push(id));
                assert(context.ids() =~= before.map_values(|s: String| s@).push(id@));
                assert(context.ids() =~= old(context).ids() + element_ids(
                    self.elements@.subrange(0, i + 1),
                ));
            }
            i = i + 1;
        }
        assert(self.elements@.subrange(0, n as int) =~= self.elements@);
    }
}

/// The largest magnitude of a viewport centre coordinate.
pub const CENTER_LIMIT: i64 = 1_099_511_627_776;

/// The smallest zoom, in thousandths.
pub const MIN_ZOOM: i64 = 100;

/// The largest zoom, in thousandths.
pub const MAX_ZOOM: i64 = 10_000;

/// Notification of a changed viewport: its centre and its zoom in thousandths.
#[derive(Clone, Copy, Debug, PartialEq, Eq, Structural)]
pub struct CanvasViewChangeEvent {
    pub x: i64,
    pub y: i64,
    pub scale: i64,
}

/// The visible part of the scene: a scene point `p` is shown at
/// `(p - center) * zoom / UNIT` from the middle of the screen.
#[derive(Clone, Copy, Debug, PartialEq, Eq, Structural)]
pub struct Viewport {
    pub center_x: i64,
    pub center_y: i64,
    pub zoom: i64,
}

/// `v` limited to the range from `lo` to `hi`.
pub open spec fn clamp(v: int, lo: int, hi: int) -> int {
    if v < lo {
        lo
    } else if v > hi {
        hi
    } else {
        v
    }
}

impl Viewport {
    pub open spec fn wf(&self) -> bool {
        MIN_ZOOM <= self.zoom <= MAX_ZOOM && -CENTER_LIMIT <= self.center_x <= CENTER_LIMIT
            && -CENTER_LIMIT <= self.center_y <= CENTER_LIMIT
    }

    /// Screen offset of scene coordinate `v` on the x axis, in thousandths of a step.
    pub open spec fn screen_x(&self, v: int) -> int {
        (v - self.center_x) * self.zoom
    }

    /// Screen offset of scene coordinate `v` on the y axis, in thousandths of a step.
    pub open spec fn screen_y(&self, v: int) -> int {
        (v - self.center_y) * self.zoom
    }

    /// The zoom after multiplying by `factor` thousandths, clamped to its range.
    pub open spec fn zoomed(&self, factor: int) -> int {
        clamp(self.zoom * factor / 1000, MIN_ZOOM as int, MAX_ZOOM as int)
    }

    /// The centre coordinate that keeps `k` where it was on screen, rounded
    /// so that the focus moves by less than one step of the new zoom.
    pub open spec fn refocused(c: int, k: int, z: int, z2: int) -> int {
        k - (k - c) * z / z2
    }

    /// Decides `wf`.
    pub fn is_valid(&self) -> (r: bool)
        ensures
            r == self.wf(),
    {
        MIN_ZOOM <= self.zoom && self.zoom <= MAX_ZOOM && -CENTER_LIMIT <= self.center_x
            && self.center_x <= CENTER_LIMIT && -CENTER_LIMIT <= self.center_y && self.center_y
            <= CENTER_LIMIT
    }

    pub fn new() -> (r: Viewport)
        ensures
            r == (Viewport { center_x: 0, center_y: 0, zoom: 1000 }),
            r.wf(),
    {
        Viewport { center_x: 0, center_y: 0, zoom: 1000 }
    }

    /// The map from scene to screen coordinates.
    pub fn transform(&self) -> (r: Transform)
        requires
            self.wf(),
        ensures
            r == (Transform {
                a: self.zoom as i128,
                b: 0,
                c: 0,
                d: self.zoom as i128,
                e: (-(self.center_x * self.zoom)) as i128,
                f: (-(self.center_y * self.zoom)) as i128,
                s: UNIT as i128,
            }),
    {
        assert(-0x40_0000_0000_0000 <= self.center_x * self.zoom <= 0x40_0000_0000_0000) by (nonlinear_arith)
            requires
                -CENTER_LIMIT <= self.center_x <= CENTER_LIMIT,
                MIN_ZOOM <= self.zoom <= MAX_ZOOM,
        ;
        assert(-0x40_0000_0000_0000 <= self.center_y * self.zoom <= 0x40_0000_0000_0000) by (nonlinear_arith)
            requires
                -CENTER_LIMIT <= self.center_y <= CENTER_LIMIT,
                MIN_ZOOM <= self.zoom <= MAX_ZOOM,
        ;
        Transform {
            a: self.zoom as i128,
            b: 0,
            c: 0,
            d: self.zoom as i128,
            e: -(self.center_x * self.zoom) as i128,
            f: -(self.center_y * self.zoom) as i128,
            s: UNIT as i128,
        }
    }

    /// Multiplies the zoom by `factor` thousandths, clamps it, and when a
    /// focus is given moves the centre so that the focus stays in place.
    pub fn zoom(&mut self, factor: u32, focus: Option<Point>) -> (r: CanvasViewChangeEvent)
        requires
            old(self).wf(),
            focus matches Some(k) ==> k.wf(),
        ensures
            final(self).zoom == old(self).zoomed(factor as int),
            match focus {
                Some(k) => final(self).center_x == Viewport::refocused(
                    old(self).center_x as int,
                    k.x as int,
                    old(self).zoom as int,
                    final(self).zoom as int,
                ) && final(self).center_y == Viewport::refocused(
                    old(self).center_y as int,
                    k.y as int,
                    old(self).zoom as int,
                    final(self).zoom as int,
                ),
                None => final(self).center_x == old(self).center_x && final(self).center_y
                    == old(self).center_y,
            },
            r == (CanvasViewChangeEvent {
                x: final(self).center_x,
                y: final(self).center_y,
                scale: final(self).zoom,
            }),
    {
        let z = self.zoom;
        assert(0 <= z * factor <= 0x1000_0000_0000_0000) by (nonlinear_arith)
            requires
                MIN_ZOOM <= z <= MAX_ZOOM,
                0 <= factor <= 0xffff_ffff,
        ;
        let raw = z * factor as i64 / 1000;
        let z2 = if raw < MIN_ZOOM {
            MIN_ZOOM
        } else if raw > MAX_ZOOM {
            MAX_ZOOM
        } else {
            raw
        };
        if let Some(k) = focus {
            self.center_x = refocus(self.center_x, k.x, z, z2);
            self.center_y = refocus(self.center_y, k.y, z, z2);
        }
        self.zoom = z2;
        CanvasViewChangeEvent { x: self.center_x, y: self.center_y, scale: self.zoom }
    }

    /// Moves the centre by `(dx, dy)`.
    pub fn pan(&mut self, dx: i64, dy: i64) -> (r: CanvasViewChangeEvent)
        requires
            -CENTER_LIMIT <= old(self).center_x + dx <= CENTER_LIMIT,
            -CENTER_LIMIT <= old(self).center_y + dy <= CENTER_LIMIT,
        ensures
            *final(self) == (Viewport {
                center_x: (old(self).center_x + dx) as i64,
                center_y: (old(self).center_y + dy) as i64,
                zoom: old(self).zoom,
            }),
            r == (CanvasViewChangeEvent {
                x: final(self).center_x,
                y: final(self).center_y,
                scale: final(self).zoom,
            }),
    {
        self.center_x = self.center_x + dx;
        self.center_y = self.center_y + dy;
        CanvasViewChangeEvent { x: self.center_x, y: self.center_y, scale: self.zoom }
    }
}

fn refocus(c: i64, k: i64, z: i64, z2: i64) -> (r: i64)
    requires
        -CENTER_LIMIT <= c <= CENTER_LIMIT,
        coord_ok(k as int),
        MIN_ZOOM <= z <= MAX_ZOOM,
        MIN_ZOOM <= z2 <= MAX_ZOOM,
    ensures
        r == Viewport::refocused(c as int, k as int, z as int, z2 as int),
{
    let diff = k as i128 - c as i128;
    assert(-0x100_0000_0000_0000 <= diff * z <= 0x100_0000_0000_0000) by (nonlinear_arith)
        requires
            -0x200_0000_0000 <= diff <= 0x200_0000_0000,
            MIN_ZOOM <= z <= MAX_ZOOM,
    ;
    let q = crate::geometry::floor_div(diff * z as i128, z2 as i128);
    assert(-0x100_0000_0000_0000 <= q <= 0x100_0000_0000_0000) by (nonlinear_arith)
        requires
            -0x100_0000_0000_0000 <= diff * z <= 0x100_0000_0000_0000,
            q == (diff * z) / (z2 as int),
            z2 >= 100,
    ;
    (k as i128 - q) as i64
}

/// Zooming toward a focus point keeps the focus where it was on screen: the
/// new screen offset falls short of the old by less than one step of the
/// new zoom on each axis, and matches it exactly when the division is exact.
pub proof fn lemma_zoom_keeps_focus(old: Viewport, new: Viewport, factor: int, k: Point)
    requires
        old.wf(),
        new.zoom == old.zoomed(factor),
        new.center_x == Viewport::refocused(old.center_x as int, k.x as int, old.zoom as int, new.zoom as int),
        new.center_y == Viewport::refocused(old.center_y as int, k.y as int, old.zoom as int, new.zoom as int),
    ensures
        0 <= old.screen_x(k.x as int) - new.screen_x(k.x as int) < new.zoom,
        0 <= old.screen_y(k.y as int) - new.screen_y(k.y as int) < new.zoom,
        (old.screen_x(k.x as int) % (new.zoom as int) == 0) ==> new.screen_x(k.x as int) == old.screen_x(k.x as int),
        (old.screen_y(k.y as int) % (new.zoom as int) == 0) ==> new.screen_y(k.y as int) == old.screen_y(k.y as int),
{
    lemma_refocus_axis(old.center_x as int, k.x as int, old.zoom as int, new.zoom as int);
    lemma_refocus_axis(old.center_y as int, k.y as int, old.zoom as int, new.zoom as int);
}

proof fn lemma_refocus_axis(c: int, k: int, z: int, z2: int)
    requires
        z2 > 0,
    ensures
        0 <= (k - c) * z - (k - Viewport::refocused(c, k, z, z2)) * z2 < z2,
        ((k - c) * z) % z2 == 0 ==> (k - Viewport::refocused(c, k, z, z2)) * z2 == (k - c) * z,
{
    let n = (k - c) * z;
    let q = n / z2;
    vstd::arithmetic::div_mod::lemma_fundamental_div_mod(n, z2);
    assert(k - Viewport::refocused(c, k, z, z2) == q);
    assert(0 <= n % z2 < z2);
    assert(q * z2 == z2 * q) by (nonlinear_arith);
}

/// An ordered set of layers with unique ids, an active layer and a viewport.
///
/// The viewport only pans and zooms: its transform is always a uniform
/// scale about the centre followed by a shift (see `transform`). A general
/// map (rotation, skew, unequal scale) is built with `Transform` by the
/// caller; the canvas does not hold one.
#[derive(Debug)]
pub struct Canvas {
    id: String,
    name: String,
    width: u32,
    height: u32,
    layers: Vec<Layer>,
    active_layer_id: Option<String>,
    viewport: Viewport,
}

impl Canvas {
    pub closed spec fn layers_view(&self) -> Seq<Layer> {
        self.layers@
    }

    pub closed spec fn active_view(&self) -> Option<Seq<char>> {
        match self.active_layer_id {
            Some(s) => Some(s@),
            None => None,
        }
    }

    pub closed spec fn viewport_view(&self) -> Viewport {
        self.viewport
    }

    pub closed spec fn id_view(&self) -> Seq<char> {
        self.id@
    }

    pub closed spec fn name_view(&self) -> Seq<char> {
        self.name@
    }

    pub closed spec fn size_view(&self) -> (u32, u32) {
        (self.width, self.height)
    }

    /// Some layer has this id.
    pub open spec fn has_layer(&self, id: Seq<char>) -> bool {
        exists|i: int| 0 <= i < self.layers_view().len() && (#[trigger] self.layers_view()[i]).id@ == id
    }

    /// The position of the layer with this id, if any.
    pub open spec fn index_of(&self, id: Seq<char>) -> Option<int> {
        if self.has_layer(id) {
            Some(choose|i: int| 0 <= i < self.layers_view().len() && (#[trigger] self.layers_view()[i]).id@ == id)
        } else {
            None
        }
    }

    /// Layer ids are unique, and an active id names a layer of the canvas.
    pub open spec fn wf(&self) -> bool {
        &&& forall|i: int, j: int|
            0 <= i < j < self.layers_view().len() ==> (#[trigger] self.layers_view()[i]).id@
                != (#[trigger] self.layers_view()[j]).id@
        &&& (self.active_view() matches Some(a) ==> self.has_layer(a))
    }

    /// The layer that receives new elements: the one with the active id, or
    /// the first layer when no id was set, or none on an empty canvas.
    pub open spec fn active_index(&self) -> Option<int> {
        match self.active_view() {
            Some(a) => self.index_of(a),
            None => if self.layers_view().len() > 0 {
                Some(0)
            } else {
                None
            },
        }
    }

    /// What a render pass draws of the first `n` layers, back to front.
    pub open spec fn drawn_upto(&self, n: nat) -> Seq<Seq<char>>
        decreases n,
    {
        if n == 0 {
            Seq::empty()
        } else {
            self.drawn_upto((n - 1) as nat) + self.layers_view()[n - 1].drawn()
        }
    }

    pub fn new(id: String, name: String, width: u32, height: u32) -> (r: Canvas)
        ensures
            r.wf(),
            r.id_view() == id@,
            r.name_view() == name@,
            r.size_view() == (width, height),
            r.layers_view().len() == 0,
            r.active_view() is None,
            r.viewport_view() == (Viewport { center_x: 0, center_y: 0, zoom: 1000 }),
    {
        Canvas {
            id,
            name,
            width,
            height,
            layers: Vec::new(),
            active_layer_id: None,
            viewport: Viewport::new(),
        }
    }

    pub fn id(&self) -> (r: &str)
        ensures
            r@ == self.id_view(),
    {
        self.id.as_str()
    }

    pub fn name(&self) -> (r: &str)
        ensures
            r@ == self.name_view(),
    {
        self.name.as_str()
    }

    pub fn set_name(&mut self, name: String)
        ensures
            final(self).name_view() == name@,
            final(self).id_view() == old(self).id_view(),
            final(self).size_view() == old(self).size_view(),
            final(self).layers_view() == old(self).layers_view(),
            final(self).active_view() == old(self).active_view(),
            final(self).viewport_view() == old(self).viewport_view(),
    {
        self.name = name;
    }

    pub fn width(&self) -> (r: u32)
        ensures
            r == self.size_view().0,
    {
        self.width
    }

    pub fn height(&self) -> (r: u32)
        ensures
            r == self.size_view().1,
    {
        self.height
    }

    /// The number of layers.
    pub fn layer_count(&self) -> (r: usize)
        ensures
            r == self.layers_view().len(),
    {
        self.layers.len()
    }

    /// Looks an id up in the id-to-position index.
    pub fn layer_index(&self, id: &str) -> (r: Option<usize>)
        requires
            self.wf(),
        ensures
            r matches Some(i) ==> self.index_of(id@) == Some(i as int),
            r is None ==> self.index_of(id@) is None,
    {
        let key = id.to_owned();
        let n = self.layers.len();
        let mut i: usize = 0;
        while i < n
            invariant
                n == self.layers@.len(),
                i <= n,
                key@ == id@,
                self.wf(),
                forall|j: int| 0 <= j < i ==> (#[trigger] self.layers@[j]).id@ != id@,
            decreases n - i,
        {
            if self.layers[i].id == key {
                proof {
                    lemma_index_of_unique(self, i as int);
                }
                return Some(i);
            }
            i = i + 1;
        }
        None
    }

    /// Adds a layer on top. Fails without change when its id is taken; the
    /// first layer added becomes the active one.
    pub fn add_layer(&mut self, layer: Layer) -> (r: Result<(), Error>)
        requires
            old(self).wf(),
        ensures
            final(self).wf(),
            final(self).viewport_view() == old(self).viewport_view(),
            old(self).has_layer(layer.id@) ==> (r matches Err(Error::DuplicateLayer(d)) && d@
                == layer.id@ && final(self).layers_view() == old(self).layers_view()
                && final(self).active_view() == old(self).active_view()),
            !old(self).has_layer(layer.id@) ==> (r is Ok && final(self).layers_view()
                == old(self).layers_view().push(layer) && final(self).active_view() == (if old(
                self,
            ).layers_view().len() == 0 {
                Some(layer.id@)
            } else {
                old(self).active_view()
            })),
    {
        if let Some(_) = self.layer_index(layer.id.as_str()) {
            return Err(Error::DuplicateLayer(layer.id.clone()));
        }
        let first = self.layers.len() == 0;
        let ghost old_layers = self.layers@;
        let new_id = layer.id.clone();
        self.layers.push(layer);
        proof {
            assert(self.layers@[old_layers.len() as int] == layer);
            assert forall|i: int| 0 <= i < old_layers.len() implies #[trigger] self.layers@[i]
                == old_layers[i] by {}
        }
        if first {
            self.active_layer_id = Some(new_id);
            proof {
                assert(self.layers_view()[0].id@ == new_id@);
            }
        }
        proof {
            if let Some(a) = self.active_view() {
                if !first {
                    let w = choose|i: int| 0 <= i < old_layers.len() && (#[trigger] old_layers[i]).id@ == a;
                    assert(self.layers_view()[w].id@ == a);
                }
            }
        }
        Ok(())
    }

    /// The layer with this id.
    pub fn get_layer(&self, id: &str) -> (r: Option<&Layer>)
        requires
            self.wf(),
        ensures
            match self.index_of(id@) {
                Some(i) => r == Some(&self.layers_view()[i]),
                None => r is None,
            },
    {
        match self.layer_index(id) {
            Some(i) => Some(&self.layers[i]),
            None => None,
        }
    }

    /// The layer that receives new elements.
    pub fn active_layer(&self) -> (r: Option<&Layer>)
        requires
            self.wf(),
        ensures
            match self.active_index() {
                Some(i) => r == Some(&self.layers_view()[i]),
                None => r is None,
            },
    {
        match &self.active_layer_id {
            Some(a) => self.get_layer(a.as_str()),
            None => if self.layers.len() > 0 {
                Some(&self.layers[0])
            } else {
                None
            },
        }
    }

    fn active_position(&self) -> (r: Option<usize>)
        requires
            self.wf(),
        ensures
            match self.active_index() {
                Some(i) => (r matches Some(p) && p as int == i) && 0 <= i < self.layers_view().len(),
                None => r is None,
            },
    {
        match &self.active_layer_id {
            Some(a) => {
                let r = self.layer_index(a.as_str());
                proof {
                    if self.has_layer(a@) {
                        let w = choose|j: int| 0 <= j < self.layers_view().len() && (#[trigger] self.layers_view()[j]).id@ == a@;
                        assert(0 <= w < self.layers_view().len());
                    }
                }
                r
            },
            None => if self.layers.len() > 0 {
                Some(0)
            } else {
                None
            },
        }
    }

    /// Makes the layer with this id the active one.
    pub fn set_active_layer(&mut self, id: &str) -> (r: Result<(), Error>)
        requires
            old(self).wf(),
        ensures
            final(self).wf(),
            final(self).layers_view() == old(self).layers_view(),
            final(self).viewport_view() == old(self).viewport_view(),
            old(self).has_layer(id@) ==> r is Ok && final(self).active_view() == Some(id@),
            !old(self).has_layer(id@) ==> (r matches Err(Error::LayerNotFound(n)) && n@ == id@
                && final(self).active_view() == old(self).active_view()),
    {
        match self.layer_index(id) {
            Some(i) => {
                assert(self.index_of(id@) == Some(i as int));
                assert(self.layers_view()[i as int].id@ == id@);
                let owned = id.to_owned();
                self.active_layer_id = Some(owned);
                assert(self.layers_view()[i as int].id@ == id@);
                assert(self.active_view() == Some(id@));
                assert(self.has_layer(id@));
                Ok(())
            },
            None => Err(Error::LayerNotFound(id.to_owned())),
        }
    }

    /// Takes out the layer with this id; the layers above it move down one
    /// place. Removing the active layer leaves no id set, so the first
    /// remaining layer becomes active.
    pub fn remove_layer(&mut self, id: &str) -> (r: Result<Layer, Error>)
        requires
            old(self).wf(),
        ensures
            final(self).wf(),
            final(self).viewport_view() == old(self).viewport_view(),
            match old(self).index_of(id@) {
                Some(i) => (r matches Ok(l) && l == old(self).layers_view()[i])
                    && final(self).layers_view() == old(self).layers_view().remove(i)
                    && final(self).active_view() == (if old(self).active_view() == Some(id@) {
                        None
                    } else {
                        old(self).active_view()
                    }),
                None => (r matches Err(Error::LayerNotFound(n)) && n@ == id@)
                    && final(self).layers_view() == old(self).layers_view()
                    && final(self).active_view() == old(self).active_view(),
            },
    {
        match self.layer_index(id) {
            Some(i) => {
                proof {
                    lemma_index_of_unique(self, i as int);
                }
                let ghost old_layers = self.layers@;
                let removed = self.layers.remove(i);
                let clear = match &self.active_layer_id {
                    Some(a) => a.as_str().to_owned() == id.to_owned(),
                    None => false,
                };
                if clear {
                    self.active_layer_id = None;
                }
                proof {
                    assert(self.layers@ == old_layers.remove(i as int));
                    assert forall|p: int, q: int|
                        0 <= p < q < self.layers_view().len() implies (#[trigger] self.layers_view()[p]).id@
                            != (#[trigger] self.layers_view()[q]).id@ by {
                        let p0 = if p < i { p } else { p + 1 };
                        let q0 = if q < i { q } else { q + 1 };
                        assert(old_layers[p0] == self.layers_view()[p]);
                        assert(old_layers[q0] == self.layers_view()[q]);
                    }
                    if let Some(a) = self.active_view() {
                        let w = choose|j: int| 0 <= j < old_layers.len() && (#[trigger] old_layers[j]).id@ == a;
                        assert(w != i);
                        let w2 = if w < i { w } else { w - 1 };
                        assert(self.layers_view()[w2] == old_layers[w]);
                    }
                }
                Ok(removed)
            },
            None => Err(Error::LayerNotFound(id.to_owned())),
        }
    }

    /// Shows or hides the layer with this id.
    pub fn set_layer_visible(&mut self, id: &str, visible: bool) -> (r: Result<(), Error>)
        requires
            old(self).wf(),
        ensures
            final(self).wf(),
            final(self).active_view() == old(self).active_view(),
            final(self).viewport_view() == old(self).viewport_view(),
            match old(self).index_of(id@) {
                Some(i) => r is Ok && final(self).layers_view() == old(self).layers_view().update(
                    i,
                    Layer { visible, ..old(self).layers_view()[i] },
                ),
                None => (r matches Err(Error::LayerNotFound(n)) && n@ == id@) && final(self).layers_view()
                    == old(self).layers_view(),
            },
    {
        match self.layer_index(id) {
            Some(i) => {
                proof {
                    lemma_index_of_unique(self, i as int);
                }
                let ghost before = *self;
                let mut layer = self.layers.remove(i);
                layer.set_visible(visible);
                self.layers.insert(i, layer);
                proof {
                    assert(self.layers@ =~= before.layers@.update(i as int, layer));
                    lemma_update_keeps_wf(&before, self, i as int);
                }
                Ok(())
            },
            None => Err(Error::LayerNotFound(id.to_owned())),
        }
    }

    /// Renames the layer with this id; its id stays.
    pub fn set_layer_name(&mut self, id: &str, name: String) -> (r: Result<(), Error>)
        requires
            old(self).wf(),
        ensures
            final(self).wf(),
            final(self).active_view() == old(self).active_view(),
            final(self).viewport_view() == old(self).viewport_view(),
            match old(self).index_of(id@) {
                Some(i) => r is Ok && final(self).layers_view() == old(self).layers_view().update(
                    i,
                    Layer { name, ..old(self).layers_view()[i] },
                ),
                None => (r matches Err(Error::LayerNotFound(n)) && n@ == id@) && final(self).layers_view()
                    == old(self).layers_view(),
            },
    {
        match self.layer_index(id) {
            Some(i) => {
                proof {
                    lemma_index_of_unique(self, i as int);
                }
                let ghost before = *self;
                let mut layer = self.layers.remove(i);
                layer.set_name(name);
                self.layers.insert(i, layer);
                proof {
                    assert(self.layers@ =~= before.layers@.update(i as int, layer));
                    lemma_update_keeps_wf(&before, self, i as int);
                }
                Ok(())
            },
            None => Err(Error::LayerNotFound(id.to_owned())),
        }
    }

    /// Locks or unlocks the layer with this id.
    pub fn set_layer_locked(&mut self, id: &str, locked: bool) -> (r: Result<(), Error>)
        requires
            old(self).wf(),
        ensures
            final(self).wf(),
            final(self).active_view() == old(self).active_view(),
            final(self).viewport_view() == old(self).viewport_view(),
            match old(self).index_of(id@) {
                Some(i) => r is Ok && final(self).layers_view() == old(self).layers_view().update(
                    i,
                    Layer { locked, ..old(self).layers_view()[i] },
                ),
                None => (r matches Err(Error::LayerNotFound(n)) && n@ == id@) && final(self).layers_view()
                    == old(self).layers_view(),
            },
    {
        match self.layer_index(id) {
            Some(i) => {
                proof {
                    lemma_index_of_unique(self, i as int);
                }
                let ghost before = *self;
                let mut layer = self.layers.remove(i);
                layer.set_locked(locked);
                self.layers.insert(i, layer);
                proof {
                    assert(self.layers@ =~= before.layers@.update(i as int, layer));
                    lemma_update_keeps_wf(&before, self, i as int);
                }
                Ok(())
            },
            None => Err(Error::LayerNotFound(id.to_owned())),
        }
    }

    /// Sets the opacity of the layer with this id, clamped to at most 1000 thousandths.
    pub fn set_layer_opacity(&mut self, id: &str, opacity: u32) -> (r: Result<(), Error>)
        requires
            old(self).wf(),
        ensures
            final(self).wf(),
            final(self).active_view() == old(self).active_view(),
            final(self).viewport_view() == old(self).viewport_view(),
            match old(self).index_of(id@) {
                Some(i) => r is Ok && final(self).layers_view() == old(self).layers_view().update(
                    i,
                    Layer { opacity: if opacity > 1000 { 1000 } else { opacity }, ..old(self).layers_view()[i] },
                ),
                None => (r matches Err(Error::LayerNotFound(n)) && n@ == id@) && final(self).layers_view()
                    == old(self).layers_view(),
            },
    {
        match self.layer_index(id) {
            Some(i) => {
                proof {
                    lemma_index_of_unique(self, i as int);
                }
                let ghost before = *self;
                let mut layer = self.layers.remove(i);
                layer.set_opacity(opacity);
                self.layers.insert(i, layer);
                proof {
                    assert(self.layers@ =~= before.layers@.update(i as int, layer));
                    lemma_update_keeps_wf(&before, self, i as int);
                }
                Ok(())
            },
            None => Err(Error::LayerNotFound(id.to_owned())),
        }
    }

    /// Takes out the element at `index` of the layer with this id: `Ok(None)`
    /// when the layer has no element there.
    pub fn remove_layer_element(&mut self, id: &str, index: usize) -> (r: Result<Option<CanvasElement>, Error>)
        requires
            old(self).wf(),
        ensures
            final(self).wf(),
            final(self).active_view() == old(self).active_view(),
            final(self).viewport_view() == old(self).viewport_view(),
            match old(self).index_of(id@) {
                Some(i) => {
                    let l = old(self).layers_view()[i];
                    if index < l.elements@.len() {
                        r == Ok::<Option<CanvasElement>, Error>(Some(l.elements@[index as int]))
                            && final(self).layers_view() == old(self).layers_view().update(
                            i,
                            Layer { elements: final(self).layers_view()[i].elements, ..l },
                        ) && final(self).layers_view()[i].elements@ == l.elements@.remove(index as int)
                    } else {
                        (r matches Ok(None)) && final(self).layers_view()[i].elements@ == l.elements@
                            && final(self).layers_view() == old(self).layers_view().update(
                            i,
                            Layer { elements: final(self).layers_view()[i].elements, ..l },
                        )
                    }
                },
                None => (r matches Err(Error::LayerNotFound(n)) && n@ == id@) && final(self).layers_view()
                    == old(self).layers_view(),
            },
    {
        match self.layer_index(id) {
            Some(i) => {
                proof {
                    lemma_index_of_unique(self, i as int);
                }
                let ghost before = *self;
                let mut layer = self.layers.remove(i);
                let out = layer.remove_element(index);
                self.layers.insert(i, layer);
                proof {
                    assert(self.layers@ =~= before.layers@.update(i as int, layer));
                    lemma_update_keeps_wf(&before, self, i as int);
                }
                Ok(out)
            },
            None => Err(Error::LayerNotFound(id.to_owned())),
        }
    }

    /// Appends an element to the active layer.
    pub fn add_element(&mut self, element: CanvasElement) -> (r: Result<(), Error>)
        requires
            old(self).wf(),
        ensures
            final(self).wf(),
            final(self).active_view() == old(self).active_view(),
            final(self).viewport_view() == old(self).viewport_view(),
            match old(self).active_index() {
                Some(i) => r is Ok && final(self).layers_view().len() == old(self).layers_view().len()
                    && (forall|j: int| 0 <= j < old(self).layers_view().len() && j != i
                        ==> #[trigger] final(self).layers_view()[j] == old(self).layers_view()[j])
                    && final(self).layers_view()[i].elements@ == old(self).layers_view()[i].elements@.push(element)
                    && final(self).layers_view()[i].id == old(self).layers_view()[i].id
                    && final(self).layers_view()[i].visible == old(self).layers_view()[i].visible,
                None => (r matches Err(Error::NoActiveLayer)) && final(self).layers_view() == old(self).layers_view(),
            },
    {
        let pos = self.active_position();
        match pos {
            Some(i) => {
                assert(old(self).active_index() == Some(i as int));
                let ghost old_layers = self.layers@;
                let mut layer = self.layers.remove(i);
                layer.add_element(element);
                self.layers.insert(i, layer);
                proof {
                    assert(self.layers@ == old_layers.remove(i as int).insert(i as int, layer));
                    assert(self.layers@.len() == old_layers.len());
                    assert(self.layers@[i as int] == layer);
                    assert forall|j: int| 0 <= j < old_layers.len() && j != i implies #[trigger] self.layers@[j] == old_layers[j] by {
                        if j < i {
                        } else {
                        }
                    }
                    assert forall|p: int, q: int|
                        0 <= p < q < self.layers_view().len() implies (#[trigger] self.layers_view()[p]).id@
                            != (#[trigger] self.layers_view()[q]).id@ by {
                        assert(self.layers_view()[p].id == old_layers[p].id);
                        assert(self.layers_view()[q].id == old_layers[q].id);
                    }
                    if let Some(a) = self.active_view() {
                        let w = choose|j: int| 0 <= j < old_layers.len() && (#[trigger] old_layers[j]).id@ == a;
                        assert(self.layers_view()[w].id == old_layers[w].id);
                    }
                }
                Ok(())
            },
            None => Err(Error::NoActiveLayer),
        }
    }

    /// Reports every element of every visible layer, layers in order and each
    /// layer's elements in order, so that later ones paint over earlier ones.
    pub fn render(&self, context: &mut RenderContext)
        ensures
            final(context).ids() == old(context).ids() + self.drawn_upto(self.layers_view().len()),
    {
        let n = self.layers.len();
        let mut i: usize = 0;
        while i < n
            invariant
                n == self.layers@.len(),
                i <= n,
                context.ids() == old(context).ids() + self.drawn_upto(i as nat),
            decreases n - i,
        {
            self.layers[i].render(context);
            proof {
                assert(context.ids() =~= old(context).ids() + self.drawn_upto((i + 1) as nat));
            }
            i = i + 1;
        }
    }

    /// The viewport's map from scene to screen coordinates.
    pub fn transform(&self) -> (r: Transform)
        requires
            self.viewport_view().wf(),
        ensures
            r == (Transform {
                a: self.viewport_view().zoom as i128,
                b: 0,
                c: 0,
                d: self.viewport_view().zoom as i128,
                e: (-(self.viewport_view().center_x * self.viewport_view().zoom)) as i128,
                f: (-(self.viewport_view().center_y * self.viewport_view().zoom)) as i128,
                s: UNIT as i128,
            }),
    {
        self.viewport.transform()
    }

    pub fn viewport(&self) -> (r: Viewport)
        ensures
            r == self.viewport_view(),
    {
        self.viewport
    }

    /// Zooms the viewport (see `Viewport::zoom`); the returned notification is
    /// for observers, to be sent once the change is complete.
    pub fn zoom(&mut self, factor: u32, focus: Option<Point>) -> (r: CanvasViewChangeEvent)
        requires
            old(self).viewport_view().wf(),
            focus matches Some(k) ==> k.wf(),
        ensures
            old(self).wf() ==> final(self).wf(),
            final(self).layers_view() == old(self).layers_view(),
            final(self).active_view() == old(self).active_view(),
            final(self).viewport_view().zoom == old(self).viewport_view().zoomed(factor as int),
            match focus {
                Some(k) => final(self).viewport_view().center_x == Viewport::refocused(
                    old(self).viewport_view().center_x as int,
                    k.x as int,
                    old(self).viewport_view().zoom as int,
                    final(self).viewport_view().zoom as int,
                ) && final(self).viewport_view().center_y == Viewport::refocused(
                    old(self).viewport_view().center_y as int,
                    k.y as int,
                    old(self).viewport_view().zoom as int,
                    final(self).viewport_view().zoom as int,
                ),
                None => final(self).viewport_view().center_x == old(self).viewport_view().center_x
                    && final(self).viewport_view().center_y == old(self).viewport_view().center_y,
            },
            r == (CanvasViewChangeEvent {
                x: final(self).viewport_view().center_x,
                y: final(self).viewport_view().center_y,
                scale: final(self).viewport_view().zoom,
            }),
    {
        let r = self.viewport.zoom(factor, focus);
        proof {
            if old(self).wf() {
                assert(self.layers_view() == old(self).layers_view());
                assert forall|i: int, j: int|
                    0 <= i < j < self.layers_view().len() implies (#[trigger] self.layers_view()[i]).id@
                        != (#[trigger] self.layers_view()[j]).id@ by {
                    assert(old(self).layers_view()[i].id@ != old(self).layers_view()[j].id@);
                }
                if let Some(a) = self.active_view() {
                    let w = choose|j: int| 0 <= j < old(self).layers_view().len() && (#[trigger] old(self).layers_view()[j]).id@ == a;
                    assert(self.layers_view()[w].id@ == a);
                }
            }
        }
        r
    }

    /// Moves the viewport centre by `(dx, dy)`; the returned notification is
    /// for observers, to be sent once the change is complete.
    pub fn pan(&mut self, dx: i64, dy: i64) -> (r: CanvasViewChangeEvent)
        requires
            -CENTER_LIMIT <= old(self).viewport_view().center_x + dx <= CENTER_LIMIT,
            -CENTER_LIMIT <= old(self).viewport_view().center_y + dy <= CENTER_LIMIT,
        ensures
            old(self).wf() ==> final(self).wf(),
            final(self).layers_view() == old(self).layers_view(),
            final(self).active_view() == old(self).active_view(),
            final(self).viewport_view() == (Viewport {
                center_x: (old(self).viewport_view().center_x + dx) as i64,
                center_y: (old(self).viewport_view().center_y + dy) as i64,
                zoom: old(self).viewport_view().zoom,
            }),
            r == (CanvasViewChangeEvent {
                x: final(self).viewport_view().center_x,
                y: final(self).viewport_view().center_y,
                scale: final(self).viewport_view().zoom,
            }),
    {
        let r = self.viewport.pan(dx, dy);
        proof {
            if old(self).wf() {
                assert(self.layers_view() == old(self).layers_view());
                assert forall|i: int, j: int|
                    0 <= i < j < self.layers_view().len() implies (#[trigger] self.layers_view()[i]).id@
                        != (#[trigger] self.layers_view()[j]).id@ by {
                    assert(old(self).layers_view()[i].id@ != old(self).layers_view()[j].id@);
                }
                if let Some(a) = self.active_view() {
                    let w = choose|j: int| 0 <= j < old(self).layers_view().len() && (#[trigger] old(self).layers_view()[j]).id@ == a;
                    assert(self.layers_view()[w].id@ == a);
                }
            }
        }
        r
    }
}

proof fn lemma_index_of_unique(c: &Canvas, i: int)
    requires
        c.wf(),
        0 <= i < c.layers_view().len(),
    ensures
        c.index_of(c.layers_view()[i].id@) == Some(i),
{
    let id = c.layers_view()[i].id@;
    assert(c.has_layer(id));
    let w = choose|j: int| 0 <= j < c.layers_view().len() && (#[trigger] c.layers_view()[j]).id@ == id;
    if w < i {
        assert(c.layers_view()[w].id@ != c.layers_view()[i].id@);
    } else if w > i {
        assert(c.layers_view()[i].id@ != c.layers_view()[w].id@);
    }
}

proof fn lemma_update_keeps_wf(before: &Canvas, after: &Canvas, i: int)
    requires
        before.wf(),
        0 <= i < before.layers_view().len(),
        after.layers_view() == before.layers_view().update(i, after.layers_view()[i]),
        after.layers_view()[i].id == before.layers_view()[i].id,
        after.active_view() == before.active_view(),
    ensures
        after.wf(),
{
    assert forall|p: int, q: int|
        0 <= p < q < after.layers_view().len() implies (#[trigger] after.layers_view()[p]).id@
            != (#[trigger] after.layers_view()[q]).id@ by {
        assert(after.layers_view()[p].id == before.layers_view()[p].id);
        assert(after.layers_view()[q].id == before.layers_view()[q].id);
    }
    if let Some(a) = after.active_view() {
        let w = choose|j: int| 0 <= j < before.layers_view().len() && (#[trigger] before.layers_view()[j]).id@ == a;
        assert(after.layers_view()[w].id == before.layers_view()[w].id);
    }
}

/// On a well-formed canvas the id-to-position index is exact: every layer's
/// id leads to that layer's own position, and the positions run from zero
/// without gaps. Adding and removing layers keep the canvas well formed.
pub proof fn lemma_index_contiguous(c: &Canvas)
    requires
        c.wf(),
    ensures
        forall|i: int| 0 <= i < c.layers_view().len() ==> c.index_of(#[trigger] c.layers_view()[i].id@) == Some(i),
        forall|id: Seq<char>| #[trigger] c.index_of(id) matches Some(i) ==> 0 <= i < c.layers_view().len(),
{
    assert forall|i: int| 0 <= i < c.layers_view().len() implies c.index_of(#[trigger] c.layers_view()[i].id@) == Some(i) by {
        lemma_index_of_unique(c, i);
    }
}

} // verus!
