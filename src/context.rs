use vstd::prelude::*;
use crate::fixed::{in_fixed_range, FIXED_ONE};
use crate::geometry::{BoundingBox, Matrix, Rectangle};
use crate::length::{DrawingParams, RsvgLength};
use crate::rect::IRect;
use crate::surface::{ImageSurface, SurfaceView, MAX_DIMENSION};

verus! {

/// How the coordinates of a filter region or a primitive subregion are interpreted.
#[derive(Debug, Clone, Copy, PartialEq, Eq, Structural)]
pub enum CoordUnits {
    /// In the user space of the element the filter applies to.
    UserSpaceOnUse,
    /// As fractions of the bounding box of that element.
    ObjectBoundingBox,
}

/// The declared geometry of a filter element.
#[derive(Debug, Clone, Copy, PartialEq, Eq, Structural)]
pub struct FilterNode {
    pub x: RsvgLength,
    pub y: RsvgLength,
    pub width: RsvgLength,
    pub height: RsvgLength,
    pub filterunits: CoordUnits,
    pub primitiveunits: CoordUnits,
}

impl FilterNode {
    pub open spec fn wf(self) -> bool {
        self.x.wf() && self.y.wf() && self.width.wf() && self.height.wf()
    }
}

/// A filter primitive output.
pub struct FilterOutput {
    /// The surface after the filter primitive was applied.
    pub surface: ImageSurface,
    /// The filter primitive subregion.
    pub bounds: IRect,
}

/// What a filter primitive output is.
pub struct OutputView {
    pub surface: SurfaceView,
    pub bounds: IRect,
}

impl View for FilterOutput {
    type V = OutputView;

    open spec fn view(&self) -> OutputView {
        OutputView { surface: self.surface@, bounds: self.bounds }
    }
}

impl FilterOutput {
    /// A copy of this output.
    pub fn duplicate(&self) -> (r: FilterOutput)
        ensures
            r@ == self@,
    {
        FilterOutput { surface: self.surface.duplicate(), bounds: self.bounds }
    }

    /// The surface is well formed, of the given size, and the bounds lie within it.
    pub open spec fn fits(&self, width: int, height: int) -> bool {
        view_fits(self@, width, height)
    }
}

/// The surface is a well-formed image of the given size, and the bounds lie within it.
pub open spec fn view_fits(v: OutputView, width: int, height: int) -> bool {
    &&& 0 <= width <= MAX_DIMENSION
    &&& 0 <= height <= MAX_DIMENSION
    &&& v.surface.width == width
    &&& v.surface.height == height
    &&& v.surface.pixels.len() == width * height
    &&& v.bounds.within(width, height)
}

/// A filter primitive result.
pub struct FilterResult {
    /// The name of this result: the value of the `result` attribute.
    pub name: Option<String>,
    /// The output.
    pub output: FilterOutput,
}

/// A reference to the input of a filter primitive.
pub enum Input {
    SourceGraphic,
    SourceAlpha,
    BackgroundImage,
    BackgroundAlpha,
    FillPaint,
    StrokePaint,
    FilterOutput(String),
}

/// The output stored last under `name` among `entries`, if any.
pub open spec fn lookup(entries: Seq<(Seq<char>, OutputView)>, name: Seq<char>) -> Option<
    OutputView,
>
    decreases entries.len(),
{
    if entries.len() == 0 {
        None
    } else if entries.last().0 == name {
        Some(entries.last().1)
    } else {
        lookup(entries.drop_last(), name)
    }
}

proof fn lemma_lookup_member(
    entries: Seq<(Seq<char>, OutputView)>,
    name: Seq<char>,
    width: int,
    height: int,
)
    requires
        forall|i: int| 0 <= i < entries.len() ==> view_fits(#[trigger] entries[i].1, width, height),
    ensures
        lookup(entries, name) matches Some(v) ==> view_fits(v, width, height),
    decreases entries.len(),
{
    if entries.len() > 0 && entries.last().0 != name {
        let rest = entries.drop_last();
        assert forall|i: int| 0 <= i < rest.len() implies view_fits(
            #[trigger] rest[i].1,
            width,
            height,
        ) by {
            assert(rest[i] == entries[i]);
        }
        lemma_lookup_member(rest, name, width, height);
    }
}

/// A name is visible only once a result has been stored under it: among results none of which
/// carries the name, looking it up finds nothing; once an output is stored under it, looking it
/// up finds that output.
pub proof fn lemma_named_result_visibility(
    entries: Seq<(Seq<char>, OutputView)>,
    name: Seq<char>,
    output: OutputView,
)
    requires
        forall|i: int| 0 <= i < entries.len() ==> (#[trigger] entries[i]).0 != name,
    ensures
        lookup(entries, name) == None::<OutputView>,
        lookup(entries.push((name, output)), name) == Some(output),
    decreases entries.len(),
{
    assert(entries.push((name, output)).drop_last() =~= entries);
    if entries.len() > 0 {
        let rest = entries.drop_last();
        assert(entries.last() == entries[entries.len() - 1]);
        assert forall|i: int| 0 <= i < rest.len() implies (#[trigger] rest[i]).0 != name by {
            assert(rest[i] == entries[i]);
        }
        lemma_named_result_visibility(rest, name, output);
    }
}

/// A stored output stays visible under its name while later results are stored under other
/// names (or under none, which adds no entry).
pub proof fn lemma_named_result_survives(
    entries: Seq<(Seq<char>, OutputView)>,
    name: Seq<char>,
    output: OutputView,
    later: Seq<(Seq<char>, OutputView)>,
)
    requires
        forall|i: int| 0 <= i < later.len() ==> (#[trigger] later[i]).0 != name,
    ensures
        lookup(entries.push((name, output)) + later, name) == Some(output),
    decreases later.len(),
{
    let all = entries.push((name, output)) + later;
    if later.len() == 0 {
        assert(all =~= entries.push((name, output)));
    } else {
        let rest = later.drop_last();
        assert(all.last() == later[later.len() - 1]);
        assert(all.drop_last() =~= entries.push((name, output)) + rest);
        assert forall|i: int| 0 <= i < rest.len() implies (#[trigger] rest[i]).0 != name by {
            assert(rest[i] == later[i]);
        }
        lemma_named_result_survives(entries, name, output, rest);
    }
}

/// The parameters of length resolution for a coordinate mode: relative to the object
/// bounding box, the viewport is the unit square.
pub open spec fn params_for(units: CoordUnits, params: DrawingParams) -> DrawingParams {
    match units {
        CoordUnits::UserSpaceOnUse => params,
        CoordUnits::ObjectBoundingBox => DrawingParams {
            vbox_width: FIXED_ONE,
            vbox_height: FIXED_ONE,
            ..params
        },
    }
}

fn params_for_exec(units: CoordUnits, params: &DrawingParams) -> (r: DrawingParams)
    ensures
        r == params_for(units, *params),
{
    match units {
        CoordUnits::UserSpaceOnUse => *params,
        CoordUnits::ObjectBoundingBox => DrawingParams {
            vbox_width: FIXED_ONE,
            vbox_height: FIXED_ONE,
            ..*params
        },
    }
}

/// The transform of a coordinate mode: relative to the object bounding box, the unit square
/// is first mapped onto the box.
pub open spec fn transform_for(units: CoordUnits, current: Matrix, bbox: Rectangle) -> Matrix {
    match units {
        CoordUnits::UserSpaceOnUse => current,
        CoordUnits::ObjectBoundingBox => Matrix::spec_multiply(
            Matrix {
                xx: bbox.width,
                yx: 0,
                xy: 0,
                yy: bbox.height,
                x0: bbox.x,
                y0: bbox.y,
            },
            current,
        ),
    }
}

fn transform_for_exec(units: CoordUnits, current: &Matrix, bbox: &Rectangle) -> (r: Matrix)
    requires
        current.wf(),
        bbox.wf(),
    ensures
        r == transform_for(units, *current, *bbox),
        r.wf(),
{
    match units {
        CoordUnits::UserSpaceOnUse => *current,
        CoordUnits::ObjectBoundingBox => {
            let m = Matrix {
                xx: bbox.width,
                yx: 0,
                xy: 0,
                yy: bbox.height,
                x0: bbox.x,
                y0: bbox.y,
            };
            Matrix::multiply(&m, current)
        },
    }
}

pub open spec fn opt_length_wf(l: Option<RsvgLength>) -> bool {
    l matches Some(v) ==> v.wf()
}

/// The filter rendering context.
pub struct FilterContext {
    /// The geometry of the filter element.
    node: FilterNode,
    /// The source graphic surface.
    source_surface: ImageSurface,
    /// Output of the last filter primitive.
    last_result: FilterOutput,
    /// Outputs of the previous filter primitives, with their names, oldest first.
    previous_results: Vec<(String, FilterOutput)>,
    /// The transform of the filter region.
    affine: Matrix,
    /// The transform of primitive subregions.
    paffine: Matrix,
    /// What length resolution needs to know of the drawing.
    params: DrawingParams,
}

impl FilterContext {
    pub closed spec fn spec_node(&self) -> FilterNode {
        self.node
    }

    pub closed spec fn spec_params(&self) -> DrawingParams {
        self.params
    }

    pub closed spec fn spec_affine(&self) -> Matrix {
        self.affine
    }

    pub closed spec fn spec_paffine(&self) -> Matrix {
        self.paffine
    }

    /// The source image.
    pub closed spec fn source(&self) -> SurfaceView {
        self.source_surface@
    }

    pub open spec fn source_width(&self) -> int {
        self.source().width
    }

    pub open spec fn source_height(&self) -> int {
        self.source().height
    }

    /// The output that a primitive without an explicit input receives.
    pub closed spec fn spec_last_result(&self) -> OutputView {
        self.last_result@
    }

    /// The stored named results, as name and output, oldest first.
    pub closed spec fn entries(&self) -> Seq<(Seq<char>, OutputView)> {
        self.previous_results@.map_values(|e: (String, FilterOutput)| (e.0@, e.1@))
    }

    /// The output most recently stored under `name`.
    pub open spec fn named_result(&self, name: Seq<char>) -> Option<OutputView> {
        lookup(self.entries(), name)
    }

    pub closed spec fn wf(&self) -> bool {
        &&& self.node.wf()
        &&& self.params.wf()
        &&& self.affine.wf()
        &&& self.paffine.wf()
        &&& self.source_surface.wf()
        &&& self.last_result.fits(
            self.source_surface.spec_width(),
            self.source_surface.spec_height(),
        )
        &&& forall|i: int|
            0 <= i < self.previous_results@.len() ==> (#[trigger] self.previous_results@[i]).1.fits(
                self.source_surface.spec_width(),
                self.source_surface.spec_height(),
            )
    }

    /// The filter region in user units.
    pub open spec fn spec_filter_rect(&self) -> Rectangle {
        let node = self.spec_node();
        let p = params_for(node.filterunits, self.spec_params());
        Rectangle {
            x: node.x.spec_normalize(p) as i64,
            y: node.y.spec_normalize(p) as i64,
            width: node.width.spec_normalize(p) as i64,
            height: node.height.spec_normalize(p) as i64,
        }
    }

    /// The subregion that a primitive declares, in user units: a missing coordinate is zero and
    /// a missing size is the viewport's, in the primitive's coordinate mode. It applies only when
    /// the primitive declares at least one of the four.
    pub open spec fn spec_primitive_rect(
        &self,
        x: Option<RsvgLength>,
        y: Option<RsvgLength>,
        width: Option<RsvgLength>,
        height: Option<RsvgLength>,
    ) -> Rectangle {
        let p = params_for(self.spec_node().primitiveunits, self.spec_params());
        Rectangle {
            x: match x {
                Some(l) => l.spec_normalize(p) as i64,
                None => 0,
            },
            y: match y {
                Some(l) => l.spec_normalize(p) as i64,
                None => 0,
            },
            width: match width {
                Some(l) => l.spec_normalize(p) as i64,
                None => p.vbox_width,
            },
            height: match height {
                Some(l) => l.spec_normalize(p) as i64,
                None => p.vbox_height,
            },
        }
    }

    /// The whole source surface, in fixed-point device units.
    pub open spec fn spec_surface_box(&self) -> BoundingBox {
        BoundingBox {
            x0: 0,
            y0: 0,
            x1: (self.source_width() * FIXED_ONE) as i64,
            y1: (self.source_height() * FIXED_ONE) as i64,
        }
    }

    /// The pixels of a primitive subregion: the filter region, clipped by the declared
    /// subregion when the primitive declares any part of it, clipped by the source surface, and
    /// rounded outward to whole pixels.
    pub open spec fn spec_compute_bounds(
        &self,
        x: Option<RsvgLength>,
        y: Option<RsvgLength>,
        width: Option<RsvgLength>,
        height: Option<RsvgLength>,
    ) -> IRect {
        let region = BoundingBox::spec_from_rect(self.spec_affine(), self.spec_filter_rect());
        let declared = x.is_some() || y.is_some() || width.is_some() || height.is_some();
        let clipped = if declared {
            region.spec_clip(
                BoundingBox::spec_from_rect(
                    self.spec_paffine(),
                    self.spec_primitive_rect(x, y, width, height),
                ),
            )
        } else {
            region
        };
        clipped.spec_clip(self.spec_surface_box()).spec_to_irect()
    }

    /// Creates the context for one application of a filter element to `source_surface`;
    /// `current` is the transform in effect and `bbox` the bounding box of the element the
    /// filter applies to. The last result starts as the source with the filter region's bounds.
    pub fn new(
        filter_node: &FilterNode,
        source_surface: ImageSurface,
        current: &Matrix,
        bbox: &Rectangle,
        params: &DrawingParams,
    ) -> (r: FilterContext)
        requires
            filter_node.wf(),
            source_surface.wf(),
            current.wf(),
            bbox.wf(),
            params.wf(),
        ensures
            r.wf(),
            r.spec_node() == *filter_node,
            r.spec_params() == *params,
            r.source() == source_surface@,
            r.spec_affine() == transform_for(filter_node.filterunits, *current, *bbox),
            r.spec_paffine() == transform_for(filter_node.primitiveunits, *current, *bbox),
            r.spec_last_result() == (OutputView {
                surface: source_surface@,
                bounds: r.spec_compute_bounds(None, None, None, None),
            }),
            r.entries() == Seq::<(Seq<char>, OutputView)>::empty(),
            forall|name: Seq<char>| #[trigger] r.named_result(name) == None::<OutputView>,
    {
        let affine = transform_for_exec(filter_node.filterunits, current, bbox);
        let paffine = transform_for_exec(filter_node.primitiveunits, current, bbox);
        let seed = source_surface.duplicate();
        let mut rv = FilterContext {
            node: *filter_node,
            source_surface,
            last_result: FilterOutput { surface: seed, bounds: IRect { x0: 0, y0: 0, x1: 0, y1: 0 } },
            previous_results: Vec::new(),
            affine,
            paffine,
            params: *params,
        };
        let bounds = rv.compute_bounds(None, None, None, None);
        rv.last_result.bounds = bounds;
        proof {
            assert(rv.entries() =~= Seq::<(Seq<char>, OutputView)>::empty());
        }
        rv
    }

    /// The geometry of the filter element.
    pub fn get_filter_node(&self) -> (r: FilterNode)
        ensures
            r == self.spec_node(),
    {
        self.node
    }

    /// The source image.
    pub fn source_graphic(&self) -> (r: &ImageSurface)
        ensures
            r@ == self.source(),
    {
        &self.source_surface
    }

    /// The output of the last filter primitive, or the source image when there was none.
    pub fn last_result(&self) -> (r: &FilterOutput)
        ensures
            r@ == self.spec_last_result(),
    {
        &self.last_result
    }

    pub proof fn lemma_source_wf(&self)
        requires
            self.wf(),
        ensures
            0 <= self.source_width() <= MAX_DIMENSION,
            0 <= self.source_height() <= MAX_DIMENSION,
    {
    }

    /// The filter region and a declared subregion are well-formed boxes.
    pub proof fn lemma_boxes_wf(
        &self,
        x: Option<RsvgLength>,
        y: Option<RsvgLength>,
        width: Option<RsvgLength>,
        height: Option<RsvgLength>,
    )
        requires
            self.wf(),
            opt_length_wf(x),
            opt_length_wf(y),
            opt_length_wf(width),
            opt_length_wf(height),
        ensures
            BoundingBox::spec_from_rect(self.spec_affine(), self.spec_filter_rect()).wf(),
            BoundingBox::spec_from_rect(
                self.spec_paffine(),
                self.spec_primitive_rect(x, y, width, height),
            ).wf(),
            BoundingBox::spec_from_rect(self.spec_affine(), self.spec_filter_rect()).spec_clip(
                BoundingBox::spec_from_rect(
                    self.spec_paffine(),
                    self.spec_primitive_rect(x, y, width, height),
                ),
            ).wf(),
    {
        let node = self.spec_node();
        let fp = params_for(node.filterunits, self.spec_params());
        let pp = params_for(node.primitiveunits, self.spec_params());
        node.x.lemma_normalize_range(fp);
        node.y.lemma_normalize_range(fp);
        node.width.lemma_normalize_range(fp);
        node.height.lemma_normalize_range(fp);
        if let Some(l) = x {
            l.lemma_normalize_range(pp);
        }
        if let Some(l) = y {
            l.lemma_normalize_range(pp);
        }
        if let Some(l) = width {
            l.lemma_normalize_range(pp);
        }
        if let Some(l) = height {
            l.lemma_normalize_range(pp);
        }
        let fr = self.spec_filter_rect();
        let pr = self.spec_primitive_rect(x, y, width, height);
        assert(fr.wf());
        assert(pr.wf());
        BoundingBox::lemma_from_rect_wf(self.spec_affine(), fr);
        BoundingBox::lemma_from_rect_wf(self.spec_paffine(), pr);
        BoundingBox::lemma_clip_wf(
            BoundingBox::spec_from_rect(self.spec_affine(), fr),
            BoundingBox::spec_from_rect(self.spec_paffine(), pr),
        );
    }

    /// The transform of primitive subregions.
    pub fn paffine(&self) -> (r: Matrix)
        ensures
            r == self.spec_paffine(),
    {
        self.paffine
    }

    /// The output most recently stored under `name`.
    pub fn filter_output(&self, name: &str) -> (r: Option<&FilterOutput>)
        ensures
            match self.named_result(name@) {
                None => r.is_none(),
                Some(v) => r matches Some(o) && o@ == v,
            },
    {
        let key = name.to_owned();
        let mut i = self.previous_results.len();
        assert(self.entries().take(i as int) =~= self.entries());
        while i > 0
            invariant
                i <= self.previous_results@.len(),
                key@ == name@,
                lookup(self.entries(), name@) == lookup(self.entries().take(i as int), name@),
            decreases i,
        {
            let ghost es = self.entries().take(i as int);
            assert(es.drop_last() =~= self.entries().take(i - 1));
            if self.previous_results[i - 1].0 == key {
                return Some(&self.previous_results[i - 1].1);
            }
            i = i - 1;
        }
        None
    }

    /// Converts this context into the image that the filter chain produced.
    pub fn into_output(self) -> (r: ImageSurface)
        ensures
            r@ == self.spec_last_result().surface,
    {
        self.last_result.surface
    }

    /// Stores a filter primitive result: it becomes the last result and, when it has a name,
    /// the output stored under that name.
    pub fn store_result(&mut self, result: FilterResult)
        requires
            old(self).wf(),
            result.output.fits(old(self).source_width(), old(self).source_height()),
        ensures
            final(self).wf(),
            final(self).spec_node() == old(self).spec_node(),
            final(self).spec_params() == old(self).spec_params(),
            final(self).spec_affine() == old(self).spec_affine(),
            final(self).spec_paffine() == old(self).spec_paffine(),
            final(self).source() == old(self).source(),
            final(self).spec_last_result() == result.output@,
            final(self).entries() == match result.name {
                Some(n) => old(self).entries().push((n@, result.output@)),
                None => old(self).entries(),
            },
            forall|name: Seq<char>| #[trigger]
                final(self).named_result(name) == match result.name {
                    Some(n) => if n@ == name {
                        Some(result.output@)
                    } else {
                        old(self).named_result(name)
                    },
                    None => old(self).named_result(name),
                },
    {
        let ghost old_entries = self.entries();
        match result.name {
            Some(name) => {
                let copy = result.output.duplicate();
                self.previous_results.push((name, copy));
                proof {
                    assert(self.entries().drop_last() =~= old_entries);
                    assert(self.entries() =~= old_entries.push((name@, result.output@)));
                }
            },
            None => {
                assert(self.entries() =~= old_entries);
            },
        }
        self.last_result = result.output;
    }

    /// What an input reference resolves to: no reference means the last result, the source
    /// graphic is the source image with the bounds of the filter region, and a name is the output last stored
    /// under it. Nothing for a name with no output yet, nor for a reference this context
    /// cannot provide.
    pub open spec fn spec_input(&self, in_: Option<&Input>) -> Option<OutputView> {
        match in_ {
            None => Some(self.spec_last_result()),
            Some(Input::SourceGraphic) => Some(
                OutputView {
                    surface: self.source(),
                    bounds: self.spec_compute_bounds(None, None, None, None),
                },
            ),
            Some(Input::FilterOutput(name)) => self.named_result(name@),
            Some(_) => None,
        }
    }

    /// Resolves the input of a filter primitive: no reference means the last result, the
    /// source graphic is the source image, and a name is the output last stored under it.
    /// `None` when a name has no output yet, or for a reference this context cannot provide.
    pub fn get_input(&self, in_: Option<&Input>) -> (r: Option<FilterOutput>)
        requires
            self.wf(),
        ensures
            match self.spec_input(in_) {
                None => r.is_none(),
                Some(v) => r matches Some(o) && o@ == v,
            },
            r matches Some(o) ==> o.fits(self.source_width(), self.source_height()),
    {
        match in_ {
            None => Some(self.last_result.duplicate()),
            Some(Input::SourceGraphic) => Some(
                FilterOutput {
                    surface: self.source_surface.duplicate(),
                    bounds: self.compute_bounds(None, None, None, None),
                },
            ),
            Some(Input::FilterOutput(name)) => {
                proof {
                    self.lemma_named_fits(name@);
                }
                match self.filter_output(name.as_str()) {
                    Some(o) => Some(o.duplicate()),
                    None => None,
                }
            },
            Some(_) => None,
        }
    }

    proof fn lemma_named_fits(&self, name: Seq<char>)
        requires
            self.wf(),
        ensures
            self.named_result(name) matches Some(v) ==> view_fits(
                v,
                self.source_width(),
                self.source_height(),
            ),
    {
        let es = self.entries();
        assert forall|i: int| 0 <= i < es.len() implies view_fits(
            #[trigger] es[i].1,
            self.source_width(),
            self.source_height(),
        ) by {
            assert(self.previous_results@[i].1.fits(
                self.source_surface.spec_width(),
                self.source_surface.spec_height(),
            ));
        }
        lemma_lookup_member(es, name, self.source_width(), self.source_height());
    }

    /// The pixels of a primitive subregion; see `spec_compute_bounds`.
    pub fn compute_bounds(
        &self,
        x: Option<RsvgLength>,
        y: Option<RsvgLength>,
        width: Option<RsvgLength>,
        height: Option<RsvgLength>,
    ) -> (r: IRect)
        requires
            self.wf(),
            opt_length_wf(x),
            opt_length_wf(y),
            opt_length_wf(width),
            opt_length_wf(height),
        ensures
            r == self.spec_compute_bounds(x, y, width, height),
            r.within(self.source_width(), self.source_height()),
    {
        let fp = params_for_exec(self.node.filterunits, &self.params);
        let rect = Rectangle {
            x: self.node.x.normalize(&fp),
            y: self.node.y.normalize(&fp),
            width: self.node.width.normalize(&fp),
            height: self.node.height.normalize(&fp),
        };
        let mut bbox = BoundingBox::from_rect(&self.affine, &rect);
        if x.is_some() || y.is_some() || width.is_some() || height.is_some() {
            let pp = params_for_exec(self.node.primitiveunits, &self.params);
            let px = match x {
                Some(l) => l.normalize(&pp),
                None => 0,
            };
            let py = match y {
                Some(l) => l.normalize(&pp),
                None => 0,
            };
            let pw = match width {
                Some(l) => l.normalize(&pp),
                None => pp.vbox_width,
            };
            let ph = match height {
                Some(l) => l.normalize(&pp),
                None => pp.vbox_height,
            };
            let prect = Rectangle { x: px, y: py, width: pw, height: ph };
            let other = BoundingBox::from_rect(&self.paffine, &prect);
            bbox = bbox.clip(&other);
        }
        let w = self.source_surface.width() as i64;
        let h = self.source_surface.height() as i64;
        let surface_box = BoundingBox { x0: 0, y0: 0, x1: w * FIXED_ONE, y1: h * FIXED_ONE };
        let clipped = bbox.clip(&surface_box);
        proof {
            lemma_clip_within(bbox, surface_box, w as int, h as int);
        }
        clipped.to_irect()
    }
}

proof fn lemma_clip_within(b: BoundingBox, s: BoundingBox, w: int, h: int)
    requires
        b.wf(),
        s.wf(),
        s == (BoundingBox { x0: 0, y0: 0, x1: (w * FIXED_ONE) as i64, y1: (h * FIXED_ONE) as i64 }),
        0 <= w <= 32767,
        0 <= h <= 32767,
    ensures
        b.spec_clip(s).spec_to_irect().within(w, h),
{
    let c = b.spec_clip(s);
    assert(0 <= c.x0 <= c.x1 <= w * FIXED_ONE);
    assert(0 <= c.y0 <= c.y1 <= h * FIXED_ONE);
    vstd::arithmetic::div_mod::lemma_div_is_ordered(c.x0 as int, c.x1 as int, FIXED_ONE as int);
    vstd::arithmetic::div_mod::lemma_div_is_ordered(c.y0 as int, c.y1 as int, FIXED_ONE as int);
    vstd::arithmetic::div_mod::lemma_div_is_ordered(-(w * FIXED_ONE), -(c.x1 as int), FIXED_ONE as int);
    vstd::arithmetic::div_mod::lemma_div_is_ordered(-(h * FIXED_ONE), -(c.y1 as int), FIXED_ONE as int);
    vstd::arithmetic::div_mod::lemma_div_is_ordered(-(c.x1 as int), 0, FIXED_ONE as int);
    vstd::arithmetic::div_mod::lemma_div_is_ordered(-(c.y1 as int), 0, FIXED_ONE as int);
    vstd::arithmetic::div_mod::lemma_div_is_ordered(0, c.x0 as int, FIXED_ONE as int);
    vstd::arithmetic::div_mod::lemma_div_is_ordered(0, c.y0 as int, FIXED_ONE as int);
    assert(-(w * FIXED_ONE) / FIXED_ONE as int == -w);
    assert(-(h * FIXED_ONE) / FIXED_ONE as int == -h);
    assert(c.x0 as int / FIXED_ONE as int <= -(-(c.x1 as int) / FIXED_ONE as int)) by {
        vstd::arithmetic::div_mod::lemma_div_is_ordered(c.x0 as int, c.x1 as int, FIXED_ONE as int);
    }
}

/// A filter region that covers the whole source surface is clipped to exactly the surface's
/// pixels.
pub proof fn lemma_region_clipped_to_surface(ctx: &FilterContext)
    requires
        ctx.wf(),
        ctx.source_width() >= 1,
        ctx.source_height() >= 1,
        ({
            let region = BoundingBox::spec_from_rect(ctx.spec_affine(), ctx.spec_filter_rect());
            region.x0 <= 0 && region.y0 <= 0 && region.x1 >= ctx.source_width() * FIXED_ONE
                && region.y1 >= ctx.source_height() * FIXED_ONE
        }),
    ensures
        ctx.spec_compute_bounds(None, None, None, None) == (IRect {
            x0: 0,
            y0: 0,
            x1: ctx.source_width() as i32,
            y1: ctx.source_height() as i32,
        }),
{
    let w = ctx.source_width();
    let h = ctx.source_height();
    assert(w <= MAX_DIMENSION && h <= MAX_DIMENSION) by {
        ctx.lemma_source_wf();
    }
    vstd::arithmetic::div_mod::lemma_div_multiples_vanish(-w, FIXED_ONE as int);
    vstd::arithmetic::div_mod::lemma_div_multiples_vanish(-h, FIXED_ONE as int);
    assert(FIXED_ONE * (-w) == -(w * FIXED_ONE));
    assert(FIXED_ONE * (-h) == -(h * FIXED_ONE));
}

/// A primitive subregion that does not overlap the filter region gives empty bounds: the
/// subregion narrows the region and never extends it.
pub proof fn lemma_disjoint_subregion_is_empty(
    ctx: &FilterContext,
    x: Option<RsvgLength>,
    y: Option<RsvgLength>,
    width: Option<RsvgLength>,
    height: Option<RsvgLength>,
)
    requires
        ctx.wf(),
        x.is_some() || y.is_some() || width.is_some() || height.is_some(),
        ({
            let region = BoundingBox::spec_from_rect(ctx.spec_affine(), ctx.spec_filter_rect());
            let sub = BoundingBox::spec_from_rect(
                ctx.spec_paffine(),
                ctx.spec_primitive_rect(x, y, width, height),
            );
            region.x1 <= sub.x0 || sub.x1 <= region.x0 || region.y1 <= sub.y0 || sub.y1
                <= region.y0
        }),
    ensures
        ctx.spec_compute_bounds(x, y, width, height) == (IRect { x0: 0, y0: 0, x1: 0, y1: 0 }),
{
}

/// The bounds of a primitive subregion always lie within the source surface.
pub proof fn lemma_bounds_within_surface(
    ctx: &FilterContext,
    x: Option<RsvgLength>,
    y: Option<RsvgLength>,
    width: Option<RsvgLength>,
    height: Option<RsvgLength>,
)
    requires
        ctx.wf(),
        opt_length_wf(x),
        opt_length_wf(y),
        opt_length_wf(width),
        opt_length_wf(height),
    ensures
        ctx.spec_compute_bounds(x, y, width, height).within(ctx.source_width(), ctx.source_height()),
{
    ctx.lemma_source_wf();
    let region = BoundingBox::spec_from_rect(ctx.spec_affine(), ctx.spec_filter_rect());
    ctx.lemma_boxes_wf(x, y, width, height);
    let declared = x.is_some() || y.is_some() || width.is_some() || height.is_some();
    let clipped = if declared {
        region.spec_clip(
            BoundingBox::spec_from_rect(
                ctx.spec_paffine(),
                ctx.spec_primitive_rect(x, y, width, height),
            ),
        )
    } else {
        region
    };
    lemma_clip_within(
        clipped,
        ctx.spec_surface_box(),
        ctx.source_width(),
        ctx.source_height(),
    );
}

} // verus!
