use vstd::prelude::*;
use crate::context::{opt_length_wf, FilterContext, FilterOutput, Input, OutputView};
use crate::length::RsvgLength;
use crate::rect::IRect;

verus! {

/// What every filter primitive with an input declares: its subregion, the name of its result,
/// and the reference to its input.
pub struct PrimitiveWithInput {
    pub x: Option<RsvgLength>,
    pub y: Option<RsvgLength>,
    pub width: Option<RsvgLength>,
    pub height: Option<RsvgLength>,
    pub result: Option<String>,
    pub input: Option<Input>,
}

/// The view of an optional name.
pub open spec fn name_view(name: Option<String>) -> Option<Seq<char>> {
    match name {
        Some(n) => Some(n@),
        None => None,
    }
}

pub open spec fn input_ref(input: &Option<Input>) -> Option<&Input> {
    match input {
        Some(i) => Some(i),
        None => None,
    }
}

/// A copy of an optional name.
pub fn copy_name(name: &Option<String>) -> (r: Option<String>)
    ensures
        name_view(r) == name_view(*name),
{
    match name {
        Some(n) => Some(n.clone()),
        None => None,
    }
}

impl PrimitiveWithInput {
    /// A primitive with no declared subregion, no result name, and the default input.
    pub fn new() -> (r: PrimitiveWithInput)
        ensures
            r.x.is_none() && r.y.is_none() && r.width.is_none() && r.height.is_none(),
            r.result.is_none(),
            r.input.is_none(),
    {
        PrimitiveWithInput { x: None, y: None, width: None, height: None, result: None, input: None }
    }

    pub open spec fn wf(&self) -> bool {
        &&& opt_length_wf(self.x)
        &&& opt_length_wf(self.y)
        &&& opt_length_wf(self.width)
        &&& opt_length_wf(self.height)
    }

    /// The pixels of this primitive's subregion.
    pub open spec fn spec_bounds(&self, ctx: &FilterContext) -> IRect {
        ctx.spec_compute_bounds(self.x, self.y, self.width, self.height)
    }

    /// What this primitive's input resolves to.
    pub open spec fn spec_input(&self, ctx: &FilterContext) -> Option<OutputView> {
        ctx.spec_input(input_ref(&self.input))
    }

    /// The pixels of this primitive's subregion.
    pub fn get_bounds(&self, ctx: &FilterContext) -> (r: IRect)
        requires
            self.wf(),
            ctx.wf(),
        ensures
            r == self.spec_bounds(ctx),
            r.within(ctx.source_width(), ctx.source_height()),
    {
        ctx.compute_bounds(self.x, self.y, self.width, self.height)
    }

    /// Resolves this primitive's input.
    pub fn get_input(&self, ctx: &FilterContext) -> (r: Option<FilterOutput>)
        requires
            ctx.wf(),
        ensures
            match self.spec_input(ctx) {
                None => r.is_none(),
                Some(v) => r matches Some(o) && o@ == v,
            },
            r matches Some(o) ==> o.fits(ctx.source_width(), ctx.source_height()),
    {
        ctx.get_input(self.input.as_ref())
    }
}

} // verus!
