//! Paint sources for the rasterizer, modeled as plain values: solid colors
//! and gradients with their color stops, plus opaque surface and mesh
//! sources.  `Pattern` is the type-erased form; the `try_from` functions
//! recover the concrete kind.

use vstd::prelude::*;

verus! {

/// One gradient stop: an offset along the gradient and an RGBA color, all
/// in integer pixels and 8-bit channels.
#[derive(Clone, Copy, Debug, PartialEq, Eq, Structural)]
pub struct ColorStop {
    pub offset: i64,
    pub r: u8,
    pub g: u8,
    pub b: u8,
    pub a: u8,
}

/// A single-color source.
#[derive(Clone, Copy, Debug, PartialEq, Eq, Structural)]
pub struct SolidPattern {
    pub r: u8,
    pub g: u8,
    pub b: u8,
    pub a: u8,
}

impl SolidPattern {
    /// An opaque single-color source.
    pub fn from_rgb(r: u8, g: u8, b: u8) -> (p: SolidPattern)
        ensures
            p == (SolidPattern { r, g, b, a: 255 }),
    {
        SolidPattern { r, g, b, a: 255 }
    }

    /// A single-color source with alpha.
    pub fn from_rgba(r: u8, g: u8, b: u8, a: u8) -> (p: SolidPattern)
        ensures
            p == (SolidPattern { r, g, b, a }),
    {
        SolidPattern { r, g, b, a }
    }

    /// The source's color.
    pub fn rgba(&self) -> (r: (u8, u8, u8, u8))
        ensures
            r == (self.r, self.g, self.b, self.a),
    {
        (self.r, self.g, self.b, self.a)
    }

    /// The type-erased form.
    pub fn to_pattern(self) -> (p: Pattern)
        ensures
            p.kind == PatternKind::Solid(self),
    {
        Pattern { kind: PatternKind::Solid(self) }
    }
}

/// A linear gradient between two points.
#[derive(Clone, Debug)]
pub struct LinearGradient {
    pub x0: i64,
    pub y0: i64,
    pub x1: i64,
    pub y1: i64,
    pub stops: Vec<ColorStop>,
}

impl LinearGradient {
    /// A linear gradient from `(x0, y0)` to `(x1, y1)` with no stops yet.
    pub fn new(x0: i64, y0: i64, x1: i64, y1: i64) -> (g: LinearGradient)
        ensures
            g.x0 == x0 && g.y0 == y0 && g.x1 == x1 && g.y1 == y1,
            g.stops@.len() == 0,
    {
        LinearGradient { x0, y0, x1, y1, stops: Vec::new() }
    }

    /// The gradient's end points.
    pub fn linear_points(&self) -> (r: (i64, i64, i64, i64))
        ensures
            r == (self.x0, self.y0, self.x1, self.y1),
    {
        (self.x0, self.y0, self.x1, self.y1)
    }

    /// Appends a color stop.
    pub fn add_color_stop_rgba(&mut self, offset: i64, r: u8, g: u8, b: u8, a: u8)
        ensures
            final(self).stops@ == old(self).stops@.push(ColorStop { offset, r, g, b, a }),
            final(self).x0 == old(self).x0 && final(self).y0 == old(self).y0,
            final(self).x1 == old(self).x1 && final(self).y1 == old(self).y1,
    {
        self.stops.push(ColorStop { offset, r, g, b, a });
    }

    /// The gradient-erased form.
    pub fn to_gradient(self) -> (g: Gradient)
        ensures
            g.kind == GradientKind::Linear(self),
    {
        Gradient { kind: GradientKind::Linear(self) }
    }

    /// The type-erased form.
    pub fn to_pattern(self) -> (p: Pattern)
        ensures
            p.kind == PatternKind::Linear(self),
    {
        Pattern { kind: PatternKind::Linear(self) }
    }

    /// Recovers a linear gradient from a gradient; a radial gradient comes
    /// back unchanged as the error.
    pub fn try_from(g: Gradient) -> (r: Result<LinearGradient, Gradient>)
        ensures
            match g.kind {
                GradientKind::Linear(l) => r == Result::<LinearGradient, Gradient>::Ok(l),
                GradientKind::Radial(_) => r == Result::<LinearGradient, Gradient>::Err(g),
            },
    {
        match g.kind {
            GradientKind::Linear(l) => Ok(l),
            GradientKind::Radial(rad) => Err(Gradient { kind: GradientKind::Radial(rad) }),
        }
    }

    /// Recovers a linear gradient from a pattern; any other pattern comes
    /// back unchanged as the error.
    pub fn try_from_pattern(p: Pattern) -> (r: Result<LinearGradient, Pattern>)
        ensures
            match p.kind {
                PatternKind::Linear(l) => r == Result::<LinearGradient, Pattern>::Ok(l),
                _ => r is Err,
            },
            r is Err ==> (r matches Result::Err(e) && e.kind == p.kind),
    {
        match p.kind {
            PatternKind::Linear(l) => Ok(l),
            other => Err(Pattern { kind: other }),
        }
    }
}

/// A radial gradient between two circles.
#[derive(Clone, Debug)]
pub struct RadialGradient {
    pub x0: i64,
    pub y0: i64,
    pub r0: i64,
    pub x1: i64,
    pub y1: i64,
    pub r1: i64,
    pub stops: Vec<ColorStop>,
}

impl RadialGradient {
    /// A radial gradient between circle `(x0, y0, r0)` and circle
    /// `(x1, y1, r1)` with no stops yet.
    pub fn new(x0: i64, y0: i64, r0: i64, x1: i64, y1: i64, r1: i64) -> (g: RadialGradient)
        ensures
            g.x0 == x0 && g.y0 == y0 && g.r0 == r0,
            g.x1 == x1 && g.y1 == y1 && g.r1 == r1,
            g.stops@.len() == 0,
    {
        RadialGradient { x0, y0, r0, x1, y1, r1, stops: Vec::new() }
    }

    /// The gradient's two circles.
    pub fn radial_circles(&self) -> (r: (i64, i64, i64, i64, i64, i64))
        ensures
            r == (self.x0, self.y0, self.r0, self.x1, self.y1, self.r1),
    {
        (self.x0, self.y0, self.r0, self.x1, self.y1, self.r1)
    }

    /// Appends a color stop.
    pub fn add_color_stop_rgba(&mut self, offset: i64, r: u8, g: u8, b: u8, a: u8)
        ensures
            final(self).stops@ == old(self).stops@.push(ColorStop { offset, r, g, b, a }),
    {
        self.stops.push(ColorStop { offset, r, g, b, a });
    }

    /// The gradient-erased form.
    pub fn to_gradient(self) -> (g: Gradient)
        ensures
            g.kind == GradientKind::Radial(self),
    {
        Gradient { kind: GradientKind::Radial(self) }
    }

    /// The type-erased form.
    pub fn to_pattern(self) -> (p: Pattern)
        ensures
            p.kind == PatternKind::Radial(self),
    {
        Pattern { kind: PatternKind::Radial(self) }
    }
}

/// Either kind of gradient.
#[derive(Clone, Debug)]
pub enum GradientKind {
    Linear(LinearGradient),
    Radial(RadialGradient),
}

/// A gradient source of either kind.
#[derive(Clone, Debug)]
pub struct Gradient {
    pub kind: GradientKind,
}

impl Gradient {
    /// The gradient's color stops.
    pub open spec fn spec_stops(&self) -> Seq<ColorStop> {
        match self.kind {
            GradientKind::Linear(l) => l.stops@,
            GradientKind::Radial(r) => r.stops@,
        }
    }

    /// How many color stops the gradient holds.
    pub fn color_stop_count(&self) -> (n: usize)
        ensures
            n == self.spec_stops().len(),
    {
        match &self.kind {
            GradientKind::Linear(l) => l.stops.len(),
            GradientKind::Radial(r) => r.stops.len(),
        }
    }

    /// The stop at `index`, or `None` past the end.
    pub fn color_stop_rgba(&self, index: usize) -> (r: Option<ColorStop>)
        ensures
            match r {
                Some(s) => index < self.spec_stops().len() && s == self.spec_stops()[index as int],
                None => index >= self.spec_stops().len(),
            },
    {
        match &self.kind {
            GradientKind::Linear(l) => {
                if index < l.stops.len() {
                    Some(l.stops[index])
                } else {
                    None
                }
            },
            GradientKind::Radial(rg) => {
                if index < rg.stops.len() {
                    Some(rg.stops[index])
                } else {
                    None
                }
            },
        }
    }

    /// The type-erased form.
    pub fn to_pattern(self) -> (p: Pattern)
        ensures
            match self.kind {
                GradientKind::Linear(l) => p.kind == PatternKind::Linear(l),
                GradientKind::Radial(r) => p.kind == PatternKind::Radial(r),
            },
    {
        match self.kind {
            GradientKind::Linear(l) => Pattern { kind: PatternKind::Linear(l) },
            GradientKind::Radial(r) => Pattern { kind: PatternKind::Radial(r) },
        }
    }

    /// Recovers a gradient from a pattern; any non-gradient pattern comes
    /// back unchanged as the error.
    pub fn try_from(p: Pattern) -> (r: Result<Gradient, Pattern>)
        ensures
            match p.kind {
                PatternKind::Linear(l) => r == Result::<Gradient, Pattern>::Ok(
                    Gradient { kind: GradientKind::Linear(l) },
                ),
                PatternKind::Radial(rad) => r == Result::<Gradient, Pattern>::Ok(
                    Gradient { kind: GradientKind::Radial(rad) },
                ),
                _ => r is Err,
            },
            r is Err ==> (r matches Result::Err(e) && e.kind == p.kind),
    {
        match p.kind {
            PatternKind::Linear(l) => Ok(Gradient { kind: GradientKind::Linear(l) }),
            PatternKind::Radial(rad) => Ok(Gradient { kind: GradientKind::Radial(rad) }),
            other => Err(Pattern { kind: other }),
        }
    }
}

/// A source that paints from a surface; the surface itself lives with the
/// rasterizer, named here by a handle.
#[derive(Clone, Copy, Debug, PartialEq, Eq, Structural)]
pub struct SurfacePattern {
    pub surface: i64,
}

/// A mesh source: tensor-product patches the rasterizer interpolates; held
/// here by patch count only.
#[derive(Clone, Copy, Debug, PartialEq, Eq, Structural)]
pub struct Mesh {
    pub patch_count: usize,
}

/// What a pattern paints with.
#[derive(Clone, Debug)]
pub enum PatternKind {
    Solid(SolidPattern),
    Linear(LinearGradient),
    Radial(RadialGradient),
    Surface(SurfacePattern),
    MeshPatches(Mesh),
}

/// A type-erased paint source.
#[derive(Clone, Debug)]
pub struct Pattern {
    pub kind: PatternKind,
}

} // verus!
