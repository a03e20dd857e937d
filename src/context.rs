use vstd::prelude::*;

verus! {

/// The surface offered no viable configuration for the requested size.
#[derive(Clone, Copy, Debug, PartialEq, Eq, Structural)]
pub struct SurfaceUnsupported;

impl SurfaceUnsupported {
    /// The message that describes this failure.
    pub fn message(&self) -> (s: &'static str)
        ensures
            s@ == "surface is unsupported"@,
    {
        "surface is unsupported"
    }
}

/// A presentation configuration: the surface's pixel size, and what the
/// surface negotiated for that size (pixel format, present mode, and so on),
/// which this library carries without reading.
#[derive(Clone, Copy, Debug, PartialEq, Eq)]
pub struct SurfaceConfig<N> {
    pub width: u32,
    pub height: u32,
    pub negotiated: N,
}

/// The configuration to apply for a `width` × `height` surface, given what
/// the surface negotiated for that size (`None` where it offered nothing):
/// there is none for a zero-area size.
pub open spec fn spec_negotiate<N>(width: u32, height: u32, negotiated: Option<N>) -> Option<
    SurfaceConfig<N>,
> {
    if width == 0 || height == 0 {
        None
    } else {
        match negotiated {
            Some(n) => Some(SurfaceConfig { width, height, negotiated: n }),
            None => None,
        }
    }
}

/// The configuration in effect after a resize request from `active`: the
/// negotiated one, or `active` unchanged where there is none.
pub open spec fn spec_resized<N>(
    active: SurfaceConfig<N>,
    width: u32,
    height: u32,
    negotiated: Option<N>,
) -> SurfaceConfig<N> {
    match spec_negotiate(width, height, negotiated) {
        Some(c) => c,
        None => active,
    }
}

/// The configuration that a surface is presented with. Only
/// [`Presentation::resize`] changes it.
pub struct Presentation<N> {
    active: SurfaceConfig<N>,
}

impl<N> Presentation<N> {
    /// The configuration in effect.
    pub closed spec fn active(&self) -> SurfaceConfig<N> {
        self.active
    }

    /// The first configuration of a surface, for its window's size: fails
    /// where the size has zero area or the surface offered nothing.
    pub fn negotiate(width: u32, height: u32, negotiated: Option<N>) -> (r: Result<
        Presentation<N>,
        SurfaceUnsupported,
    >)
        ensures
            spec_negotiate(width, height, negotiated) is None <==> r is Err,
            r is Ok ==> Some(r->Ok_0.active()) == spec_negotiate(width, height, negotiated),
    {
        if width == 0 || height == 0 {
            return Err(SurfaceUnsupported);
        }
        match negotiated {
            Some(n) => Ok(Presentation { active: SurfaceConfig { width, height, negotiated: n } }),
            None => Err(SurfaceUnsupported),
        }
    }

    /// The configuration in effect.
    pub fn config(&self) -> (c: &SurfaceConfig<N>)
        ensures
            *c == self.active(),
    {
        &self.active
    }

    /// Applies a new size, given what the surface negotiated for it. Fails,
    /// keeping the configuration in effect, where the size has zero area or
    /// the surface offered nothing.
    pub fn resize(&mut self, width: u32, height: u32, negotiated: Option<N>) -> (r: Result<
        (),
        SurfaceUnsupported,
    >)
        ensures
            r is Ok <==> spec_negotiate(width, height, negotiated) is Some,
            final(self).active() == spec_resized(old(self).active(), width, height, negotiated),
    {
        if width == 0 || height == 0 {
            return Err(SurfaceUnsupported);
        }
        match negotiated {
            Some(n) => {
                self.active = SurfaceConfig { width, height, negotiated: n };
                Ok(())
            },
            None => Err(SurfaceUnsupported),
        }
    }
}

/// A zero-width or zero-height size is always refused, and the configuration
/// in effect stays as it was.
pub proof fn lemma_zero_area_refused<N>(
    active: SurfaceConfig<N>,
    width: u32,
    height: u32,
    negotiated: Option<N>,
)
    requires
        width == 0 || height == 0,
    ensures
        spec_negotiate(width, height, negotiated) is None,
        spec_resized(active, width, height, negotiated) == active,
{
}

/// Resizing twice to one size, with the surface negotiating the same way each
/// time, leaves the same configuration as resizing once.
pub proof fn lemma_resize_idempotent<N>(
    active: SurfaceConfig<N>,
    width: u32,
    height: u32,
    negotiated: Option<N>,
)
    ensures
        spec_resized(spec_resized(active, width, height, negotiated), width, height, negotiated)
            == spec_resized(active, width, height, negotiated),
{
}

} // verus!
