//! The presentation surface: the chosen color format, the applied
//! configuration, and the resize policy that keeps it valid.

use vstd::prelude::*;

verus! {

/// Pixel dimensions of the window-backed surface.
#[derive(Clone, Copy, PartialEq, Eq, Structural, Debug)]
pub struct Extent {
    pub width: u32,
    pub height: u32,
}

impl Extent {
    /// Both dimensions strictly positive: the only sizes the backend accepts
    /// for a surface configuration.
    pub open spec fn is_positive(self) -> bool {
        self.width > 0 && self.height > 0
    }

    /// Whether both dimensions are strictly positive.
    pub fn positive(&self) -> (r: bool)
        ensures
            r == self.is_positive(),
    {
        self.width > 0 && self.height > 0
    }
}

/// A surface color format as the host reads it: the backend's identifying
/// code and whether the format is gamma-corrected (sRGB).
#[derive(Clone, Copy, PartialEq, Eq, Structural, Debug)]
pub struct ColorFormat {
    pub code: u32,
    pub srgb: bool,
}

/// Policy governing when a rendered image is shown relative to display
/// refresh. The host always configures `AutoVsync`.
#[derive(Clone, Copy, PartialEq, Eq, Structural, Debug)]
pub enum PresentMode {
    AutoVsync,
    AutoNoVsync,
    Fifo,
    FifoRelaxed,
    Immediate,
    Mailbox,
}

/// Alpha compositing mode of the surface; taken from the first entry the
/// surface reports.
#[derive(Clone, Copy, PartialEq, Eq, Structural, Debug)]
pub enum AlphaMode {
    Auto,
    Opaque,
    PreMultiplied,
    PostMultiplied,
    Inherit,
}

/// The one usage the swap surface is ever configured with: render attachment.
pub const RENDER_ATTACHMENT_USAGE: u32 = 16;

/// What the surface reports it can do, in the order the backend lists it.
pub struct SurfaceCaps {
    pub formats: Vec<ColorFormat>,
    pub present_modes: Vec<PresentMode>,
    pub alpha_modes: Vec<AlphaMode>,
}

/// Whether some reported format is gamma-corrected.
pub open spec fn has_srgb(formats: Seq<ColorFormat>) -> bool {
    exists|i: int| 0 <= i < formats.len() && formats[i].srgb
}

/// Index of the first gamma-corrected format (meaningful only when one exists).
pub open spec fn first_srgb_index(formats: Seq<ColorFormat>) -> int
    decreases formats.len(),
{
    if formats.len() == 0 {
        0
    } else if formats[0].srgb {
        0
    } else {
        1 + first_srgb_index(formats.drop_first())
    }
}

/// The format policy: the first gamma-corrected format the surface reports,
/// falling back to the first reported format when none is gamma-corrected.
pub open spec fn selected_format(formats: Seq<ColorFormat>) -> ColorFormat
    recommends
        formats.len() > 0,
{
    if has_srgb(formats) {
        formats[first_srgb_index(formats)]
    } else {
        formats[0]
    }
}

pub proof fn lemma_first_srgb_index(formats: Seq<ColorFormat>)
    requires
        has_srgb(formats),
    ensures
        0 <= first_srgb_index(formats) < formats.len(),
        formats[first_srgb_index(formats)].srgb,
        forall|j: int| 0 <= j < first_srgb_index(formats) ==> !formats[j].srgb,
    decreases formats.len(),
{
    if formats[0].srgb {
    } else {
        let w = choose|i: int| 0 <= i < formats.len() && formats[i].srgb;
        assert(formats.drop_first()[w - 1].srgb);
        lemma_first_srgb_index(formats.drop_first());
        let k = first_srgb_index(formats.drop_first());
        assert(formats[k + 1] == formats.drop_first()[k]);
        assert forall|j: int| 0 <= j < k + 1 implies !formats[j].srgb by {
            if j > 0 {
                assert(formats.drop_first()[j - 1] == formats[j]);
            }
        }
    }
}

/// Select the surface color format: the first sRGB format reported, else the
/// first reported format.
pub fn select_format(formats: &Vec<ColorFormat>) -> (r: ColorFormat)
    requires
        formats@.len() > 0,
    ensures
        r == selected_format(formats@),
{
    let n: usize = formats.len();
    let mut i: usize = 0;
    while i < n
        invariant
            n == formats@.len(),
            0 <= i <= n,
            forall|j: int| 0 <= j < i ==> !formats@[j].srgb,
        decreases n - i,
    {
        if formats[i].srgb {
            proof {
                assert(has_srgb(formats@));
                lemma_first_srgb_index(formats@);
                let k = first_srgb_index(formats@);
                if k < i {
                    assert(!formats@[k].srgb);
                }
                if k > i {
                    assert(!formats@[i as int].srgb);
                }
                assert(k == i);
            }
            return formats[i];
        }
        i += 1;
    }
    proof {
        if has_srgb(formats@) {
            lemma_first_srgb_index(formats@);
            let k = first_srgb_index(formats@);
            assert(!formats@[k].srgb);
        }
    }
    formats[0]
}

/// One surface configuration: what is handed to the backend whenever the
/// surface is (re)configured.
#[derive(Clone, Copy, PartialEq, Eq, Structural, Debug)]
pub struct SurfaceConfig {
    pub usage: u32,
    pub format: ColorFormat,
    pub width: u32,
    pub height: u32,
    pub present_mode: PresentMode,
    pub alpha_mode: AlphaMode,
}

/// The configuration policy: render-attachment usage, the selected format,
/// the given size, automatic vsync, and the first reported alpha mode.
pub open spec fn config_for(
    formats: Seq<ColorFormat>,
    alpha_modes: Seq<AlphaMode>,
    size: Extent,
) -> SurfaceConfig
    recommends
        formats.len() > 0,
        alpha_modes.len() > 0,
{
    SurfaceConfig {
        usage: RENDER_ATTACHMENT_USAGE,
        format: selected_format(formats),
        width: size.width,
        height: size.height,
        present_mode: PresentMode::AutoVsync,
        alpha_mode: alpha_modes[0],
    }
}

/// The window-bound swap surface's mutable state: the configuration last
/// applied and the pixel size it was applied for.
#[derive(Clone, Copy, PartialEq, Eq, Structural, Debug)]
pub struct PresentationSurface {
    pub conf: SurfaceConfig,
    pub size: Extent,
}

impl PresentationSurface {
    /// Invariant: a configured surface always has positive dimensions, and
    /// the stored size agrees with the applied configuration.
    pub open spec fn wf(self) -> bool {
        &&& self.size.is_positive()
        &&& self.conf.width == self.size.width
        &&& self.conf.height == self.size.height
    }

    /// Build the initial configuration from the reported capabilities and the
    /// window's current size, and record it as applied.
    pub fn configure(caps: &SurfaceCaps, size: Extent) -> (s: Self)
        requires
            caps.formats@.len() > 0,
            caps.alpha_modes@.len() > 0,
            size.is_positive(),
        ensures
            s.conf == config_for(caps.formats@, caps.alpha_modes@, size),
            s.size == size,
            s.wf(),
    {
        let format = select_format(&caps.formats);
        let conf = SurfaceConfig {
            usage: RENDER_ATTACHMENT_USAGE,
            format,
            width: size.width,
            height: size.height,
            present_mode: PresentMode::AutoVsync,
            alpha_mode: caps.alpha_modes[0],
        };
        PresentationSurface { conf, size }
    }

    /// The pure model of one resize request: a positive-area size is applied
    /// to both the stored size and the configuration; a zero-area request
    /// changes nothing.
    pub open spec fn resize_spec(self, new_size: Extent) -> Self {
        if new_size.is_positive() {
            PresentationSurface {
                conf: SurfaceConfig {
                    width: new_size.width,
                    height: new_size.height,
                    ..self.conf
                },
                size: new_size,
            }
        } else {
            self
        }
    }

    /// Apply a resize request. A zero-area size (a minimized window) is
    /// silently ignored, leaving the last valid configuration intact, since a
    /// zero dimension is invalid at the backend level. Returns whether the
    /// configuration changed and must be reapplied to the backend surface.
    pub fn resize(&mut self, new_size: Extent) -> (reconfigured: bool)
        requires
            old(self).wf(),
        ensures
            *final(self) == old(self).resize_spec(new_size),
            reconfigured == new_size.is_positive(),
            !new_size.is_positive() ==> *final(self) == *old(self),
            final(self).wf(),
            final(self).conf.format == old(self).conf.format,
            final(self).conf.present_mode == old(self).conf.present_mode,
            final(self).conf.alpha_mode == old(self).conf.alpha_mode,
            final(self).conf.usage == old(self).conf.usage,
    {
        if new_size.width > 0 && new_size.height > 0 {
            self.size = new_size;
            self.conf.width = new_size.width;
            self.conf.height = new_size.height;
            true
        } else {
            false
        }
    }
}

/// The surface after a whole sequence of resize requests, oldest first.
pub open spec fn resize_all(s: PresentationSurface, sizes: Seq<Extent>) -> PresentationSurface
    decreases sizes.len(),
{
    if sizes.len() == 0 {
        s
    } else {
        resize_all(s, sizes.drop_last()).resize_spec(sizes.last())
    }
}

/// The most recent positive-area size in a sequence of requests, if any.
pub open spec fn last_positive(sizes: Seq<Extent>) -> Option<Extent>
    decreases sizes.len(),
{
    if sizes.len() == 0 {
        Option::None
    } else if sizes.last().is_positive() {
        Option::Some(sizes.last())
    } else {
        last_positive(sizes.drop_last())
    }
}

/// Law: after any sequence of resize requests, the stored size is the most
/// recently requested positive-area size, and zero-area requests never change
/// the surface at all.
pub proof fn lemma_size_is_last_positive(s: PresentationSurface, sizes: Seq<Extent>)
    requires
        s.wf(),
    ensures
        resize_all(s, sizes).wf(),
        (match last_positive(sizes) {
            Option::Some(e) => resize_all(s, sizes).size == e,
            Option::None => resize_all(s, sizes) == s,
        }),
    decreases sizes.len(),
{
    if sizes.len() > 0 {
        lemma_size_is_last_positive(s, sizes.drop_last());
    }
}

} // verus!
