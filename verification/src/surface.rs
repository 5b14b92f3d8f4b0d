//! Surface management: choosing the pixel format of the presentation surface
//! and describing the configuration the surface is given.

use vstd::prelude::*;
use wgpu::TextureFormat;
use crate::geometry::PhysicalSize;

verus! {

/// `wgpu::TextureFormat`, carried through the library as an opaque value.
#[verifier::external_type_specification]
#[verifier::external_body]
pub struct ExTextureFormat(wgpu::TextureFormat);

/// Whether `wgpu::TextureFormat::is_srgb` answers `true` for `format`.
pub uninterp spec fn srgb_format(format: TextureFormat) -> bool;

/// `wgpu::TextureFormat::is_srgb` compares the format with its own
/// `remove_srgb_suffix`; the answer depends on the format alone, and is
/// named `srgb_format`.
pub assume_specification[ wgpu::TextureFormat::is_srgb ](format: &TextureFormat) -> (srgb: bool)
    ensures
        srgb == srgb_format(*format),
;

/// `i` is the entry to prefer among `flags`: the first flagged entry, or the
/// first entry of all when none is flagged.
pub open spec fn is_preferred(flags: Seq<bool>, i: int) -> bool {
    &&& 0 <= i < flags.len()
    &&& forall|j: int| 0 <= j < i ==> !flags[j]
    &&& (flags[i] || (i == 0 && forall|j: int| 0 <= j < flags.len() ==> !flags[j]))
}

/// At most one entry is the preferred one.
pub proof fn lemma_preferred_unique(flags: Seq<bool>, i: int, j: int)
    requires
        is_preferred(flags, i),
        is_preferred(flags, j),
    ensures
        i == j,
{
    if i < j {
        assert(!flags[i]);
    } else if j < i {
        assert(!flags[j]);
    }
}

/// Whenever there is an entry at all, one of them is the preferred one.
pub proof fn lemma_preferred_exists(flags: Seq<bool>)
    requires
        flags.len() > 0,
    ensures
        exists|i: int| is_preferred(flags, i),
{
    lemma_preferred_from(flags, 0);
}

/// The search for the preferred entry, taken up at entry `k` with no
/// flagged entry before it, ends with one.
proof fn lemma_preferred_from(flags: Seq<bool>, k: int)
    requires
        flags.len() > 0,
        0 <= k <= flags.len(),
        forall|j: int| 0 <= j < k ==> !flags[j],
    ensures
        exists|i: int| is_preferred(flags, i),
    decreases flags.len() - k,
{
    if k == flags.len() {
        assert(is_preferred(flags, 0));
    } else if flags[k] {
        assert(is_preferred(flags, k));
    } else {
        lemma_preferred_from(flags, k + 1);
    }
}

/// The index of the preferred entry of `flags`, if there is any entry.
pub open spec fn preferred_index(flags: Seq<bool>) -> Option<int> {
    if flags.len() == 0 {
        None
    } else {
        Some(choose|i: int| is_preferred(flags, i))
    }
}

/// Picks the preferred entry of a list of candidates of which `flags` says,
/// one by one, whether the candidate is an sRGB format.
pub fn select_preferred(flags: &Vec<bool>) -> (choice: Option<usize>)
    ensures
        match choice {
            Some(i) => is_preferred(flags@, i as int) && preferred_index(flags@) == Some(i as int),
            None => flags@.len() == 0 && preferred_index(flags@) is None,
        },
{
    let mut i: usize = 0;
    while i < flags.len()
        invariant
            i <= flags.len(),
            forall|j: int| 0 <= j < i ==> !flags@[j],
        decreases flags.len() - i,
    {
        if flags[i] {
            proof {
                assert(is_preferred(flags@, i as int));
                lemma_preferred_unique(
                    flags@,
                    i as int,
                    choose|k: int| is_preferred(flags@, k),
                );
            }
            return Some(i);
        }
        i += 1;
    }
    if flags.len() == 0 {
        None
    } else {
        proof {
            assert(is_preferred(flags@, 0));
            lemma_preferred_unique(flags@, 0, choose|k: int| is_preferred(flags@, k));
        }
        Some(0)
    }
}

/// The sRGB flags of a list of formats, entry by entry.
pub open spec fn srgb_flags(formats: Seq<TextureFormat>) -> Seq<bool> {
    Seq::new(formats.len(), |i: int| srgb_format(formats[i]))
}

/// The format to prefer among `formats`: the first sRGB format, or else the
/// first format; none when the list is empty.
pub open spec fn preferred_format_of(formats: Seq<TextureFormat>) -> Option<TextureFormat> {
    match preferred_index(srgb_flags(formats)) {
        Some(i) => Some(formats[i]),
        None => None,
    }
}

/// A format is preferred exactly when formats are on offer, and it is then
/// the first sRGB format on offer, or the first format when no sRGB format
/// is on offer.
pub proof fn lemma_preferred_format_of(formats: Seq<TextureFormat>)
    ensures
        preferred_format_of(formats) is None <==> formats.len() == 0,
        formats.len() > 0 ==> exists|i: int|
            is_preferred(srgb_flags(formats), i) && preferred_format_of(formats) == Some(
                formats[i],
            ),
{
    if formats.len() > 0 {
        lemma_preferred_exists(srgb_flags(formats));
        let i = choose|i: int| is_preferred(srgb_flags(formats), i);
        assert(is_preferred(srgb_flags(formats), i) && preferred_format_of(formats) == Some(
            formats[i],
        ));
    }
}

/// The format to configure the surface with: the first sRGB format the
/// surface offers, or else the first format it offers.
pub fn preferred_format(formats: &Vec<TextureFormat>) -> (choice: Option<TextureFormat>)
    ensures
        choice == preferred_format_of(formats@),
        match choice {
            Some(format) => exists|i: int|
                is_preferred(srgb_flags(formats@), i) && format == formats@[i],
            None => formats@.len() == 0,
        },
{
    let mut flags: Vec<bool> = Vec::new();
    let mut i: usize = 0;
    while i < formats.len()
        invariant
            i <= formats.len(),
            flags@ == srgb_flags(formats@).take(i as int),
        decreases formats.len() - i,
    {
        let srgb = formats[i].is_srgb();
        flags.push(srgb);
        assert(flags@ =~= srgb_flags(formats@).take(i + 1));
        i += 1;
    }
    assert(flags@ =~= srgb_flags(formats@));
    match select_preferred(&flags) {
        Some(k) => Some(formats[k]),
        None => None,
    }
}

/// How the surface's textures are used.
#[derive(Clone, Copy, Debug, PartialEq, Eq, Structural)]
pub enum SurfaceUsage {
    CopySrc,
    CopyDst,
    TextureBinding,
    StorageBinding,
    RenderAttachment,
}

/// How presented frames are paced against the display.
#[derive(Clone, Copy, Debug, PartialEq, Eq, Structural)]
pub enum PresentMode {
    AutoVsync,
    AutoNoVsync,
    Fifo,
    FifoRelaxed,
    Immediate,
    Mailbox,
}

/// How the compositor treats the alpha channel of presented frames.
#[derive(Clone, Copy, Debug, PartialEq, Eq, Structural)]
pub enum AlphaMode {
    Auto,
    Opaque,
    PreMultiplied,
    PostMultiplied,
    Inherit,
}

/// The configuration a presentation surface is given.
#[derive(Debug, PartialEq, Eq)]
pub struct SurfaceConfig {
    pub usage: SurfaceUsage,
    pub format: TextureFormat,
    pub width: u32,
    pub height: u32,
    pub present_mode: PresentMode,
    pub alpha_mode: AlphaMode,
    pub view_formats: Vec<TextureFormat>,
    pub desired_maximum_frame_latency: u32,
}

/// The mathematical content of a `SurfaceConfig`.
pub ghost struct SurfaceConfigView {
    pub usage: SurfaceUsage,
    pub format: TextureFormat,
    pub width: u32,
    pub height: u32,
    pub present_mode: PresentMode,
    pub alpha_mode: AlphaMode,
    pub view_formats: Seq<TextureFormat>,
    pub desired_maximum_frame_latency: u32,
}

impl View for SurfaceConfig {
    type V = SurfaceConfigView;

    open spec fn view(&self) -> SurfaceConfigView {
        SurfaceConfigView {
            usage: self.usage,
            format: self.format,
            width: self.width,
            height: self.height,
            present_mode: self.present_mode,
            alpha_mode: self.alpha_mode,
            view_formats: self.view_formats@,
            desired_maximum_frame_latency: self.desired_maximum_frame_latency,
        }
    }
}

impl SurfaceConfigView {
    /// The one configuration the engine ever gives a surface of `size` and
    /// `format`: a render attachment, paced by automatic vsync, with the
    /// compositor's own alpha mode, no extra view formats and at most two
    /// frames in flight.
    pub open spec fn for_size(format: TextureFormat, size: PhysicalSize) -> SurfaceConfigView {
        SurfaceConfigView {
            usage: SurfaceUsage::RenderAttachment,
            format,
            width: size.width,
            height: size.height,
            present_mode: PresentMode::AutoVsync,
            alpha_mode: AlphaMode::Auto,
            view_formats: Seq::empty(),
            desired_maximum_frame_latency: 2,
        }
    }
}

impl SurfaceConfig {
    /// The configuration for a surface of `size` and `format`.
    pub fn for_size(format: TextureFormat, size: PhysicalSize) -> (config: Self)
        ensures
            config@ == SurfaceConfigView::for_size(format, size),
    {
        SurfaceConfig {
            usage: SurfaceUsage::RenderAttachment,
            format,
            width: size.width,
            height: size.height,
            present_mode: PresentMode::AutoVsync,
            alpha_mode: AlphaMode::Auto,
            view_formats: Vec::new(),
            desired_maximum_frame_latency: 2,
        }
    }
}

/// Why the surface handed out no frame.
#[derive(Clone, Copy, Debug, PartialEq, Eq, Structural)]
pub enum FrameError {
    /// Acquiring the frame timed out.
    Timeout,
    /// The surface changed underneath and has to be configured again.
    Outdated,
    /// The swap chain was lost.
    Lost,
    /// No memory is left for a new frame.
    OutOfMemory,
}

impl FrameError {
    /// Rendering cannot go on after this failure.
    pub open spec fn is_fatal(self) -> bool {
        self is OutOfMemory
    }

    /// Whether rendering cannot go on after this failure. Every other
    /// failure costs one frame only.
    pub fn fatal(&self) -> (fatal: bool)
        ensures
            fatal == self.is_fatal(),
    {
        match self {
            FrameError::OutOfMemory => true,
            _ => false,
        }
    }
}

} // verus!
