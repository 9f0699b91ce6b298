//! Surface texture formats and the policy that picks one.

use vstd::prelude::*;

verus! {

/// `wgpu::TextureFormat`, carried through as it is. Nothing is known of what
/// a value of it holds.
#[verifier::external_type_specification]
#[verifier::external_body]
pub struct ExTextureFormat(wgpu::TextureFormat);

/// Whether `wgpu::TextureFormat::is_srgb` holds of `format`: whether the
/// format stores its colour channels sRGB-encoded.
pub uninterp spec fn format_is_srgb(format: wgpu::TextureFormat) -> bool;

/// Calls `wgpu::TextureFormat::is_srgb`. The answer depends on the format
/// alone and is the one that [`format_is_srgb`] names.
#[verifier::external_body]
fn texture_format_is_srgb(format: &wgpu::TextureFormat) -> (srgb: bool)
    ensures
        srgb == format_is_srgb(*format),
{
    format.is_srgb()
}

/// A texture format that a surface reports, together with the one thing about
/// it that the selection policy reads: whether it is sRGB-encoded.
#[derive(Clone, Copy, Debug)]
pub struct SurfaceFormat {
    raw: wgpu::TextureFormat,
    srgb: bool,
}

impl SurfaceFormat {
    pub closed spec fn raw_spec(self) -> wgpu::TextureFormat {
        self.raw
    }

    pub closed spec fn srgb(self) -> bool {
        self.srgb
    }

    /// The flag says of the format what wgpu says of it.
    pub open spec fn wf(self) -> bool {
        self.srgb() == format_is_srgb(self.raw_spec())
    }

    /// Holds of every format description at all times.
    #[verifier::type_invariant]
    pub open spec fn inv(self) -> bool {
        self.wf()
    }

    /// Describes `raw`, asking wgpu whether it is sRGB-encoded.
    pub fn new(raw: wgpu::TextureFormat) -> (format: SurfaceFormat)
        ensures
            format.raw_spec() == raw,
            format.srgb() == format_is_srgb(raw),
            format.wf(),
    {
        let srgb = texture_format_is_srgb(&raw);
        SurfaceFormat { raw, srgb }
    }

    pub fn raw(&self) -> (raw: wgpu::TextureFormat)
        ensures
            raw == self.raw_spec(),
    {
        self.raw
    }

    /// Whether the format is sRGB-encoded.
    pub fn is_srgb(&self) -> (srgb: bool)
        ensures
            srgb == self.srgb(),
            srgb == format_is_srgb(self.raw_spec()),
            self.wf(),
    {
        proof {
            use_type_invariant(self);
        }
        self.srgb
    }
}

/// `i` is the position of the first sRGB-encoded format of `formats`.
pub open spec fn is_first_srgb(formats: Seq<SurfaceFormat>, i: int) -> bool {
    &&& 0 <= i < formats.len()
    &&& formats[i].srgb()
    &&& forall|j: int| 0 <= j < i ==> !(#[trigger] formats[j]).srgb()
}

/// Some format of `formats` is sRGB-encoded.
pub open spec fn has_srgb(formats: Seq<SurfaceFormat>) -> bool {
    exists|i: int| 0 <= i < formats.len() && (#[trigger] formats[i]).srgb()
}

/// The position of the format to render to: the first sRGB-encoded one, or
/// the first of all where none is sRGB-encoded.
pub open spec fn preferred_index(formats: Seq<SurfaceFormat>) -> int {
    if has_srgb(formats) {
        choose|i: int| is_first_srgb(formats, i)
    } else {
        0
    }
}

/// `i` is where the selection policy lands on `formats`, going by what wgpu
/// says of each format: no format before `i` is sRGB-encoded, and the one at
/// `i` is, unless none is at all and `i` is the first position.
pub open spec fn is_preferred_by_wgpu(formats: Seq<SurfaceFormat>, i: int) -> bool {
    &&& 0 <= i < formats.len()
    &&& forall|j: int| 0 <= j < i ==> !format_is_srgb((#[trigger] formats[j]).raw_spec())
    &&& format_is_srgb(formats[i].raw_spec()) || (i == 0 && forall|j: int|
        0 <= j < formats.len() ==> !format_is_srgb((#[trigger] formats[j]).raw_spec()))
}

/// The policy lands on one position only.
pub proof fn lemma_preferred_by_wgpu_is_unique(formats: Seq<SurfaceFormat>, i: int, k: int)
    requires
        is_preferred_by_wgpu(formats, i),
        is_preferred_by_wgpu(formats, k),
    ensures
        i == k,
{
    if i < k {
        assert(!format_is_srgb(formats[i].raw_spec()));
    }
    if k < i {
        assert(!format_is_srgb(formats[k].raw_spec()));
    }
}

/// The first sRGB-encoded position is unique, so it is the preferred one.
pub proof fn lemma_first_srgb_is_preferred(formats: Seq<SurfaceFormat>, i: int)
    requires
        is_first_srgb(formats, i),
    ensures
        preferred_index(formats) == i,
{
    assert(formats[i].srgb());
    let k = choose|k: int| is_first_srgb(formats, k);
    assert(is_first_srgb(formats, k));
    if k < i {
        assert(!formats[k].srgb());
    }
    if i < k {
        assert(!formats[i].srgb());
    }
}

/// Without an sRGB-encoded format the preferred position is the first.
pub proof fn lemma_no_srgb_prefers_first(formats: Seq<SurfaceFormat>)
    requires
        forall|j: int| 0 <= j < formats.len() ==> !(#[trigger] formats[j]).srgb(),
    ensures
        preferred_index(formats) == 0,
{
}

/// The preferred format is sRGB-encoded exactly if any format is.
pub proof fn lemma_preferred_is_srgb_if_any(formats: Seq<SurfaceFormat>)
    requires
        formats.len() > 0,
    ensures
        0 <= preferred_index(formats) < formats.len(),
        formats[preferred_index(formats)].srgb() <==> has_srgb(formats),
{
    if has_srgb(formats) {
        let w = choose|i: int| 0 <= i < formats.len() && (#[trigger] formats[i]).srgb();
        lemma_some_srgb_has_first(formats, w);
    } else {
        assert(!formats[0].srgb());
    }
}

/// Where some format is sRGB-encoded, one of them is the first.
proof fn lemma_some_srgb_has_first(formats: Seq<SurfaceFormat>, w: int)
    requires
        0 <= w < formats.len(),
        formats[w].srgb(),
    ensures
        is_first_srgb(formats, preferred_index(formats)),
    decreases w,
{
    if forall|j: int| 0 <= j < w ==> !(#[trigger] formats[j]).srgb() {
        assert(is_first_srgb(formats, w));
    } else {
        let j = choose|j: int| 0 <= j < w && (#[trigger] formats[j]).srgb();
        lemma_some_srgb_has_first(formats, j);
    }
}

/// Picks the format to render to from those a surface supports: the first
/// sRGB-encoded one, else the first. An empty list offers nothing to pick.
pub fn select_surface_format(formats: &Vec<SurfaceFormat>) -> (selected: Option<SurfaceFormat>)
    ensures
        selected is None <==> formats@.len() == 0,
        selected matches Some(format) ==> format == formats@[preferred_index(formats@)],
        selected matches Some(format) ==> format.wf(),
        selected is Some ==> is_preferred_by_wgpu(formats@, preferred_index(formats@)),
{
    if formats.len() == 0 {
        return None;
    }
    let mut i: usize = 0;
    while i < formats.len()
        invariant
            0 <= i <= formats.len(),
            forall|j: int| 0 <= j < i ==> !(#[trigger] formats@[j]).srgb(),
            forall|j: int| 0 <= j < i ==> !format_is_srgb((#[trigger] formats@[j]).raw_spec()),
        decreases formats.len() - i,
    {
        if formats[i].is_srgb() {
            proof {
                lemma_first_srgb_is_preferred(formats@, i as int);
            }
            return Some(formats[i]);
        }
        i += 1;
    }
    let first = formats[0];
    proof {
        lemma_no_srgb_prefers_first(formats@);
        use_type_invariant(&first);
    }
    Some(first)
}

} // verus!
