use vstd::prelude::*;

verus! {

/// Side of the square workgroup of the equirectangular-to-cube compute program.
pub const WORKGROUP_SIZE: u32 = 16;

/// A cube has six faces, stored as six array layers.
pub const CUBE_FACES: u32 = 6;

/// The least integer not below `a / b`.
pub open spec fn ceil_div(a: int, b: int) -> int {
    (a + b - 1) / b
}

/// The number of workgroups along one side of a face of `size` texels.
pub fn workgroup_count(size: u32) -> (n: u32)
    ensures
        n == ceil_div(size as int, WORKGROUP_SIZE as int),
{
    let n = size / WORKGROUP_SIZE + if size % WORKGROUP_SIZE == 0 {
        0
    } else {
        1
    };
    assert(n == ceil_div(size as int, 16)) by (nonlinear_arith)
        requires
            n == size / 16 + if size % 16 == 0 {
                0int
            } else {
                1int
            },
    {};
    n
}

/// The shape of a cube texture: `array_layers` layers of `width` x `height`
/// texels, with a single mip level and one sample per texel.
#[derive(Clone, Copy, Debug, PartialEq, Eq)]
pub struct CubeTextureDesc {
    pub width: u32,
    pub height: u32,
    pub array_layers: u32,
    pub mip_level_count: u32,
    pub sample_count: u32,
}

impl CubeTextureDesc {
    /// Six layers of `width` x `height` texels, one per face, without mips.
    pub fn create_2d(width: u32, height: u32) -> (d: Self)
        ensures
            d.width == width,
            d.height == height,
            d.array_layers == CUBE_FACES,
            d.mip_level_count == 1,
            d.sample_count == 1,
    {
        CubeTextureDesc { width, height, array_layers: CUBE_FACES, mip_level_count: 1, sample_count: 1 }
    }
}

/// Workgroup counts of a compute dispatch along x, y and z.
#[derive(Clone, Copy, Debug, PartialEq, Eq)]
pub struct Dispatch {
    pub x: u32,
    pub y: u32,
    pub z: u32,
}

/// What one conversion allocates and dispatches for a destination face size.
#[derive(Clone, Copy, Debug, PartialEq, Eq)]
pub struct CubemapPlan {
    pub texture: CubeTextureDesc,
    pub dispatch: Dispatch,
}

impl CubemapPlan {
    pub open spec fn spec_new(dst_size: u32) -> CubemapPlan {
        CubemapPlan {
            texture: CubeTextureDesc {
                width: dst_size,
                height: dst_size,
                array_layers: CUBE_FACES,
                mip_level_count: 1,
                sample_count: 1,
            },
            dispatch: Dispatch {
                x: ceil_div(dst_size as int, WORKGROUP_SIZE as int) as u32,
                y: ceil_div(dst_size as int, WORKGROUP_SIZE as int) as u32,
                z: CUBE_FACES,
            },
        }
    }

    /// A square cube texture of `dst_size` texels a side, and one workgroup
    /// grid per face that covers it.
    pub fn new(dst_size: u32) -> (p: Self)
        requires
            dst_size > 0,
        ensures
            p == Self::spec_new(dst_size),
    {
        let n = workgroup_count(dst_size);
        CubemapPlan {
            texture: CubeTextureDesc::create_2d(dst_size, dst_size),
            dispatch: Dispatch { x: n, y: n, z: CUBE_FACES },
        }
    }
}

/// The dispatch of a plan reaches every texel of every face: texel `(u, v)` of
/// face `f` falls in workgroup `(u / 16, v / 16, f)`, which is dispatched.
pub proof fn lemma_dispatch_covers_every_texel(dst_size: u32, u: u32, v: u32, face: u32)
    requires
        dst_size > 0,
        u < dst_size,
        v < dst_size,
        face < CUBE_FACES,
    ensures
        u / WORKGROUP_SIZE < CubemapPlan::spec_new(dst_size).dispatch.x,
        v / WORKGROUP_SIZE < CubemapPlan::spec_new(dst_size).dispatch.y,
        face < CubemapPlan::spec_new(dst_size).dispatch.z,
{
    let n = ceil_div(dst_size as int, 16);
    assert(u as int / 16 < n) by (nonlinear_arith)
        requires
            u < dst_size,
            n == (dst_size + 15) / 16,
    {};
    assert(v as int / 16 < n) by (nonlinear_arith)
        requires
            v < dst_size,
            n == (dst_size + 15) / 16,
    {};
    assert(0 <= n <= u32::MAX);
}

/// No workgroup of a plan's dispatch lies wholly outside the face: the last
/// one along each side starts inside it.
pub proof fn lemma_dispatch_is_tight(dst_size: u32)
    requires
        dst_size > 0,
    ensures
        (CubemapPlan::spec_new(dst_size).dispatch.x - 1) * WORKGROUP_SIZE < dst_size,
        CubemapPlan::spec_new(dst_size).dispatch.x == CubemapPlan::spec_new(dst_size).dispatch.y,
{
    let n = ceil_div(dst_size as int, 16);
    assert((n - 1) * 16 < dst_size) by (nonlinear_arith)
        requires
            n == (dst_size + 15) / 16,
            dst_size > 0,
    {};
    assert(0 <= n <= u32::MAX);
}

#[verifier::external_type_specification]
#[verifier::external_body]
pub struct ExImageError(image::ImageError);

/// Relies on `image::load_from_memory` (format guessed from the bytes) and
/// `DynamicImage::to_rgba8`: on success, the image buffer's raw data holds at
/// least four bytes for each of its `width * height` pixels. Which bytes
/// decode at all depends on the decoding hooks registered in the process and
/// the formats compiled in, so nothing more is said of the outcome.
#[verifier::external_body]
fn decode_rgba8(bytes: &[u8]) -> (r: Result<(u32, u32, Vec<u8>), image::ImageError>)
    ensures
        r matches Ok((w, h, px)) ==> px@.len() >= 4 * w * h,
{
    let img = image::load_from_memory(bytes)?.to_rgba8();
    let (w, h) = img.dimensions();
    Ok((w, h, img.into_raw()))
}

/// Why a conversion could not start.
pub enum CubemapError {
    /// The source bytes are not an image that the decoder reads.
    Decode(image::ImageError),
    /// A row of the source, at four bytes a pixel, does not fit in 32 bits.
    SourceTooWide,
}

/// A decoded equirectangular source: `height` rows of `width` RGBA8 pixels,
/// `bytes_per_row` bytes each, with no bytes beyond the last row.
pub struct SourceImage {
    width: u32,
    height: u32,
    bytes_per_row: u32,
    rgba: Vec<u8>,
}

impl SourceImage {
    pub closed spec fn spec_width(&self) -> u32 {
        self.width
    }

    pub closed spec fn spec_height(&self) -> u32 {
        self.height
    }

    pub closed spec fn spec_bytes_per_row(&self) -> u32 {
        self.bytes_per_row
    }

    pub closed spec fn spec_rgba(&self) -> Seq<u8> {
        self.rgba@
    }

    pub open spec fn wf(&self) -> bool {
        &&& self.spec_bytes_per_row() == 4 * self.spec_width()
        &&& self.spec_rgba().len() == self.spec_bytes_per_row() * self.spec_height()
    }

    pub fn width(&self) -> (r: u32)
        ensures
            r == self.spec_width(),
    {
        self.width
    }

    pub fn height(&self) -> (r: u32)
        ensures
            r == self.spec_height(),
    {
        self.height
    }

    pub fn bytes_per_row(&self) -> (r: u32)
        ensures
            r == self.spec_bytes_per_row(),
    {
        self.bytes_per_row
    }

    /// The pixels, row by row, four bytes each.
    pub fn rgba(&self) -> (r: &[u8])
        ensures
            r@ == self.spec_rgba(),
    {
        self.rgba.as_slice()
    }

    /// Takes the first `4 * width * height` bytes of `rgba` as the pixels of
    /// a `width` x `height` image. Fails when a row does not fit in 32 bits.
    pub fn from_rgba8(width: u32, height: u32, rgba: Vec<u8>) -> (r: Result<Self, CubemapError>)
        requires
            rgba@.len() >= 4 * width * height,
        ensures
            4 * width > u32::MAX <==> r matches Err(CubemapError::SourceTooWide),
            r is Err ==> r matches Err(CubemapError::SourceTooWide),
            r matches Ok(img) ==> {
                &&& img.wf()
                &&& img.spec_width() == width
                &&& img.spec_height() == height
                &&& img.spec_rgba() == rgba@.take(4 * width * height)
            },
    {
        if width > u32::MAX / 4 {
            return Err(CubemapError::SourceTooWide);
        }
        let bytes_per_row = 4 * width;
        let available: usize = rgba.len();
        assert((bytes_per_row as int) * (height as int) <= available) by (nonlinear_arith)
            requires
                bytes_per_row == 4 * width,
                available >= 4 * width * height,
        {};
        let len = bytes_per_row as usize * height as usize;
        let mut rgba = rgba;
        rgba.truncate(len);
        assert(4 * width * height == bytes_per_row * height) by (nonlinear_arith)
            requires
                bytes_per_row == 4 * width,
        {};
        Ok(SourceImage { width, height, bytes_per_row, rgba })
    }
}

/// What a conversion needs before it touches the GPU: the decoded source and
/// the plan of the destination texture and dispatch.
pub struct PreparedCubemap {
    pub source: SourceImage,
    pub plan: CubemapPlan,
}

/// Takes a decoded `width` x `height` RGBA8 image and plans a cube of
/// `dst_size` texels a side. Fails with `SourceTooWide` exactly when a row of
/// the source does not fit in 32 bits.
pub fn prepare_from_rgba8(width: u32, height: u32, rgba: Vec<u8>, dst_size: u32) -> (r: Result<
    PreparedCubemap,
    CubemapError,
>)
    requires
        rgba@.len() >= 4 * width * height,
        dst_size > 0,
    ensures
        4 * width > u32::MAX <==> r is Err,
        r is Err ==> r matches Err(CubemapError::SourceTooWide),
        r matches Ok(p) ==> {
            &&& p.source.wf()
            &&& p.source.spec_width() == width
            &&& p.source.spec_height() == height
            &&& p.source.spec_rgba() == rgba@.take(4 * width * height)
            &&& p.plan == CubemapPlan::spec_new(dst_size)
        },
{
    match SourceImage::from_rgba8(width, height, rgba) {
        Err(e) => Err(e),
        Ok(source) => Ok(PreparedCubemap { source, plan: CubemapPlan::new(dst_size) }),
    }
}

/// Decodes `data` and plans a cube of `dst_size` texels a side. Whether the
/// bytes decode is the decoder's decision; `Decode` carries its error. A
/// decoded image goes through `prepare_from_rgba8`, so any other error is
/// `SourceTooWide`, and a success holds a well-formed source whose rows fit in
/// 32 bits together with the plan for `dst_size`.
pub fn prepare_cubemap(data: &[u8], dst_size: u32) -> (r: Result<PreparedCubemap, CubemapError>)
    requires
        dst_size > 0,
    ensures
        r matches Ok(p) ==> {
            &&& p.source.wf()
            &&& 4 * p.source.spec_width() <= u32::MAX
            &&& p.plan == CubemapPlan::spec_new(dst_size)
        },
{
    match decode_rgba8(data) {
        Err(e) => Err(CubemapError::Decode(e)),
        Ok((w, h, px)) => prepare_from_rgba8(w, h, px, dst_size),
    }
}

} // verus!
