use vstd::prelude::*;
use crate::background::{fill_background, spec_background_fill, BackgroundWork};
use crate::blur::{
    is_job_for, needs_blur, store_blurred, updated_cache, BlurKey, BlurredImage,
};
use crate::dirty::{
    calculate_bounds, dirty_rows, layer_span, lemma_dirty_rows_monotone, spec_dirty_rows, Span,
};
use crate::fixed::Fixed;
use crate::rasterizer::{layer_commands, render_layer, DrawCommand};
use crate::scene::Scene;
use crate::surface::{
    copy_range, is_well_formed, pixmap_bytes, pixmap_size, surface_len, valid_surface_size,
    well_formed,
};

verus! {

/// What the rasterizer has to do to the background surface, in this order,
/// before the frame is put together.
pub struct LayerWork {
    /// How the background is started anew.
    pub background: BackgroundWork,
    /// The commands that draw the bottom layer over the background.
    pub bottom_layer: Vec<DrawCommand>,
}

/// What is left to do once a frame has been put together.
pub struct Frame {
    /// The size that the layout would like to have. It is a hint: the frame
    /// has the size that was asked for.
    pub new_resolution: Option<[Fixed; 2]>,
    /// The commands that draw the top layer onto the frame.
    pub top_layer: Vec<DrawCommand>,
}

/// Whether the work is what repainting the background takes for a scene
/// shown with the given resolution, where the blurred background image is
/// kept under `cached`: the fill of the scene's background, the job that
/// gives the blurred image where one is needed and missing, and the commands
/// of the bottom layer.
pub open spec fn is_work_for(
    work: LayerWork,
    scene: Scene,
    resolution: [u32; 2],
    cached: Option<BlurKey>,
) -> bool {
    &&& work.bottom_layer@ == layer_commands(scene.bottom_layer@)
    &&& work.background.fill == spec_background_fill(
        scene.background,
        resolution[0],
        resolution[1],
    )
    &&& work.background.blur is Some <==> needs_blur(cached, scene.background)
    &&& work.background.blur matches Some(job) ==> is_job_for(job, scene.background)
}

/// The frame that comes of copying the bytes from `first` up to `end` out of
/// the background over what the image held.
pub open spec fn composited(image: Seq<u8>, background: Seq<u8>, first: int, end: int) -> Seq<u8> {
    Seq::new(
        image.len(),
        |i: int|
            if first <= i < end {
                background[i]
            } else {
                image[i]
            },
    )
}

/// The bytes of a surface with rows of `stride` pixels that the rows of a
/// span take up, from the first up to, not including, the second.
pub open spec fn dirty_bytes(span: Span, stride: u32, height: u32) -> (int, int) {
    let rows = spec_dirty_rows(span, height);
    (4 * stride * rows.0, 4 * stride * rows.1)
}

/// The frame that `render` leaves in an image with rows of `stride` pixels:
/// the whole background where `whole` is set, else the image with the rows
/// that the span makes dirty copied out of the background.
pub open spec fn rendered(
    image: Seq<u8>,
    background: Seq<u8>,
    span: Span,
    stride: u32,
    height: u32,
    whole: bool,
) -> Seq<u8> {
    if whole {
        background
    } else {
        let dirty = dirty_bytes(span, stride, height);
        composited(image, background, dirty.0, dirty.1)
    }
}

/// Whether the byte at `i` lies in a row that the span makes dirty.
pub open spec fn is_dirty(i: int, span: Span, stride: u32, height: u32) -> bool {
    dirty_bytes(span, stride, height).0 <= i < dirty_bytes(span, stride, height).1
}

/// A renderer that draws into an image that the caller keeps. It holds the
/// background with the bottom layer on it, the span that the top layer took
/// up in the frame before, the blurred background image, and whether the
/// background surface has been replaced since the last frame.
pub struct BorrowedRenderer {
    blurred_background_image: Option<BlurredImage>,
    background: tiny_skia::Pixmap,
    span: Span,
    invalidated: bool,
}

impl BorrowedRenderer {
    /// The bytes of the background surface.
    pub closed spec fn background_bytes(&self) -> Seq<u8> {
        pixmap_bytes(self.background)
    }

    /// The width and the height of the background surface.
    pub closed spec fn background_size(&self) -> (u32, u32) {
        pixmap_size(self.background)
    }

    /// Whether the background surface holds four bytes for each pixel of a
    /// size that a surface can have.
    pub closed spec fn background_well_formed(&self) -> bool {
        well_formed(self.background)
    }

    /// Whether the background surface is one for an image of the given
    /// height whose rows hold `stride` pixels.
    pub open spec fn ready_for(&self, stride: u32, height: u32) -> bool {
        self.background_size() == (stride, height) && self.background_well_formed()
    }

    /// Whether the background surface has been replaced since the last
    /// frame, so that the next frame has to show all of it.
    pub closed spec fn invalidated(&self) -> bool {
        self.invalidated
    }

    /// The span that the top layer took up in the frame before.
    pub closed spec fn span(&self) -> Span {
        self.span
    }

    /// A background surface that is ready for an image of `stride` by
    /// `height` pixels holds four bytes for each pixel of such an image, and
    /// a surface can have that size.
    pub proof fn lemma_ready_has_size(self, stride: u32, height: u32)
        requires
            self.ready_for(stride, height),
        ensures
            self.background_bytes().len() == surface_len(stride, height),
            valid_surface_size(stride, height),
    {
    }

    /// The blurred background image that is kept.
    pub closed spec fn blurred(&self) -> Option<BlurredImage> {
        self.blurred_background_image
    }

    /// What the blurred background image is kept under.
    pub open spec fn blur_key(&self) -> Option<BlurKey> {
        match self.blurred() {
            Some(blurred) => Some(blurred.key),
            None => None,
        }
    }

    /// A renderer that has drawn nothing yet: its background is a single
    /// transparent pixel, and no row has been touched.
    pub fn new() -> (r: Self)
        ensures
            r.ready_for(1, 1),
            r.background_size() == (1u32, 1u32),
            r.background_bytes() == Seq::new(4, |i: int| 0u8),
            r.span() == Span::spec_empty(),
            r.blurred() is None,
            !r.invalidated(),
    {
        let background = match tiny_skia::Pixmap::new(1, 1) {
            Some(background) => background,
            None => {
                proof {
                    assert(valid_surface_size(1, 1));
                }
                unreached()
            },
        };
        BorrowedRenderer {
            blurred_background_image: None,
            background,
            span: Span::empty(),
            invalidated: false,
        }
    }

    /// The width of the background surface.
    pub fn background_width(&self) -> (r: u32)
        ensures
            r == self.background_size().0,
    {
        self.background.width()
    }

    /// The height of the background surface.
    pub fn background_height(&self) -> (r: u32)
        ensures
            r == self.background_size().1,
    {
        self.background.height()
    }

    /// Whether the background surface is one for an image of the given
    /// height whose rows hold `stride` pixels, as it is once `prepare` has
    /// been called for such an image.
    pub fn is_ready_for(&self, stride: u32, height: u32) -> (r: bool)
        ensures
            r == self.ready_for(stride, height),
            r ==> self.background_size() == (stride, height) && self.background_bytes().len()
                == surface_len(stride, height),
    {
        stride == self.background.width() && height == self.background.height() && is_well_formed(
            &self.background,
        )
    }

    /// Whether the background surface has been replaced since the last
    /// frame.
    pub fn is_invalidated(&self) -> (r: bool)
        ensures
            r == self.invalidated(),
    {
        self.invalidated
    }

    /// The background surface, for reading.
    pub fn background(&self) -> (r: &tiny_skia::Pixmap)
        ensures
            pixmap_bytes(*r) == self.background_bytes(),
            pixmap_size(*r) == self.background_size(),
    {
        &self.background
    }

    /// The background surface, for the rasterizer to paint on.
    pub fn background_mut(&mut self) -> (r: &mut tiny_skia::Pixmap)
        ensures
            pixmap_bytes(*r) == old(self).background_bytes(),
            pixmap_size(*r) == old(self).background_size(),
            final(self).background_bytes() == pixmap_bytes(*final(r)),
            final(self).background_size() == pixmap_size(*final(r)),
            final(self).background_well_formed() == well_formed(*final(r)),
            final(self).span() == old(self).span(),
            final(self).blurred() == old(self).blurred(),
            final(self).invalidated() == old(self).invalidated(),
    {
        &mut self.background
    }

    /// The background surface, for the rasterizer to paint on, together with
    /// the blurred background image to paint with.
    pub fn surfaces(&mut self) -> (r: (&mut tiny_skia::Pixmap, Option<&tiny_skia::Pixmap>))
        ensures
            pixmap_bytes(*r.0) == old(self).background_bytes(),
            pixmap_size(*r.0) == old(self).background_size(),
            match r.1 {
                Some(pixmap) => old(self).blurred() matches Some(blurred) && blurred.pixmap
                    == *pixmap,
                None => old(self).blurred() is None,
            },
            final(self).background_bytes() == pixmap_bytes(*final(r.0)),
            final(self).background_size() == pixmap_size(*final(r.0)),
            final(self).background_well_formed() == well_formed(*final(r.0)),
            final(self).span() == old(self).span(),
            final(self).blurred() == old(self).blurred(),
            final(self).invalidated() == old(self).invalidated(),
    {
        let blurred = match &self.blurred_background_image {
            Some(blurred) => Some(&blurred.pixmap),
            None => None,
        };
        (&mut self.background, blurred)
    }

    /// The blurred background image, for the rasterizer to paint with.
    pub fn blurred_background_image(&self) -> (r: Option<&tiny_skia::Pixmap>)
        ensures
            match r {
                Some(pixmap) => self.blurred() matches Some(blurred) && blurred.pixmap == *pixmap,
                None => self.blurred() is None,
            },
    {
        match &self.blurred_background_image {
            Some(blurred) => Some(&blurred.pixmap),
            None => None,
        }
    }

    /// Keeps the result of a blur job as the blurred background image.
    /// Nothing changes where the bytes are not four for each pixel of a size
    /// that a surface can have.
    pub fn store_blurred(&mut self, key: BlurKey, pixels: Vec<u8>, width: u32, height: u32) -> (stored:
        bool)
        ensures
            stored <==> valid_surface_size(width, height) && pixels@.len() == surface_len(
                width,
                height,
            ),
            stored ==> (final(self).blurred() matches Some(blurred) && blurred.key == key
                && pixmap_bytes(blurred.pixmap) == pixels@ && pixmap_size(blurred.pixmap) == (
                width,
                height,
            )),
            !stored ==> final(self).blurred() == old(self).blurred(),
            final(self).background_bytes() == old(self).background_bytes(),
            final(self).background_size() == old(self).background_size(),
            final(self).background_well_formed() == old(self).background_well_formed(),
            final(self).span() == old(self).span(),
            final(self).invalidated() == old(self).invalidated(),
    {
        store_blurred(&mut self.blurred_background_image, key, pixels, width, height)
    }

    /// Gets the background surface ready for a frame of the scene on an image
    /// with rows of `stride` pixels, of which `resolution` holds the width
    /// and the height that are shown.
    ///
    /// A surface that is not one for such an image is replaced by a
    /// transparent one of `stride` by the height, and all that it showed is
    /// lost. Where the surface was replaced or the scene's bottom layer has
    /// changed, the background is started anew and the work comes back that
    /// the rasterizer has to do on the background surface. Else nothing comes
    /// back and the surface keeps what it holds. The frame after a
    /// replacement shows all of the background.
    pub fn prepare(&mut self, scene: &Scene, resolution: [u32; 2], stride: u32) -> (work: Option<
        LayerWork,
    >)
        requires
            valid_surface_size(stride, resolution[1]),
        ensures
            final(self).ready_for(stride, resolution[1]),
            final(self).background_size() == (stride, resolution[1]),
            final(self).background_bytes().len() == surface_len(stride, resolution[1]),
            final(self).span() == old(self).span(),
            final(self).invalidated() == (old(self).invalidated() || !old(self).ready_for(
                stride,
                resolution[1],
            )),
            work is Some <==> scene.bottom_layer_changed || !old(self).ready_for(
                stride,
                resolution[1],
            ),
            final(self).background_bytes() == if !old(self).ready_for(stride, resolution[1]) || (
            scene.bottom_layer_changed && scene.background is None) {
                Seq::new(surface_len(stride, resolution[1]) as nat, |i: int| 0u8)
            } else {
                old(self).background_bytes()
            },
            work is None ==> final(self).blurred() == old(self).blurred(),
            work is Some ==> final(self).blurred() == updated_cache(
                old(self).blurred(),
                scene.background,
            ),
            work matches Some(work) ==> is_work_for(work, *scene, resolution, old(self).blur_key()),
    {
        let width = resolution[0];
        let height = resolution[1];
        let replaced = !self.is_ready_for(stride, height);
        if replaced {
            self.background = match tiny_skia::Pixmap::new(stride, height) {
                Some(background) => background,
                None => unreached(),
            };
            self.invalidated = true;
        }
        if replaced || scene.bottom_layer_changed() {
            let background = fill_background(
                scene.background(),
                &mut self.blurred_background_image,
                &mut self.background,
                width,
                height,
            );
            let bottom_layer = render_layer(scene.bottom_layer());
            Some(LayerWork { background, bottom_layer })
        } else {
            None
        }
    }

    /// Puts a frame together in `image`, whose rows hold `stride` pixels.
    ///
    /// The span of the top layer is worked out and kept for the next frame.
    /// Where a redraw is forced, the bottom layer has changed or the
    /// background surface has been replaced since the last frame, the whole
    /// background is copied into the image. Else only the rows are copied
    /// that the top layer touches in this frame or touched in the one before,
    /// and every other byte of the image stays as it was. The commands that
    /// come back draw the top layer onto the image. The hint at a new
    /// resolution is handed on as it came.
    pub fn render(
        &mut self,
        scene: &Scene,
        image: &mut [u8],
        resolution: [u32; 2],
        stride: u32,
        force_redraw: bool,
        new_resolution: Option<[Fixed; 2]>,
    ) -> (frame: Frame)
        requires
            old(self).ready_for(stride, resolution[1]),
            old(image)@.len() == surface_len(stride, resolution[1]),
        ensures
            final(self).ready_for(stride, resolution[1]),
            final(self).background_bytes() == old(self).background_bytes(),
            final(self).background_size() == (stride, resolution[1]),
            final(self).background_size() == old(self).background_size(),
            final(self).blurred() == old(self).blurred(),
            final(self).span() == layer_span(scene.top_layer@),
            !final(self).invalidated(),
            final(image)@ == rendered(
                old(image)@,
                old(self).background_bytes(),
                old(self).span().spec_union(layer_span(scene.top_layer@)),
                stride,
                resolution[1],
                force_redraw || scene.bottom_layer_changed || old(self).invalidated(),
            ),
            !force_redraw && !scene.bottom_layer_changed && !old(self).invalidated() ==> forall|i: int|
                #![trigger final(image)@[i]]
                0 <= i < old(image)@.len() && !is_dirty(
                    i,
                    old(self).span().spec_union(layer_span(scene.top_layer@)),
                    stride,
                    resolution[1],
                ) ==> final(image)@[i] == old(image)@[i],
            final(image)@.len() == old(image)@.len(),
            frame.top_layer@ == layer_commands(scene.top_layer@),
            frame.new_resolution == new_resolution,
    {
        let height = resolution[1];
        let top_layer = scene.top_layer();
        let span = calculate_bounds(top_layer);
        let merged = self.span.union(&span);
        self.span = span;
        let whole = force_redraw || scene.bottom_layer_changed() || self.invalidated;
        self.invalidated = false;
        let background = self.background.data();
        let total = background.len();
        if whole {
            copy_range(image, background, 0, total);
            assert(image@ =~= background@);
        } else {
            let rows = dirty_rows(&merged, height);
            assert(4 * stride <= 4 * stride * height && 4 * stride * rows.0 <= 4 * stride * rows.1
                <= 4 * stride * height) by (nonlinear_arith)
                requires
                    rows.0 <= rows.1 <= height,
                    height >= 1,
                    stride >= 0,
            ;
            let row_bytes: usize = 4 * (stride as usize);
            let first: usize = row_bytes * (rows.0 as usize);
            let end: usize = row_bytes * (rows.1 as usize);
            copy_range(image, background, first, end);
            assert(image@ =~= composited(old(image)@, background@, first as int, end as int));
        }
        Frame { new_resolution, top_layer: render_layer(top_layer) }
    }
}

impl Default for BorrowedRenderer {
    fn default() -> (r: Self)
        ensures
            r.ready_for(1, 1),
            r.background_size() == (1u32, 1u32),
            r.span() == Span::spec_empty(),
            r.blurred() is None,
            !r.invalidated(),
    {
        BorrowedRenderer::new()
    }
}

/// A renderer that keeps the image it draws into.
pub struct Renderer {
    renderer: BorrowedRenderer,
    frame_buffer: tiny_skia::Pixmap,
}

impl Renderer {
    /// The renderer underneath, which keeps the background.
    pub closed spec fn inner(&self) -> BorrowedRenderer {
        self.renderer
    }

    /// The bytes of the image.
    pub closed spec fn frame_bytes(&self) -> Seq<u8> {
        pixmap_bytes(self.frame_buffer)
    }

    /// The width and the height of the image.
    pub closed spec fn frame_size(&self) -> (u32, u32) {
        pixmap_size(self.frame_buffer)
    }

    /// Whether the image holds four bytes for each pixel of a size that a
    /// surface can have.
    pub closed spec fn frame_well_formed(&self) -> bool {
        well_formed(self.frame_buffer)
    }

    /// Whether the image has the given resolution and holds four bytes for
    /// each of its pixels.
    pub open spec fn frame_ready_for(&self, width: u32, height: u32) -> bool {
        self.frame_size() == (width, height) && self.frame_well_formed()
    }

    /// A renderer that has drawn nothing yet: its image is a single
    /// transparent pixel.
    pub fn new() -> (r: Self)
        ensures
            r.frame_ready_for(1, 1),
            r.frame_size() == (1u32, 1u32),
            r.frame_bytes() == Seq::new(4, |i: int| 0u8),
            r.inner().ready_for(1, 1),
            r.inner().background_size() == (1u32, 1u32),
            r.inner().background_bytes() == Seq::new(4, |i: int| 0u8),
            r.inner().span() == Span::spec_empty(),
            r.inner().blurred() is None,
            !r.inner().invalidated(),
    {
        let frame_buffer = match tiny_skia::Pixmap::new(1, 1) {
            Some(frame_buffer) => frame_buffer,
            None => {
                proof {
                    assert(valid_surface_size(1, 1));
                }
                unreached()
            },
        };
        Renderer { renderer: BorrowedRenderer::new(), frame_buffer }
    }

    /// The width of the image.
    pub fn width(&self) -> (r: u32)
        ensures
            r == self.frame_size().0,
    {
        self.frame_buffer.width()
    }

    /// The height of the image.
    pub fn height(&self) -> (r: u32)
        ensures
            r == self.frame_size().1,
    {
        self.frame_buffer.height()
    }

    /// The renderer underneath, for reading.
    pub fn borrowed(&self) -> (r: &BorrowedRenderer)
        ensures
            *r == self.inner(),
    {
        &self.renderer
    }

    /// The renderer underneath, to prepare its background and to keep a
    /// blurred image in it.
    pub fn borrowed_mut(&mut self) -> (r: &mut BorrowedRenderer)
        ensures
            *r == old(self).inner(),
            final(self).inner() == *final(r),
            final(self).frame_bytes() == old(self).frame_bytes(),
            final(self).frame_size() == old(self).frame_size(),
            final(self).frame_well_formed() == old(self).frame_well_formed(),
    {
        &mut self.renderer
    }

    /// The image, for the rasterizer to paint on.
    pub fn frame_buffer_mut(&mut self) -> (r: &mut tiny_skia::Pixmap)
        ensures
            pixmap_bytes(*r) == old(self).frame_bytes(),
            pixmap_size(*r) == old(self).frame_size(),
            final(self).frame_bytes() == pixmap_bytes(*final(r)),
            final(self).frame_size() == pixmap_size(*final(r)),
            final(self).frame_well_formed() == well_formed(*final(r)),
            final(self).inner() == old(self).inner(),
    {
        &mut self.frame_buffer
    }

    /// Gets the background surface ready for a frame of the scene with the
    /// given resolution, as `BorrowedRenderer::prepare` does for an image
    /// whose rows are as long as they are shown.
    pub fn prepare(&mut self, scene: &Scene, resolution: [u32; 2]) -> (work: Option<LayerWork>)
        requires
            valid_surface_size(resolution[0], resolution[1]),
        ensures
            final(self).frame_bytes() == old(self).frame_bytes(),
            final(self).frame_size() == old(self).frame_size(),
            final(self).frame_well_formed() == old(self).frame_well_formed(),
            final(self).inner().ready_for(resolution[0], resolution[1]),
            final(self).inner().background_size() == (resolution[0], resolution[1]),
            final(self).inner().span() == old(self).inner().span(),
            final(self).inner().invalidated() == (old(self).inner().invalidated() || !old(
                self,
            ).inner().ready_for(resolution[0], resolution[1])),
            work is Some <==> scene.bottom_layer_changed || !old(self).inner().ready_for(
                resolution[0],
                resolution[1],
            ),
            final(self).inner().background_bytes() == if !old(self).inner().ready_for(
                resolution[0],
                resolution[1],
            ) || (scene.bottom_layer_changed && scene.background is None) {
                Seq::new(surface_len(resolution[0], resolution[1]) as nat, |i: int| 0u8)
            } else {
                old(self).inner().background_bytes()
            },
            work is None ==> final(self).inner().blurred() == old(self).inner().blurred(),
            work is Some ==> final(self).inner().blurred() == updated_cache(
                old(self).inner().blurred(),
                scene.background,
            ),
            work matches Some(work) ==> is_work_for(
                work,
                *scene,
                resolution,
                old(self).inner().blur_key(),
            ),
    {
        self.renderer.prepare(scene, resolution, resolution[0])
    }

    /// Puts a frame of the given resolution together in the renderer's own
    /// image. An image that is not one of that resolution is replaced by a
    /// new one first, into which the whole background is copied. Else the
    /// frame is put together as `BorrowedRenderer::render` does without a
    /// forced redraw.
    pub fn render(
        &mut self,
        scene: &Scene,
        resolution: [u32; 2],
        new_resolution: Option<[Fixed; 2]>,
    ) -> (frame: Frame)
        requires
            old(self).inner().ready_for(resolution[0], resolution[1]),
        ensures
            final(self).frame_ready_for(resolution[0], resolution[1]),
            final(self).inner().ready_for(resolution[0], resolution[1]),
            final(self).frame_size() == (resolution[0], resolution[1]),
            final(self).frame_bytes().len() == surface_len(resolution[0], resolution[1]),
            final(self).inner().background_bytes() == old(self).inner().background_bytes(),
            final(self).inner().background_size() == (resolution[0], resolution[1]),
            final(self).inner().blurred() == old(self).inner().blurred(),
            final(self).inner().span() == layer_span(scene.top_layer@),
            !final(self).inner().invalidated(),
            final(self).frame_bytes() == rendered(
                old(self).frame_bytes(),
                old(self).inner().background_bytes(),
                old(self).inner().span().spec_union(layer_span(scene.top_layer@)),
                resolution[0],
                resolution[1],
                scene.bottom_layer_changed || old(self).inner().invalidated() || !old(
                    self,
                ).frame_ready_for(resolution[0], resolution[1]),
            ),
            frame.top_layer@ == layer_commands(scene.top_layer@),
            frame.new_resolution == new_resolution,
    {
        let width = resolution[0];
        let height = resolution[1];
        let replaced = !(width == self.frame_buffer.width() && height
            == self.frame_buffer.height() && is_well_formed(&self.frame_buffer));
        if replaced {
            self.frame_buffer = match tiny_skia::Pixmap::new(width, height) {
                Some(frame_buffer) => frame_buffer,
                None => unreached(),
            };
        }
        self.renderer.render(
            scene,
            self.frame_buffer.data_mut(),
            resolution,
            width,
            replaced,
            new_resolution,
        )
    }

    /// The image as bytes, four to a pixel: red, green, blue and alpha.
    pub fn image_data(&self) -> (r: &[u8])
        ensures
            r@ == self.frame_bytes(),
    {
        self.frame_buffer.data()
    }

    /// Gives up the renderer for the bytes of its image.
    pub fn into_image_data(self) -> (r: Vec<u8>)
        ensures
            r@ == self.frame_bytes(),
    {
        self.frame_buffer.take()
    }
}

impl Default for Renderer {
    fn default() -> (r: Self)
        ensures
            r.frame_ready_for(1, 1),
            r.frame_size() == (1u32, 1u32),
            r.inner().ready_for(1, 1),
            r.inner().span() == Span::spec_empty(),
            !r.inner().invalidated(),
    {
        Renderer::new()
    }
}

/// Whether the frame shows the background in every row that the span makes
/// dirty.
pub open spec fn shows_background(
    frame: Seq<u8>,
    background: Seq<u8>,
    span: Span,
    stride: u32,
    height: u32,
) -> bool {
    forall|i: int|
        0 <= i < frame.len() && is_dirty(i, span, stride, height) ==> frame[i] == background[i]
}

/// Whether painting leaves the length of a frame of `len` bytes, and every
/// byte outside the rows that the span makes dirty, as they were.
pub open spec fn paints_within(
    paint: spec_fn(Seq<u8>) -> Seq<u8>,
    len: nat,
    span: Span,
    stride: u32,
    height: u32,
) -> bool {
    forall|frame: Seq<u8>|
        #![trigger paint(frame)]
        frame.len() == len ==> paint(frame).len() == len && forall|i: int|
            0 <= i < len && !is_dirty(i, span, stride, height) ==> paint(frame)[i] == frame[i]
}

/// Putting the same frame together twice gives the same image as doing it
/// once.
pub proof fn lemma_render_idempotent(
    image: Seq<u8>,
    background: Seq<u8>,
    span: Span,
    stride: u32,
    height: u32,
    whole: bool,
)
    requires
        background.len() == image.len(),
    ensures
        rendered(
            rendered(image, background, span, stride, height, whole),
            background,
            span,
            stride,
            height,
            whole,
        ) == rendered(image, background, span, stride, height, whole),
{
}

/// A frame as `render` leaves it shows the background in the rows that the
/// span of its top layer makes dirty, whether all of the background was
/// copied or the rows of that span and of the span of the frame before.
pub proof fn lemma_frame_shows_background(
    image: Seq<u8>,
    background: Seq<u8>,
    earlier: Span,
    span: Span,
    stride: u32,
    height: u32,
    whole: bool,
)
    requires
        background.len() == image.len(),
    ensures
        shows_background(
            rendered(image, background, earlier.spec_union(span), stride, height, whole),
            background,
            span,
            stride,
            height,
        ),
{
    let merged = earlier.spec_union(span);
    if !span.spec_is_empty() {
        lemma_dirty_rows_monotone(span, merged, height);
        let inner = spec_dirty_rows(span, height);
        let outer = spec_dirty_rows(merged, height);
        assert(4 * stride * outer.0 <= 4 * stride * inner.0 && 4 * stride * inner.1 <= 4 * stride
            * outer.1) by (nonlinear_arith)
            requires
                outer.0 <= inner.0,
                inner.1 <= outer.1,
                stride >= 0,
        ;
    }
}

/// A frame drawn again without any change comes out as before.
///
/// `frame` is an image as `render` left it for a top layer with the span
/// `span`, so that it shows the background in the rows that the span makes
/// dirty. `paint` is what drawing the top layer does to an image: it changes
/// bytes in the rows that the span makes dirty and no others. The image is
/// painted, then the next frame is put together from it for the same top
/// layer, without a forced redraw or a change to the bottom layer, and
/// painted again: the second image is the first.
pub proof fn lemma_unchanged_frame_repeats(
    frame: Seq<u8>,
    background: Seq<u8>,
    span: Span,
    stride: u32,
    height: u32,
    paint: spec_fn(Seq<u8>) -> Seq<u8>,
)
    requires
        background.len() == frame.len(),
        shows_background(frame, background, span, stride, height),
        paints_within(paint, frame.len(), span, stride, height),
    ensures
        paint(rendered(paint(frame), background, span.spec_union(span), stride, height, false))
            == paint(frame),
{
    assert(span.spec_union(span) == span);
    assert(rendered(paint(frame), background, span, stride, height, false) =~= frame);
}

} // verus!
