//! The rasterizer adapter: wraps the external vector-rendering engine (usvg +
//! resvg) and the bitmap container (tiny-skia) behind trusted declarations,
//! and resolves a variant's exact pixel size.

use vstd::prelude::*;
use crate::icon::{wf_icon, Icon, IconV};

verus! {

#[verifier::external_type_specification]
#[verifier::external_body]
pub struct ExTree(usvg::Tree);

#[verifier::external_type_specification]
#[verifier::external_body]
pub struct ExPixmap(tiny_skia::Pixmap);

/// The pixel width of a bitmap.
pub uninterp spec fn pix_width(p: tiny_skia::Pixmap) -> u32;

/// The pixel height of a bitmap.
pub uninterp spec fn pix_height(p: tiny_skia::Pixmap) -> u32;

/// Relies on usvg::Tree::from_data: parses an SVG document from raw bytes.
/// The options are built here: usvg::Options::default(), the system fonts
/// loaded through fontdb::Database::load_system_fonts (for documents with
/// text), the given fallback font family, and the given base directory for
/// resolving relative resource references. What comes back depends on the
/// fonts and resources present on this machine, so nothing is promised of it.
#[verifier::external_body]
pub(crate) fn get_tree(
    svg_data: &Vec<u8>,
    resources_dir: &Option<String>,
    font_family: &str,
) -> (r: Option<usvg::Tree>) {
    let mut opt = usvg::Options::default();
    opt.fontdb.load_system_fonts();
    opt.font_family = font_family.to_string();
    opt.resources_dir = resources_dir.as_ref().map(|d| std::path::PathBuf::from(d));
    usvg::Tree::from_data(svg_data, &opt.to_ref()).ok()
}

/// Relies on tiny_skia::Pixmap::new: allocates a transparent bitmap of
/// exactly `size` by `size` pixels, and returns None when the size is zero
/// or too large for the allocator's limit.
#[verifier::external_body]
pub(crate) fn new_pixmap(size: u32) -> (r: Option<tiny_skia::Pixmap>)
    ensures
        r matches Some(p) ==> pix_width(p) == size && pix_height(p) == size,
{
    tiny_skia::Pixmap::new(size, size)
}

/// Relies on resvg::render: draws the document into the bitmap, scaled to
/// fit a `size` by `size` square, and returns None when the engine fails.
/// It writes pixels through a borrow that cannot resize the bitmap, so the
/// dimensions are unchanged whatever happens.
#[verifier::external_body]
pub(crate) fn render_into(tree: &usvg::Tree, size: u32, pixmap: &mut tiny_skia::Pixmap) -> (ok:
    bool)
    ensures
        pix_width(*final(pixmap)) == pix_width(*old(pixmap)),
        pix_height(*final(pixmap)) == pix_height(*old(pixmap)),
{
    resvg::render(tree, usvg::FitTo::Size(size, size), pixmap.as_mut()).is_some()
}

/// Relies on tiny_skia::Pixmap::encode_png: encodes the bitmap as lossless
/// PNG bytes, and returns None when encoding fails.
#[verifier::external_body]
pub(crate) fn encode_png(pixmap: &tiny_skia::Pixmap) -> (r: Option<Vec<u8>>) {
    pixmap.encode_png().ok()
}

/// The exact pixel edge of a variant's output bitmap: its point size times
/// its scale, with a half rounded up.
pub open spec fn spec_pixel_size(v: IconV) -> int {
    (v.size_half_points * v.scale + 1) / 2
}

/// Resolves a variant's pixel size; always at least one pixel.
pub fn pixel_size(icon: &Icon) -> (r: u32)
    requires
        wf_icon(icon@),
    ensures
        r == spec_pixel_size(icon@),
        r >= 1,
{
    proof {
        assert(icon.size.half_points * icon.scale <= 0x1000_0000 * 3) by (nonlinear_arith)
            requires
                icon.size.half_points <= 0x1000_0000,
                icon.scale <= 3,
        ;
        assert(icon.size.half_points * icon.scale >= 1) by (nonlinear_arith)
            requires
                icon.size.half_points >= 1,
                icon.scale >= 1,
        ;
    }
    (icon.size.half_points * icon.scale + 1) / 2
}

/// Rasterizes one variant: on success the bitmap is square with exactly
/// `round(size * scale)` pixels a side.
pub fn render_icon(tree: &usvg::Tree, icon: &Icon) -> (r: Option<tiny_skia::Pixmap>)
    requires
        wf_icon(icon@),
    ensures
        r matches Some(p) ==> pix_width(p) == spec_pixel_size(icon@) && pix_height(p)
            == spec_pixel_size(icon@),
{
    let size = pixel_size(icon);
    match new_pixmap(size) {
        Some(mut pixmap) => {
            if render_into(tree, size, &mut pixmap) {
                Some(pixmap)
            } else {
                None
            }
        },
        None => None,
    }
}

} // verus!
