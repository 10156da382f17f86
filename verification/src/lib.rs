//! A library that turns one vector image per platform into the complete set of
//! raster application icons that the platform's build toolchain requires,
//! together with the `Contents.json` manifest describing every produced image.

use vstd::prelude::*;

pub mod decimal;
pub mod icon;
pub mod manifest;
pub mod render;

use crate::decimal::{spec_dec, u32_to_dec};
use crate::icon::{
    ios_icons, lemma_catalogs_wf, mac_icons, spec_ios_icons, spec_mac_icons, spec_watch_icons,
    views, watch_icons, wf_icon, wf_icons, Icon, IconV,
};
use crate::manifest::{
    flat_views, get_json_str, lemma_flat_views_concat, lemma_flat_views_singleton, set_views,
    spec_manifest,
};
use crate::render::{encode_png, get_tree, pixel_size, render_icon};

verus! {

/// A vector source document: either its raw encoded bytes, or the path of a
/// file holding them.
pub enum SVG {
    Data(Vec<u8>),
    File(String),
}

/// One pipeline invocation's configuration: the output directory, and up to
/// one vector source per platform. A platform without a source is excluded
/// from rasterization and from the manifest.
pub struct Config {
    pub assets_path: String,
    pub svg_ios: Option<SVG>,
    pub svg_mac: Option<SVG>,
    pub svg_watch: Option<SVG>,
}

/// Why a run failed; every error is fatal to the whole run.
#[derive(Debug)]
pub enum IconError {
    /// No platform was requested, so there is nothing to do.
    ConfigurationError,
    /// The output directory could not be reset or created; holds its path.
    DirectoryError(String),
    /// A vector source could not be read; holds its path.
    SourceReadError(String),
    /// A vector source could not be parsed; holds its platform's name.
    SourceFormatError(String),
    /// The rendering engine failed on one variant; holds its filename and
    /// pixel size.
    RenderError(String, u32),
    /// A raster file or the manifest could not be produced; holds its name.
    WriteError(String),
}

/// The attributed text of an error: the failing stage, and where it applies
/// the platform, variant or file concerned.
pub open spec fn spec_error_message(e: &IconError) -> Seq<char> {
    match e {
        IconError::ConfigurationError => "no platform was requested: nothing to generate"@,
        IconError::DirectoryError(p) => "failed to reset the output directory "@ + p@,
        IconError::SourceReadError(p) => "failed to read the vector source "@ + p@,
        IconError::SourceFormatError(pl) => "failed to parse the vector source for "@ + pl@,
        IconError::RenderError(f, px) => "failed to render "@ + f@ + " at "@ + spec_dec(*px as int)
            + " pixels"@,
        IconError::WriteError(f) => "failed to write "@ + f@,
    }
}

impl IconError {
    /// The attributed, user-visible text of this error.
    pub fn message(&self) -> (r: String)
        ensures
            r@ == spec_error_message(self),
    {
        match self {
            IconError::ConfigurationError => String::from_str(
                "no platform was requested: nothing to generate",
            ),
            IconError::DirectoryError(p) => {
                let mut s = String::from_str("failed to reset the output directory ");
                s.append(p.as_str());
                s
            },
            IconError::SourceReadError(p) => {
                let mut s = String::from_str("failed to read the vector source ");
                s.append(p.as_str());
                s
            },
            IconError::SourceFormatError(pl) => {
                let mut s = String::from_str("failed to parse the vector source for ");
                s.append(pl.as_str());
                s
            },
            IconError::RenderError(f, px) => {
                let mut s = String::from_str("failed to render ");
                s.append(f.as_str());
                s.append(" at ");
                let px_text = u32_to_dec(*px);
                s.append(px_text.as_str());
                s.append(" pixels");
                s
            },
            IconError::WriteError(f) => {
                let mut s = String::from_str("failed to write ");
                s.append(f.as_str());
                s
            },
        }
    }
}

/// A vector source already loaded into memory: its bytes, and for a
/// file-based source the directory its relative resource references resolve
/// against.
pub struct LoadedSource {
    pub data: Vec<u8>,
    pub resources_dir: Option<String>,
}

/// One produced raster image: its output filename and its encoded PNG bytes.
pub struct RasterFile {
    pub filename: String,
    pub data: Vec<u8>,
}

/// Everything one run produces: the raster files of every requested
/// platform's catalog, in order, and the manifest covering exactly those
/// platforms.
pub struct Bundle {
    pub files: Vec<RasterFile>,
    pub manifest: String,
}

/// The filenames of a sequence of variants, in order.
pub open spec fn filenames(s: Seq<IconV>) -> Seq<Seq<char>> {
    s.map_values(|v: IconV| v.filename)
}

/// The filenames of a sequence of produced raster files, in order.
pub open spec fn file_names(s: Seq<RasterFile>) -> Seq<Seq<char>> {
    s.map_values(|f: RasterFile| f.filename@)
}

proof fn lemma_filenames_concat(a: Seq<IconV>, b: Seq<IconV>)
    ensures
        filenames(a + b) == filenames(a) + filenames(b),
{
    assert(filenames(a + b) =~= filenames(a) + filenames(b));
}

proof fn lemma_file_names_concat(a: Seq<RasterFile>, b: Seq<RasterFile>)
    ensures
        file_names(a + b) == file_names(a) + file_names(b),
{
    assert(file_names(a + b) =~= file_names(a) + file_names(b));
}

/// The ordered selection of catalogs a request resolves to: one catalog per
/// requested platform, in the fixed mobile, desktop, wearable order.
pub open spec fn spec_icons_sets(ios: bool, mac: bool, watch: bool) -> Seq<Seq<IconV>> {
    (if ios {
        seq![spec_ios_icons()]
    } else {
        Seq::<Seq<IconV>>::empty()
    }) + (if mac {
        seq![spec_mac_icons()]
    } else {
        Seq::<Seq<IconV>>::empty()
    }) + (if watch {
        seq![spec_watch_icons()]
    } else {
        Seq::<Seq<IconV>>::empty()
    })
}

/// The variants a request resolves to, in catalog-then-variant order.
pub open spec fn spec_selected_icons(ios: bool, mac: bool, watch: bool) -> Seq<IconV> {
    (if ios {
        spec_ios_icons()
    } else {
        Seq::<IconV>::empty()
    }) + (if mac {
        spec_mac_icons()
    } else {
        Seq::<IconV>::empty()
    }) + (if watch {
        spec_watch_icons()
    } else {
        Seq::<IconV>::empty()
    })
}

/// The variants of a request's catalog selection, flattened in order, are
/// exactly the variants the pipeline rasterizes for that request: the
/// manifest's entries and the produced files describe the same variants.
pub proof fn lemma_sets_flatten(ios: bool, mac: bool, watch: bool)
    ensures
        flat_views(spec_icons_sets(ios, mac, watch)) == spec_selected_icons(ios, mac, watch),
{
    let a = if ios {
        seq![spec_ios_icons()]
    } else {
        Seq::<Seq<IconV>>::empty()
    };
    let b = if mac {
        seq![spec_mac_icons()]
    } else {
        Seq::<Seq<IconV>>::empty()
    };
    let c = if watch {
        seq![spec_watch_icons()]
    } else {
        Seq::<Seq<IconV>>::empty()
    };
    lemma_flat_views_concat(a, b);
    lemma_flat_views_concat(a + b, c);
    lemma_flat_views_singleton(spec_ios_icons());
    lemma_flat_views_singleton(spec_mac_icons());
    lemma_flat_views_singleton(spec_watch_icons());
    assert(flat_views(a) + flat_views(b) + flat_views(c) =~= spec_selected_icons(
        ios,
        mac,
        watch,
    ));
}

/// The manifest's `images` array covers exactly the requested platforms, in
/// request order: its entry count — like the produced file count — is the
/// sum of the catalog lengths over the requested platforms alone, 18 for
/// mobile, 10 for desktop and 11 for wearable. (Requesting no platform never
/// reaches the manifest: the pipeline answers with its configuration error
/// instead.)
pub proof fn lemma_manifest_count(ios: bool, mac: bool, watch: bool)
    ensures
        flat_views(spec_icons_sets(ios, mac, watch)).len() == (if ios {
            18int
        } else {
            0int
        }) + (if mac {
            10int
        } else {
            0int
        }) + (if watch {
            11int
        } else {
            0int
        }),
        spec_selected_icons(ios, mac, watch).len() == flat_views(
            spec_icons_sets(ios, mac, watch),
        ).len(),
{
    lemma_sets_flatten(ios, mac, watch);
}

/// Determinism: what the pipeline produces is a function of the requested
/// platform selection alone — two runs whose configurations request the same
/// platforms are owed byte-identical manifest text and identical file name
/// sequences, whatever else the two configurations hold.
pub proof fn lemma_pipeline_deterministic(
    ios1: bool,
    mac1: bool,
    watch1: bool,
    ios2: bool,
    mac2: bool,
    watch2: bool,
)
    requires
        ios1 == ios2,
        mac1 == mac2,
        watch1 == watch2,
    ensures
        spec_manifest(spec_icons_sets(ios1, mac1, watch1)) == spec_manifest(
            spec_icons_sets(ios2, mac2, watch2),
        ),
        filenames(spec_selected_icons(ios1, mac1, watch1)) == filenames(
            spec_selected_icons(ios2, mac2, watch2),
        ),
{
}

/// The catalogs of the platforms the configuration requests, in order.
pub fn get_icons_set(config: &Config) -> (r: Vec<Vec<Icon>>)
    ensures
        set_views(r@) == spec_icons_sets(
            config.svg_ios is Some,
            config.svg_mac is Some,
            config.svg_watch is Some,
        ),
{
    let mut sets: Vec<Vec<Icon>> = Vec::new();
    if config.svg_ios.is_some() {
        sets.push(ios_icons());
    }
    if config.svg_mac.is_some() {
        sets.push(mac_icons());
    }
    if config.svg_watch.is_some() {
        sets.push(watch_icons());
    }
    proof {
        assert(set_views(sets@) =~= spec_icons_sets(
            config.svg_ios is Some,
            config.svg_mac is Some,
            config.svg_watch is Some,
        ));
    }
    sets
}

/// Rasterizes one platform's whole catalog from one vector source: on
/// success, exactly one raster file per variant, named by the catalog, in
/// catalog order. A failure on any single variant aborts the set.
pub fn generate_icon_files(source: &LoadedSource, icons: &Vec<Icon>, platform: &str) -> (r: Result<
    Vec<RasterFile>,
    IconError,
>)
    requires
        wf_icons(views(icons@)),
    ensures
        r matches Ok(files) ==> file_names(files@) == filenames(views(icons@)) && files@.len()
            == icons@.len(),
        r matches Err(e) ==> (e is SourceFormatError || e is RenderError || e is WriteError),
{
    let tree = match get_tree(&source.data, &source.resources_dir, "Helvetica") {
        Some(t) => t,
        None => {
            return Err(IconError::SourceFormatError(String::from_str(platform)));
        },
    };
    let mut files: Vec<RasterFile> = Vec::new();
    let mut i: usize = 0;
    while i < icons.len()
        invariant
            wf_icons(views(icons@)),
            i <= icons.len(),
            files@.len() == i,
            forall|k: int| 0 <= k < i ==> (#[trigger] files@[k]).filename@ == views(icons@)[k].filename,
        decreases icons.len() - i,
    {
        let icon = &icons[i];
        proof {
            assert(wf_icon(views(icons@)[i as int]));
        }
        let pixmap = match render_icon(&tree, icon) {
            Some(p) => p,
            None => {
                return Err(IconError::RenderError(icon.filename.clone(), pixel_size(icon)));
            },
        };
        let data = match encode_png(&pixmap) {
            Some(d) => d,
            None => {
                return Err(IconError::WriteError(icon.filename.clone()));
            },
        };
        files.push(RasterFile { filename: icon.filename.clone(), data });
        i += 1;
    }
    proof {
        assert(file_names(files@) =~= filenames(views(icons@)));
    }
    Ok(files)
}

/// Builds the complete asset bundle for the requested platforms: rasterizes
/// every requested catalog in order, then serializes the manifest covering
/// exactly those catalogs. Requesting no platform at all is a configuration
/// error, and a failure on any variant aborts the whole run.
pub fn build_icons(
    svg_ios: &Option<LoadedSource>,
    svg_mac: &Option<LoadedSource>,
    svg_watch: &Option<LoadedSource>,
) -> (r: Result<Bundle, IconError>)
    ensures
        r matches Ok(b) ==> ({
            &&& b.manifest@ == spec_manifest(
                spec_icons_sets(svg_ios is Some, svg_mac is Some, svg_watch is Some),
            )
            &&& file_names(b.files@) == filenames(
                spec_selected_icons(svg_ios is Some, svg_mac is Some, svg_watch is Some),
            )
            &&& b.files@.len() == spec_selected_icons(
                svg_ios is Some,
                svg_mac is Some,
                svg_watch is Some,
            ).len()
        }),
        (r == Result::<Bundle, IconError>::Err(IconError::ConfigurationError)) <==> (svg_ios is None
            && svg_mac is None && svg_watch is None),
        r matches Err(e) ==> (e is ConfigurationError || e is SourceFormatError || e is RenderError
            || e is WriteError),
{
    if svg_ios.is_none() && svg_mac.is_none() && svg_watch.is_none() {
        return Err(IconError::ConfigurationError);
    }
    proof {
        lemma_catalogs_wf();
    }
    let mut files: Vec<RasterFile> = Vec::new();
    let mut sets: Vec<Vec<Icon>> = Vec::new();
    let ghost mut done_names: Seq<Seq<char>> = Seq::<Seq<char>>::empty();
    if let Some(src) = svg_ios {
        let catalog = ios_icons();
        let mut produced = match generate_icon_files(src, &catalog, "iOS") {
            Ok(f) => f,
            Err(e) => {
                return Err(e);
            },
        };
        let ghost pre = files@;
        let ghost prod = produced@;
        files.append(&mut produced);
        sets.push(catalog);
        proof {
            lemma_file_names_concat(pre, prod);
            done_names = done_names + filenames(spec_ios_icons());
        }
    }
    if let Some(src) = svg_mac {
        let catalog = mac_icons();
        let mut produced = match generate_icon_files(src, &catalog, "macOS") {
            Ok(f) => f,
            Err(e) => {
                return Err(e);
            },
        };
        let ghost pre = files@;
        let ghost prod = produced@;
        files.append(&mut produced);
        sets.push(catalog);
        proof {
            lemma_file_names_concat(pre, prod);
            done_names = done_names + filenames(spec_mac_icons());
        }
    }
    if let Some(src) = svg_watch {
        let catalog = watch_icons();
        let mut produced = match generate_icon_files(src, &catalog, "watchOS") {
            Ok(f) => f,
            Err(e) => {
                return Err(e);
            },
        };
        let ghost pre = files@;
        let ghost prod = produced@;
        files.append(&mut produced);
        sets.push(catalog);
        proof {
            lemma_file_names_concat(pre, prod);
            done_names = done_names + filenames(spec_watch_icons());
        }
    }
    proof {
        assert(set_views(sets@) =~= spec_icons_sets(
            svg_ios is Some,
            svg_mac is Some,
            svg_watch is Some,
        ));
        assert(file_names(files@) =~= done_names);
        let a = if svg_ios is Some {
            spec_ios_icons()
        } else {
            Seq::<IconV>::empty()
        };
        let b = if svg_mac is Some {
            spec_mac_icons()
        } else {
            Seq::<IconV>::empty()
        };
        let c = if svg_watch is Some {
            spec_watch_icons()
        } else {
            Seq::<IconV>::empty()
        };
        lemma_filenames_concat(a, b);
        lemma_filenames_concat(a + b, c);
        assert(done_names =~= filenames(a) + filenames(b) + filenames(c));
        assert(file_names(files@) == filenames(
            spec_selected_icons(svg_ios is Some, svg_mac is Some, svg_watch is Some),
        ));
    }
    let manifest = get_json_str(&sets);
    Ok(Bundle { files, manifest })
}

} // verus!
