use svg2appicon::icon::{ios_icons, mac_icons, watch_icons, Icon, Size};
use svg2appicon::manifest::get_json_str;
use svg2appicon::render::pixel_size;
use svg2appicon::{build_icons, get_icons_set, Config, IconError, LoadedSource, SVG};

fn svg_source() -> LoadedSource {
    let data = b"<svg xmlns=\"http://www.w3.org/2000/svg\" width=\"64\" height=\"64\" viewBox=\"0 0 64 64\"><rect x=\"8\" y=\"8\" width=\"48\" height=\"48\" fill=\"#3a7bd5\"/><circle cx=\"32\" cy=\"32\" r=\"12\" fill=\"#ffd166\"/></svg>"
        .to_vec();
    LoadedSource { data, resources_dir: None }
}

fn count(hay: &str, needle: &str) -> usize {
    hay.matches(needle).count()
}

#[test]
fn desktop_only_run() {
    let bundle = build_icons(&None, &Some(svg_source()), &None).unwrap();
    assert_eq!(bundle.files.len(), 10);
    let catalog = mac_icons();
    for (file, icon) in bundle.files.iter().zip(catalog.iter()) {
        assert_eq!(file.filename, icon.filename);
    }
    assert_eq!(count(&bundle.manifest, "\"idiom\" : \"mac\""), 10);
    assert_eq!(count(&bundle.manifest, "\"filename\""), 10);
    assert!(!bundle.manifest.contains("\"role\""));
    assert!(!bundle.manifest.contains("\"subtype\""));
    assert!(bundle.manifest.starts_with("{\n  \"images\" : [\n"));
    assert!(bundle.manifest.ends_with(
        "\n  ],\n  \"info\" : {\n    \"author\" : \"xcode\",\n    \"version\" : 1\n  }\n}\n"
    ));
}

#[test]
fn desktop_pixel_dimensions() {
    let bundle = build_icons(&None, &Some(svg_source()), &None).unwrap();
    let expected_edges: [u32; 10] = [16, 32, 32, 64, 128, 256, 256, 512, 512, 1024];
    for (file, edge) in bundle.files.iter().zip(expected_edges.iter()) {
        let pixmap = tiny_skia::Pixmap::decode_png(&file.data).unwrap();
        assert_eq!(pixmap.width(), *edge, "width of {}", file.filename);
        assert_eq!(pixmap.height(), *edge, "height of {}", file.filename);
    }
}

#[test]
fn fractional_pixel_dimensions() {
    let bundle = build_icons(&Some(svg_source()), &None, &None).unwrap();
    let file = bundle.files.iter().find(|f| f.filename == "167.png").unwrap();
    let pixmap = tiny_skia::Pixmap::decode_png(&file.data).unwrap();
    assert_eq!(pixmap.width(), 167);
    assert_eq!(pixmap.height(), 167);
}

#[test]
fn pixel_size_rounding() {
    let fractional = Icon::ios("167.png", "ipad", 2, Size::and_half(83));
    assert_eq!(pixel_size(&fractional), 167);
    let tripled = Icon::ios("60.png", "iphone", 3, Size::whole(20));
    assert_eq!(pixel_size(&tripled), 60);
    let marketing = Icon::ios("1024.png", "ios-marketing", 1, Size::whole(1024));
    assert_eq!(pixel_size(&marketing), 1024);
}

#[test]
fn manifest_counts_all_platforms() {
    let bundle =
        build_icons(&Some(svg_source()), &Some(svg_source()), &Some(svg_source())).unwrap();
    assert_eq!(bundle.files.len(), 18 + 10 + 11);
    assert_eq!(count(&bundle.manifest, "\"filename\""), 39);
}

#[test]
fn zero_platforms_is_configuration_error() {
    let result = build_icons(&None, &None, &None);
    assert!(matches!(result, Err(IconError::ConfigurationError)));
}

#[test]
fn identical_runs_are_identical() {
    let first = build_icons(&Some(svg_source()), &None, &Some(svg_source())).unwrap();
    let second = build_icons(&Some(svg_source()), &None, &Some(svg_source())).unwrap();
    assert_eq!(first.manifest, second.manifest);
    assert_eq!(first.files.len(), second.files.len());
    for (a, b) in first.files.iter().zip(second.files.iter()) {
        assert_eq!(a.filename, b.filename);
    }
}

#[test]
fn wearable_manifest_entries() {
    let bundle = build_icons(&None, &None, &Some(svg_source())).unwrap();
    assert_eq!(count(&bundle.manifest, "\"idiom\" : \"watch\""), 10);
    assert_eq!(count(&bundle.manifest, "\"idiom\" : \"watch-marketing\""), 1);
    assert_eq!(count(&bundle.manifest, "\"role\""), 10);
    let marketing = watch_icons()[10].to_json();
    assert!(bundle.manifest.contains(&marketing));
    assert!(marketing.contains("\"scale\" : \"1x\""));
    assert!(marketing.contains("\"size\" : \"1024x1024\""));
    assert!(!marketing.contains("\"role\""));
    assert!(!marketing.contains("\"subtype\""));
}

#[test]
fn malformed_source_is_format_error() {
    let source = LoadedSource { data: b"this is not an svg document".to_vec(), resources_dir: None };
    let result = build_icons(&Some(source), &None, &None);
    assert!(matches!(result, Err(IconError::SourceFormatError(_))));
}

#[test]
fn icons_set_follows_request() {
    let config = Config {
        assets_path: String::from("Assets.xcassets/AppIcon.appiconset"),
        svg_ios: Some(SVG::Data(svg_source().data)),
        svg_mac: None,
        svg_watch: Some(SVG::File(String::from("icon.svg"))),
    };
    let sets = get_icons_set(&config);
    assert_eq!(sets.len(), 2);
    assert_eq!(sets[0].len(), 18);
    assert_eq!(sets[1].len(), 11);
    for (a, b) in sets[0].iter().zip(ios_icons().iter()) {
        assert_eq!(a.filename, b.filename);
    }
}

#[test]
fn manifest_of_no_catalogs() {
    let manifest = get_json_str(&Vec::new());
    assert_eq!(
        manifest,
        "{\n  \"images\" : [\n\n  ],\n  \"info\" : {\n    \"author\" : \"xcode\",\n    \"version\" : 1\n  }\n}\n"
    );
}

#[test]
fn manifest_entry_order() {
    let bundle = build_icons(&Some(svg_source()), &Some(svg_source()), &None).unwrap();
    let first_ios = bundle.manifest.find("\"idiom\" : \"iphone\"").unwrap();
    let first_mac = bundle.manifest.find("\"idiom\" : \"mac\"").unwrap();
    assert!(first_ios < first_mac, "mobile entries come before desktop entries");
}
