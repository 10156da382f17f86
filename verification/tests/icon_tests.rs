use svg2appicon::icon::{ios_icons, mac_icons, watch_icons, Icon, Size, Subtype};
use svg2appicon::IconError;

#[test]
fn subtype_strings() {
    assert_eq!(Subtype::_38.to_string(), "38mm");
    assert_eq!(Subtype::_40.to_string(), "40mm");
    assert_eq!(Subtype::_42.to_string(), "42mm");
    assert_eq!(Subtype::_44.to_string(), "44mm");
}

#[test]
fn size_constructors() {
    assert_eq!(Size::whole(20).half_points, 40);
    assert_eq!(Size::whole(1024).half_points, 2048);
    assert_eq!(Size::and_half(83).half_points, 167);
    assert_eq!(Size::and_half(27).half_points, 55);
}

#[test]
fn catalog_lengths() {
    assert_eq!(ios_icons().len(), 18);
    assert_eq!(mac_icons().len(), 10);
    assert_eq!(watch_icons().len(), 11);
}

fn assert_unique_filenames(icons: &[Icon]) {
    for i in 0..icons.len() {
        for j in (i + 1)..icons.len() {
            assert_ne!(
                icons[i].filename, icons[j].filename,
                "duplicate filename at {} and {}",
                i, j
            );
        }
    }
}

#[test]
fn ios_filenames_unique() {
    assert_unique_filenames(&ios_icons());
}

#[test]
fn mac_filenames_unique() {
    assert_unique_filenames(&mac_icons());
}

#[test]
fn watch_filenames_unique() {
    assert_unique_filenames(&watch_icons());
}

#[test]
fn ios_catalog_contents() {
    let icons = ios_icons();
    assert_eq!(icons[0].filename, "40.png");
    assert_eq!(icons[0].idiom, "iphone");
    assert_eq!(icons[0].scale, 2);
    assert_eq!(icons[0].size.half_points, 40);
    assert!(icons[0].role.is_none());
    assert!(icons[0].subtype.is_none());
    assert_eq!(icons[16].filename, "167.png");
    assert_eq!(icons[16].size.half_points, 167);
    assert_eq!(icons[17].filename, "1024.png");
    assert_eq!(icons[17].idiom, "ios-marketing");
    assert_eq!(icons[17].scale, 1);
    assert_eq!(icons[17].size.half_points, 2048);
}

#[test]
fn to_json_plain_entry() {
    let icon = Icon::mac("16.png", "mac", 1, Size::whole(16));
    let json = icon.to_json();
    let expected = "    {\n        \"filename\" : \"16.png\",\n        \"idiom\" : \"mac\",\n        \"scale\" : \"1x\",\n        \"size\" : \"16x16\"\n    }";
    assert_eq!(json, expected);
    assert!(!json.contains("\"role\""));
    assert!(!json.contains("\"subtype\""));
    assert!(!json.contains("null"));
}

#[test]
fn to_json_role_and_subtype_entry() {
    let icon = Icon::watch(
        "48.png",
        "watch",
        Some("notificationCenter"),
        2,
        Size::whole(24),
        Some(Subtype::_38),
    );
    let expected = "    {\n        \"filename\" : \"48.png\",\n        \"idiom\" : \"watch\",\n        \"role\" : \"notificationCenter\",\n        \"scale\" : \"2x\",\n        \"size\" : \"24x24\",\n        \"subtype\" : \"38mm\"\n    }";
    assert_eq!(icon.to_json(), expected);
}

#[test]
fn to_json_fractional_size() {
    let icon = Icon::ios("167.png", "ipad", 2, Size::and_half(83));
    let json = icon.to_json();
    assert!(json.contains("\"size\" : \"83.5x83.5\""));
    assert!(json.contains("\"scale\" : \"2x\""));
}

#[test]
fn error_messages() {
    assert_eq!(
        IconError::ConfigurationError.message(),
        "no platform was requested: nothing to generate"
    );
    assert_eq!(
        IconError::RenderError(String::from("16.png"), 167).message(),
        "failed to render 16.png at 167 pixels"
    );
    assert_eq!(
        IconError::SourceFormatError(String::from("iOS")).message(),
        "failed to parse the vector source for iOS"
    );
    assert_eq!(
        IconError::WriteError(String::from("Contents.json")).message(),
        "failed to write Contents.json"
    );
    assert_eq!(
        IconError::SourceReadError(String::from("a.svg")).message(),
        "failed to read the vector source a.svg"
    );
    assert_eq!(
        IconError::DirectoryError(String::from("out")).message(),
        "failed to reset the output directory out"
    );
}
