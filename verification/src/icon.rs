//! The icon variant model: one record per required output image, the fixed
//! per-platform catalogs of those records, and the JSON manifest entry each
//! record serializes to.

use vstd::prelude::*;
use crate::decimal::{spec_dec, u32_to_dec};

verus! {

/// A wearable case-size class tied to some watch variants.
#[derive(Clone, Copy, PartialEq, Eq, Structural, Debug)]
pub enum Subtype {
    _38,
    _40,
    _42,
    _44,
}

/// The manifest text of a case-size class.
pub open spec fn spec_subtype_str(s: Subtype) -> Seq<char> {
    match s {
        Subtype::_38 => "38mm"@,
        Subtype::_40 => "40mm"@,
        Subtype::_42 => "42mm"@,
        Subtype::_44 => "44mm"@,
    }
}

impl Subtype {
    /// The manifest text of this case-size class, e.g. `38mm`.
    pub fn to_string(&self) -> (r: &str)
        ensures
            r@ == spec_subtype_str(*self),
    {
        match self {
            Subtype::_38 => "38mm",
            Subtype::_40 => "40mm",
            Subtype::_42 => "42mm",
            Subtype::_44 => "44mm",
        }
    }
}

/// A nominal point size, held in half-point units so that the fractional
/// sizes the platform catalogs use (for example 27.5 and 83.5 points) are
/// exact values.
#[derive(Clone, Copy, PartialEq, Eq, Structural, Debug)]
pub struct Size {
    /// Twice the point size: 167 stands for 83.5 points.
    pub half_points: u32,
}

impl Size {
    /// The size of `n` whole points.
    pub fn whole(n: u32) -> (r: Size)
        requires
            n <= 0x7FFF_FFFF,
        ensures
            r.half_points == 2 * n,
    {
        Size { half_points: 2 * n }
    }

    /// The size of `n` points and one half, e.g. `Size::and_half(83)` is 83.5.
    pub fn and_half(n: u32) -> (r: Size)
        requires
            n < 0x7FFF_FFFF,
        ensures
            r.half_points == 2 * n + 1,
    {
        Size { half_points: 2 * n + 1 }
    }
}

/// The decimal text of a point size: the whole part, followed by `.5` when
/// the size has a half (83.5 keeps its fractional textual form).
pub open spec fn spec_size_text(half_points: u32) -> Seq<char> {
    if half_points % 2 == 0 {
        spec_dec(half_points as int / 2)
    } else {
        spec_dec(half_points as int / 2) + ".5"@
    }
}

/// The mathematical value of an [`Icon`]: its text fields as character
/// sequences, its sizes as plain integers.
pub struct IconV {
    pub filename: Seq<char>,
    pub idiom: Seq<char>,
    pub role: Option<Seq<char>>,
    pub scale: u32,
    pub size_half_points: u32,
    pub subtype: Option<Subtype>,
}

/// The view of an optional text field.
pub open spec fn opt_str_view(o: &Option<String>) -> Option<Seq<char>> {
    match o {
        Some(s) => Some(s@),
        None => None,
    }
}

/// One required output image: the platform's device-family tag (`idiom`), an
/// optional UI-context `role` and case-size `subtype`, the pixel-density
/// `scale`, the nominal point `size`, and the output `filename`.
#[derive(Debug)]
pub struct Icon {
    pub filename: String,
    pub idiom: String,
    pub role: Option<String>,
    pub scale: u32,
    pub size: Size,
    pub subtype: Option<Subtype>,
}

impl View for Icon {
    type V = IconV;

    open spec fn view(&self) -> IconV {
        IconV {
            filename: self.filename@,
            idiom: self.idiom@,
            role: opt_str_view(&self.role),
            scale: self.scale,
            size_half_points: self.size.half_points,
            subtype: self.subtype,
        }
    }
}

impl Clone for Icon {
    fn clone(&self) -> (r: Self)
        ensures
            r@ == self@,
    {
        Icon {
            filename: self.filename.clone(),
            idiom: self.idiom.clone(),
            role: match &self.role {
                Some(s) => Some(s.clone()),
                None => None,
            },
            scale: self.scale,
            size: self.size,
            subtype: self.subtype,
        }
    }
}

impl Icon {
    /// A mobile variant: no role, no subtype.
    pub fn ios(filename: &str, idiom: &str, scale: u32, size: Size) -> (r: Icon)
        ensures
            r@ == (IconV {
                filename: filename@,
                idiom: idiom@,
                role: None,
                scale: scale,
                size_half_points: size.half_points,
                subtype: None,
            }),
    {
        Icon {
            filename: String::from_str(filename),
            idiom: String::from_str(idiom),
            role: None,
            scale,
            size,
            subtype: None,
        }
    }

    /// A desktop variant: same shape as a mobile one.
    pub fn mac(filename: &str, idiom: &str, scale: u32, size: Size) -> (r: Icon)
        ensures
            r@ == (IconV {
                filename: filename@,
                idiom: idiom@,
                role: None,
                scale: scale,
                size_half_points: size.half_points,
                subtype: None,
            }),
    {
        Self::ios(filename, idiom, scale, size)
    }

    /// A wearable variant, with its optional UI role and case-size subtype.
    pub fn watch(
        filename: &str,
        idiom: &str,
        role: Option<&str>,
        scale: u32,
        size: Size,
        subtype: Option<Subtype>,
    ) -> (r: Icon)
        ensures
            r@ == (IconV {
                filename: filename@,
                idiom: idiom@,
                role: match role {
                    Some(ro) => Some(ro@),
                    None => None,
                },
                scale: scale,
                size_half_points: size.half_points,
                subtype: subtype,
            }),
    {
        Icon {
            filename: String::from_str(filename),
            idiom: String::from_str(idiom),
            role: match role {
                Some(ro) => Some(String::from_str(ro)),
                None => None,
            },
            scale,
            size,
            subtype,
        }
    }
}

/// The `role` segment of a manifest entry: a whole extra line when the
/// variant has a role, and nothing at all (no key, no empty string, no null)
/// when it has none.
pub open spec fn spec_role_part(role: Option<Seq<char>>) -> Seq<char> {
    match role {
        Some(r) => "\n        \"role\" : \""@ + r + "\","@,
        None => Seq::<char>::empty(),
    }
}

/// The `subtype` segment of a manifest entry; absent variants contribute
/// nothing at all.
pub open spec fn spec_subtype_part(subtype: Option<Subtype>) -> Seq<char> {
    match subtype {
        Some(t) => ",\n        \"subtype\" : \""@ + spec_subtype_str(t) + "\""@,
        None => Seq::<char>::empty(),
    }
}

/// The manifest entry of one variant: the keys `filename`, `idiom`,
/// optionally `role`, `scale` (as `{n}x`), `size` (as `{s}x{s}`) and
/// optionally `subtype` (as `{n}mm`), in exactly that order.
pub open spec fn spec_icon_json(v: IconV) -> Seq<char> {
    "    {\n        \"filename\" : \""@ + v.filename + "\",\n        \"idiom\" : \""@ + v.idiom
        + "\","@ + spec_role_part(v.role) + "\n        \"scale\" : \""@ + spec_dec(v.scale as int)
        + "x\",\n        \"size\" : \""@ + spec_size_text(v.size_half_points) + "x"@
        + spec_size_text(v.size_half_points) + "\""@ + spec_subtype_part(v.subtype) + "\n    }"@
}

/// Renders a point size as manifest text.
fn size_string(size: &Size) -> (r: String)
    ensures
        r@ == spec_size_text(size.half_points),
{
    if size.half_points % 2 == 0 {
        u32_to_dec(size.half_points / 2)
    } else {
        let mut s = u32_to_dec(size.half_points / 2);
        s.append(".5");
        s
    }
}

fn role_part_string(role: &Option<String>) -> (r: String)
    ensures
        r@ == spec_role_part(opt_str_view(role)),
{
    match role {
        Some(ro) => {
            let mut s = String::from_str("\n        \"role\" : \"");
            s.append(ro.as_str());
            s.append("\",");
            s
        },
        None => String::new(),
    }
}

fn subtype_part_string(subtype: &Option<Subtype>) -> (r: String)
    ensures
        r@ == spec_subtype_part(*subtype),
{
    match subtype {
        Some(t) => {
            let mut s = String::from_str(",\n        \"subtype\" : \"");
            s.append(t.to_string());
            s.append("\"");
            s
        },
        None => String::new(),
    }
}

impl Icon {
    /// The manifest entry for this variant, exactly as it appears inside the
    /// `images` array of `Contents.json`.
    pub fn to_json(&self) -> (r: String)
        ensures
            r@ == spec_icon_json(self@),
    {
        let mut s = String::from_str("    {\n        \"filename\" : \"");
        s.append(self.filename.as_str());
        s.append("\",\n        \"idiom\" : \"");
        s.append(self.idiom.as_str());
        s.append("\",");
        let role_part = role_part_string(&self.role);
        s.append(role_part.as_str());
        s.append("\n        \"scale\" : \"");
        let scale_text = u32_to_dec(self.scale);
        s.append(scale_text.as_str());
        s.append("x\",\n        \"size\" : \"");
        let size_text = size_string(&self.size);
        s.append(size_text.as_str());
        s.append("x");
        s.append(size_text.as_str());
        s.append("\"");
        let subtype_part = subtype_part_string(&self.subtype);
        s.append(subtype_part.as_str());
        s.append("\n    }");
        s
    }
}

/// A plain variant (no role, no subtype) at the spec level.
pub open spec fn sv(filename: Seq<char>, idiom: Seq<char>, scale: u32, half_points: u32) -> IconV {
    IconV {
        filename: filename,
        idiom: idiom,
        role: None,
        scale: scale,
        size_half_points: half_points,
        subtype: None,
    }
}

/// A wearable variant at the spec level.
pub open spec fn wv(
    filename: Seq<char>,
    idiom: Seq<char>,
    role: Option<Seq<char>>,
    scale: u32,
    half_points: u32,
    subtype: Option<Subtype>,
) -> IconV {
    IconV {
        filename: filename,
        idiom: idiom,
        role: role,
        scale: scale,
        size_half_points: half_points,
        subtype: subtype,
    }
}

/// The views of a sequence of variants.
pub open spec fn views(s: Seq<Icon>) -> Seq<IconV> {
    s.map_values(|x: Icon| x@)
}

/// The mobile catalog: the full required icon set of the mobile platform, in
/// its fixed order. Sizes are in half-points (40 stands for 20 points).
pub open spec fn spec_ios_icons() -> Seq<IconV> {
    seq![
        sv("40.png"@, "iphone"@, 2, 40),
        sv("60.png"@, "iphone"@, 3, 40),
        sv("58.png"@, "iphone"@, 2, 58),
        sv("87.png"@, "iphone"@, 3, 58),
        sv("80.png"@, "iphone"@, 2, 80),
        sv("120.png"@, "iphone"@, 3, 80),
        sv("120-1.png"@, "iphone"@, 2, 120),
        sv("180.png"@, "iphone"@, 3, 120),
        sv("20.png"@, "ipad"@, 1, 40),
        sv("40-1.png"@, "ipad"@, 2, 40),
        sv("29.png"@, "ipad"@, 1, 58),
        sv("58-1.png"@, "ipad"@, 2, 58),
        sv("40-2.png"@, "ipad"@, 1, 80),
        sv("80-1.png"@, "ipad"@, 2, 80),
        sv("76.png"@, "ipad"@, 1, 152),
        sv("152.png"@, "ipad"@, 2, 152),
        sv("167.png"@, "ipad"@, 2, 167),
        sv("1024.png"@, "ios-marketing"@, 1, 2048),
    ]
}

/// The desktop catalog: one idiom, scales 1 and 2 across 16 to 512 points.
pub open spec fn spec_mac_icons() -> Seq<IconV> {
    seq![
        sv("16.png"@, "mac"@, 1, 32),
        sv("32.png"@, "mac"@, 2, 32),
        sv("32-1.png"@, "mac"@, 1, 64),
        sv("64.png"@, "mac"@, 2, 64),
        sv("128.png"@, "mac"@, 1, 256),
        sv("256.png"@, "mac"@, 2, 256),
        sv("256-1.png"@, "mac"@, 1, 512),
        sv("512.png"@, "mac"@, 2, 512),
        sv("512-1.png"@, "mac"@, 1, 1024),
        sv("1024.png"@, "mac"@, 2, 1024),
    ]
}

/// The wearable catalog: ten functional variants spanning four roles and
/// four case-size classes, plus one marketing variant.
pub open spec fn spec_watch_icons() -> Seq<IconV> {
    seq![
        wv("48.png"@, "watch"@, Some("notificationCenter"@), 2, 48, Some(Subtype::_38)),
        wv("55.png"@, "watch"@, Some("notificationCenter"@), 2, 55, Some(Subtype::_42)),
        wv("58.png"@, "watch"@, Some("companionSettings"@), 2, 58, None),
        wv("87.png"@, "watch"@, Some("companionSettings"@), 3, 58, None),
        wv("80.png"@, "watch"@, Some("appLauncher"@), 2, 80, Some(Subtype::_38)),
        wv("88.png"@, "watch"@, Some("appLauncher"@), 2, 88, Some(Subtype::_40)),
        wv("100.png"@, "watch"@, Some("appLauncher"@), 2, 100, Some(Subtype::_44)),
        wv("172.png"@, "watch"@, Some("quickLook"@), 2, 172, Some(Subtype::_38)),
        wv("196.png"@, "watch"@, Some("quickLook"@), 2, 196, Some(Subtype::_42)),
        wv("216.png"@, "watch"@, Some("quickLook"@), 2, 216, Some(Subtype::_44)),
        wv("1024.png"@, "watch-marketing"@, None, 1, 2048, None),
    ]
}

/// A variant the pipeline can resolve: the scale is one of the supported
/// density multipliers and the size is small enough that the pixel size
/// fits machine arithmetic.
pub open spec fn wf_icon(v: IconV) -> bool {
    &&& 0 < v.scale <= 3
    &&& 0 < v.size_half_points <= 0x1000_0000
}

/// Every variant of a sequence is resolvable.
pub open spec fn wf_icons(s: Seq<IconV>) -> bool {
    forall|i: int| 0 <= i < s.len() ==> wf_icon(#[trigger] s[i])
}

/// The mobile catalog as data.
pub fn ios_icons() -> (r: Vec<Icon>)
    ensures
        views(r@) == spec_ios_icons(),
{
    let mut v: Vec<Icon> = Vec::new();
    v.push(Icon::ios("40.png", "iphone", 2, Size::whole(20)));
    v.push(Icon::ios("60.png", "iphone", 3, Size::whole(20)));
    v.push(Icon::ios("58.png", "iphone", 2, Size::whole(29)));
    v.push(Icon::ios("87.png", "iphone", 3, Size::whole(29)));
    v.push(Icon::ios("80.png", "iphone", 2, Size::whole(40)));
    v.push(Icon::ios("120.png", "iphone", 3, Size::whole(40)));
    v.push(Icon::ios("120-1.png", "iphone", 2, Size::whole(60)));
    v.push(Icon::ios("180.png", "iphone", 3, Size::whole(60)));
    v.push(Icon::ios("20.png", "ipad", 1, Size::whole(20)));
    v.push(Icon::ios("40-1.png", "ipad", 2, Size::whole(20)));
    v.push(Icon::ios("29.png", "ipad", 1, Size::whole(29)));
    v.push(Icon::ios("58-1.png", "ipad", 2, Size::whole(29)));
    v.push(Icon::ios("40-2.png", "ipad", 1, Size::whole(40)));
    v.push(Icon::ios("80-1.png", "ipad", 2, Size::whole(40)));
    v.push(Icon::ios("76.png", "ipad", 1, Size::whole(76)));
    v.push(Icon::ios("152.png", "ipad", 2, Size::whole(76)));
    v.push(Icon::ios("167.png", "ipad", 2, Size::and_half(83)));
    v.push(Icon::ios("1024.png", "ios-marketing", 1, Size::whole(1024)));
    proof {
        assert(views(v@) =~= spec_ios_icons());
    }
    v
}

/// The desktop catalog as data.
pub fn mac_icons() -> (r: Vec<Icon>)
    ensures
        views(r@) == spec_mac_icons(),
{
    let mut v: Vec<Icon> = Vec::new();
    v.push(Icon::mac("16.png", "mac", 1, Size::whole(16)));
    v.push(Icon::mac("32.png", "mac", 2, Size::whole(16)));
    v.push(Icon::mac("32-1.png", "mac", 1, Size::whole(32)));
    v.push(Icon::mac("64.png", "mac", 2, Size::whole(32)));
    v.push(Icon::mac("128.png", "mac", 1, Size::whole(128)));
    v.push(Icon::mac("256.png", "mac", 2, Size::whole(128)));
    v.push(Icon::mac("256-1.png", "mac", 1, Size::whole(256)));
    v.push(Icon::mac("512.png", "mac", 2, Size::whole(256)));
    v.push(Icon::mac("512-1.png", "mac", 1, Size::whole(512)));
    v.push(Icon::mac("1024.png", "mac", 2, Size::whole(512)));
    proof {
        assert(views(v@) =~= spec_mac_icons());
    }
    v
}

/// The wearable catalog as data.
pub fn watch_icons() -> (r: Vec<Icon>)
    ensures
        views(r@) == spec_watch_icons(),
{
    let mut v: Vec<Icon> = Vec::new();
    v.push(Icon::watch("48.png", "watch", Some("notificationCenter"), 2, Size::whole(24), Some(Subtype::_38)));
    v.push(Icon::watch("55.png", "watch", Some("notificationCenter"), 2, Size::and_half(27), Some(Subtype::_42)));
    v.push(Icon::watch("58.png", "watch", Some("companionSettings"), 2, Size::whole(29), None));
    v.push(Icon::watch("87.png", "watch", Some("companionSettings"), 3, Size::whole(29), None));
    v.push(Icon::watch("80.png", "watch", Some("appLauncher"), 2, Size::whole(40), Some(Subtype::_38)));
    v.push(Icon::watch("88.png", "watch", Some("appLauncher"), 2, Size::whole(44), Some(Subtype::_40)));
    v.push(Icon::watch("100.png", "watch", Some("appLauncher"), 2, Size::whole(50), Some(Subtype::_44)));
    v.push(Icon::watch("172.png", "watch", Some("quickLook"), 2, Size::whole(86), Some(Subtype::_38)));
    v.push(Icon::watch("196.png", "watch", Some("quickLook"), 2, Size::whole(98), Some(Subtype::_42)));
    v.push(Icon::watch("216.png", "watch", Some("quickLook"), 2, Size::whole(108), Some(Subtype::_44)));
    v.push(Icon::watch("1024.png", "watch-marketing", None, 1, Size::whole(1024), None));
    proof {
        assert(views(v@) =~= spec_watch_icons());
    }
    v
}

/// Every variant of every catalog is resolvable.
pub proof fn lemma_catalogs_wf()
    ensures
        wf_icons(spec_ios_icons()),
        wf_icons(spec_mac_icons()),
        wf_icons(spec_watch_icons()),
{
}

/// Omitted-field rule: the manifest entry of a variant without a role and
/// without a subtype holds only the `filename`, `idiom`, `scale` and `size`
/// keys — the text runs straight from the idiom line to the scale line and
/// ends right after the size value, with no `role` or `subtype` key, no empty
/// value and no null in their place.
pub proof fn lemma_role_and_subtype_omitted(v: IconV)
    requires
        v.role is None,
        v.subtype is None,
    ensures
        spec_icon_json(v) == "    {\n        \"filename\" : \""@ + v.filename
            + "\",\n        \"idiom\" : \""@ + v.idiom + "\","@ + "\n        \"scale\" : \""@
            + spec_dec(v.scale as int) + "x\",\n        \"size\" : \""@
            + spec_size_text(v.size_half_points) + "x"@ + spec_size_text(v.size_half_points)
            + "\""@ + "\n    }"@,
{
    assert(spec_icon_json(v) =~= "    {\n        \"filename\" : \""@ + v.filename
        + "\",\n        \"idiom\" : \""@ + v.idiom + "\","@ + "\n        \"scale\" : \""@
        + spec_dec(v.scale as int) + "x\",\n        \"size\" : \""@
        + spec_size_text(v.size_half_points) + "x"@ + spec_size_text(v.size_half_points) + "\""@
        + "\n    }"@);
}

/// No two variants of a sequence share a filename.
pub open spec fn distinct_filenames(s: Seq<IconV>) -> bool {
    forall|i: int, j: int| 0 <= i < j < s.len() ==> s[i].filename != s[j].filename
}

/// No two variants of the mobile catalog share a filename: rasterizing the
/// catalog writes one file per variant, none overwriting another.
pub proof fn lemma_ios_filenames_distinct()
    ensures
        distinct_filenames(spec_ios_icons()),
{
    reveal_strlit("40.png");
    reveal_strlit("60.png");
    reveal_strlit("58.png");
    reveal_strlit("87.png");
    reveal_strlit("80.png");
    reveal_strlit("120.png");
    reveal_strlit("120-1.png");
    reveal_strlit("180.png");
    reveal_strlit("20.png");
    reveal_strlit("40-1.png");
    reveal_strlit("29.png");
    reveal_strlit("58-1.png");
    reveal_strlit("40-2.png");
    reveal_strlit("80-1.png");
    reveal_strlit("76.png");
    reveal_strlit("152.png");
    reveal_strlit("167.png");
    reveal_strlit("1024.png");
    let s = spec_ios_icons();
    assert forall|i: int, j: int| 0 <= i < j < s.len() implies s[i].filename != s[j].filename by {
        let a = s[i].filename;
        let b = s[j].filename;
        assert(a.len() != b.len() || a[0] != b[0] || a[1] != b[1] || a[3] != b[3]);
    }
}

/// No two variants of the desktop catalog share a filename.
pub proof fn lemma_mac_filenames_distinct()
    ensures
        distinct_filenames(spec_mac_icons()),
{
    reveal_strlit("16.png");
    reveal_strlit("32.png");
    reveal_strlit("32-1.png");
    reveal_strlit("64.png");
    reveal_strlit("128.png");
    reveal_strlit("256.png");
    reveal_strlit("256-1.png");
    reveal_strlit("512.png");
    reveal_strlit("512-1.png");
    reveal_strlit("1024.png");
    let s = spec_mac_icons();
    assert forall|i: int, j: int| 0 <= i < j < s.len() implies s[i].filename != s[j].filename by {
        let a = s[i].filename;
        let b = s[j].filename;
        assert(a.len() != b.len() || a[0] != b[0] || a[1] != b[1] || a[3] != b[3]);
    }
}

/// No two variants of the wearable catalog share a filename.
pub proof fn lemma_watch_filenames_distinct()
    ensures
        distinct_filenames(spec_watch_icons()),
{
    reveal_strlit("48.png");
    reveal_strlit("55.png");
    reveal_strlit("58.png");
    reveal_strlit("87.png");
    reveal_strlit("80.png");
    reveal_strlit("88.png");
    reveal_strlit("100.png");
    reveal_strlit("172.png");
    reveal_strlit("196.png");
    reveal_strlit("216.png");
    reveal_strlit("1024.png");
    let s = spec_watch_icons();
    assert forall|i: int, j: int| 0 <= i < j < s.len() implies s[i].filename != s[j].filename by {
        let a = s[i].filename;
        let b = s[j].filename;
        assert(a.len() != b.len() || a[0] != b[0] || a[1] != b[1]);
    }
}

/// The shape the wearable catalog owes the manifest: its last variant is the
/// single marketing entry (idiom `watch-marketing`, scale 1, size 1024, no
/// role, no subtype), and every other variant carries idiom `watch` and a
/// role.
pub proof fn lemma_watch_catalog_shape()
    ensures
        spec_watch_icons().len() == 11,
        spec_watch_icons()[10].idiom == "watch-marketing"@,
        spec_watch_icons()[10].role is None,
        spec_watch_icons()[10].subtype is None,
        spec_watch_icons()[10].scale == 1,
        spec_watch_icons()[10].size_half_points == 2048,
        forall|i: int|
            0 <= i < 10 ==> (#[trigger] spec_watch_icons()[i]).idiom == "watch"@
                && spec_watch_icons()[i].role is Some,
        forall|i: int| 0 <= i < 10 ==> (#[trigger] spec_watch_icons()[i]).idiom != "watch-marketing"@,
{
    reveal_strlit("watch");
    reveal_strlit("watch-marketing");
    assert forall|i: int| 0 <= i < 10 implies (#[trigger] spec_watch_icons()[i]).idiom
        != "watch-marketing"@ by {
        assert(spec_watch_icons()[i].idiom.len() != "watch-marketing"@.len());
    }
}

} // verus!
