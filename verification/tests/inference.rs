use typeset_bridge::font::error::FontError;
use typeset_bridge::font::infer::{
    font_family_web_to_typst, infer_info_from_web_font, infer_info_with_family, WebFontInfo,
};
use typeset_bridge::font::info::{
    Coverage, FontFlags, FontStretch, FontStyle, FontWeight, FULL_COVERAGE_RUN, STRETCH_CONDENSED,
    STRETCH_NORMAL, STRETCH_SEMI_EXPANDED, WEIGHT_BLACK, WEIGHT_BOLD, WEIGHT_EXTRALIGHT,
    WEIGHT_LIGHT, WEIGHT_REGULAR, WEIGHT_THIN,
};

fn descriptor(family: &str, full_name: &str, postscript_name: &str, style: &str) -> WebFontInfo {
    WebFontInfo {
        family: family.to_string(),
        full_name: full_name.to_string(),
        postscript_name: postscript_name.to_string(),
        style: style.to_string(),
    }
}

fn keep(name: &str) -> String {
    name.to_string()
}

#[test]
fn bold_italic_from_full_name_only() {
    let info = infer_info_from_web_font(
        descriptor("Example", "Example Bold Italic", "Example-BoldItalic", ""),
        &keep,
    )
    .unwrap();
    assert_eq!(info.family, "Example");
    assert_eq!(info.variant.style, FontStyle::Italic);
    assert_eq!(info.variant.weight, FontWeight { value: WEIGHT_BOLD });
    assert_eq!(info.variant.weight.to_number(), 700);
    assert_eq!(info.variant.stretch, FontStretch { permille: STRETCH_NORMAL });
}

#[test]
fn condensed_outside_style_scope_is_not_heeded() {
    let info = infer_info_from_web_font(
        descriptor("Example", "Example Condensed Bold", "Example-CondensedBold", ""),
        &keep,
    )
    .unwrap();
    assert_eq!(info.variant.stretch.permille, 1000);
    assert_eq!(info.variant.weight.value, 700);
}

#[test]
fn condensed_in_style_scope_decides() {
    let info = infer_info_from_web_font(
        descriptor("Example", "Example", "Example", "Condensed"),
        &keep,
    )
    .unwrap();
    assert_eq!(info.variant.stretch.permille, STRETCH_CONDENSED);
}

#[test]
fn earlier_stretch_keyword_wins_in_style_scope() {
    // "semicondensed" holds "condensed", which is looked for first.
    let info = infer_info_from_web_font(
        descriptor("Example", "", "", "SemiCondensed"),
        &keep,
    )
    .unwrap();
    assert_eq!(info.variant.stretch.permille, 750);
    let wide = infer_info_from_web_font(descriptor("Example", "", "", "semi-expanded"), &keep)
        .unwrap();
    assert_eq!(wide.variant.stretch.permille, STRETCH_SEMI_EXPANDED);
}

#[test]
fn courier_mono_is_monospace_not_serif() {
    let info = infer_info_from_web_font(
        descriptor("Courier Mono", "Courier Mono", "CourierMono", ""),
        &keep,
    )
    .unwrap();
    assert_eq!(info.flags, FontFlags { monospace: true, serif: false });
}

#[test]
fn family_alone_is_no_search_scope() {
    let info = infer_info_from_web_font(descriptor("Courier Mono", "", "", ""), &keep).unwrap();
    assert_eq!(info.flags, FontFlags { monospace: false, serif: false });
}

#[test]
fn mono_shuts_out_serif_within_one_scope_only() {
    let one = infer_info_from_web_font(
        descriptor("Example", "Example Serif Mono", "", ""),
        &keep,
    )
    .unwrap();
    assert_eq!(one.flags, FontFlags { monospace: true, serif: false });
    let two = infer_info_from_web_font(
        descriptor("Example", "Example Mono", "Example-Serif", ""),
        &keep,
    )
    .unwrap();
    assert_eq!(two.flags, FontFlags { monospace: true, serif: true });
    let three = infer_info_from_web_font(descriptor("Example", "", "", "Sans Serif"), &keep)
        .unwrap();
    assert_eq!(three.flags, FontFlags { monospace: false, serif: true });
}

#[test]
fn inference_twice_gives_the_same_record() {
    let first = infer_info_from_web_font(
        descriptor("Example", "Example Light Oblique", "Example-LightOblique", "Light"),
        &keep,
    );
    let second = infer_info_from_web_font(
        descriptor("Example", "Example Light Oblique", "Example-LightOblique", "Light"),
        &keep,
    );
    assert_eq!(first, second);
    let info = first.unwrap();
    assert_eq!(info.variant.style, FontStyle::Oblique);
    assert_eq!(info.variant.weight.value, WEIGHT_LIGHT);
}

#[test]
fn style_scope_match_is_definitive() {
    // "thin" in the style scope ends the search; "black" elsewhere is not
    // looked at.
    let info = infer_info_from_web_font(
        descriptor("Example", "Example Black", "Example-Black", "Thin"),
        &keep,
    )
    .unwrap();
    assert_eq!(info.variant.weight.value, WEIGHT_THIN);
}

#[test]
fn last_fallback_keyword_wins() {
    // Without a match in the style scope, "light" and then "black" are
    // found; the later keyword stays.
    let info = infer_info_from_web_font(
        descriptor("Example", "Example Black", "Example-Light", ""),
        &keep,
    )
    .unwrap();
    assert_eq!(info.variant.weight.value, WEIGHT_BLACK);
    // "extralight" holds "light", which comes later in the list.
    let other = infer_info_from_web_font(
        descriptor("Example", "Example ExtraLight", "", ""),
        &keep,
    )
    .unwrap();
    assert_eq!(other.variant.weight.value, WEIGHT_LIGHT);
    let definitive = infer_info_from_web_font(
        descriptor("Example", "", "", "Extra Light"),
        &keep,
    )
    .unwrap();
    assert_eq!(definitive.variant.weight.value, WEIGHT_EXTRALIGHT);
}

#[test]
fn no_keyword_means_regular_normal() {
    let info = infer_info_from_web_font(descriptor("Example", "Example", "Example", ""), &keep)
        .unwrap();
    assert_eq!(info.variant.style, FontStyle::Normal);
    assert_eq!(info.variant.weight.value, WEIGHT_REGULAR);
    assert_eq!(info.variant.stretch.permille, STRETCH_NORMAL);
    assert_eq!(info.flags, FontFlags { monospace: false, serif: false });
}

#[test]
fn italic_wins_over_oblique() {
    let info = infer_info_from_web_font(
        descriptor("Example", "Example Oblique Italic", "", ""),
        &keep,
    )
    .unwrap();
    assert_eq!(info.variant.style, FontStyle::Italic);
    let slanted = infer_info_from_web_font(descriptor("Example", "Example SLANTED", "", ""), &keep)
        .unwrap();
    assert_eq!(slanted.variant.style, FontStyle::Oblique);
    // The style name itself does not decide the slant.
    let named = infer_info_from_web_font(descriptor("Example", "Example", "", "Italic"), &keep)
        .unwrap();
    assert_eq!(named.variant.style, FontStyle::Normal);
}

#[test]
fn coverage_defaults_to_every_codepoint() {
    let info = infer_info_from_web_font(descriptor("Example", "", "", ""), &keep).unwrap();
    assert_eq!(info.coverage, Coverage { runs: vec![0, 4294967295] });
    assert_eq!(info.coverage, Coverage::full());
    assert_eq!(FULL_COVERAGE_RUN, 4294967295);
}

#[test]
fn empty_names_miss_the_family() {
    assert_eq!(
        infer_info_from_web_font(descriptor("", "", "Example-Bold", "Bold"), &keep),
        Err(FontError::MissingFamily)
    );
    assert_eq!(
        infer_info_from_web_font(descriptor("Noto Sans", "", "", ""), &keep),
        Err(FontError::MissingFamily)
    );
    assert_eq!(
        FontError::MissingFamily.message(),
        "empty family (cannot infer from font.family and font.fullName)"
    );
}

#[test]
fn empty_or_generic_family_reads_the_full_name() {
    assert_eq!(font_family_web_to_typst("", "Example Sans", &keep), Ok("Example Sans".to_string()));
    assert_eq!(
        font_family_web_to_typst("Noto Sans", "Noto Sans CJK", &keep),
        Ok("Noto Sans CJK".to_string())
    );
    assert_eq!(font_family_web_to_typst("NewCM10", "NewCM10 Book", &keep), Ok("NewCM10 Book".to_string()));
    assert_eq!(
        font_family_web_to_typst("NewComputerModern", "New Computer Modern", &keep),
        Ok("New Computer Modern".to_string())
    );
    assert_eq!(font_family_web_to_typst("Example", "Other", &keep), Ok("Example".to_string()));
    assert_eq!(font_family_web_to_typst("noto", "Other", &keep), Ok("noto".to_string()));
}

#[test]
fn canonicalizer_answer_becomes_the_family() {
    let upper = |name: &str| name.to_uppercase();
    let info = infer_info_from_web_font(descriptor("Example", "Example Bold", "", ""), &upper)
        .unwrap();
    assert_eq!(info.family, "EXAMPLE");
    let blank = |_: &str| String::new();
    assert_eq!(
        infer_info_from_web_font(descriptor("Example", "Example Bold", "", ""), &blank),
        Err(FontError::MissingFamily)
    );
}

#[test]
fn given_family_is_taken_as_it_is() {
    let names = descriptor("ignored", "Example Medium", "", "");
    let info = infer_info_with_family(&names, "Example".to_string()).unwrap();
    assert_eq!(info.family, "Example");
    assert_eq!(info.variant.weight.value, 500);
    assert_eq!(infer_info_with_family(&names, String::new()), Err(FontError::MissingFamily));
}

#[test]
fn weights_are_kept_between_1_and_1000() {
    assert_eq!(FontWeight::from_number(0).value, 1);
    assert_eq!(FontWeight::from_number(1).value, 1);
    assert_eq!(FontWeight::from_number(400).value, 400);
    assert_eq!(FontWeight::from_number(1000).value, 1000);
    assert_eq!(FontWeight::from_number(1001).value, 1000);
    assert_eq!(FontWeight::from_number(u16::MAX).value, 1000);
}
