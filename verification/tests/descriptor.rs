use typeset_bridge::font::error::{DescriptorFault, DescriptorKey, FontError, HostHandle};
use typeset_bridge::font::infer::WebFontInfo;
use typeset_bridge::font::info::{
    Coverage, FontFlags, FontInfo, FontStretch, FontStyle, FontVariant, FontWeight,
};
use typeset_bridge::font::web::{
    classify_key, DescriptorFields, FontBuilder, HostEntry, HostValue, WebFontDescriptor,
};

fn keep(name: &str) -> String {
    name.to_string()
}

fn text(id: u32, s: &str) -> HostValue {
    HostValue { handle: HostHandle { id }, text: Some(s.to_string()), callable: false, info: None }
}

fn object(id: u32) -> HostValue {
    HostValue { handle: HostHandle { id }, text: None, callable: false, info: None }
}

fn function(id: u32) -> HostValue {
    HostValue { handle: HostHandle { id }, text: None, callable: true, info: None }
}

fn store(id: u32, infos: Vec<FontInfo>) -> HostValue {
    HostValue { handle: HostHandle { id }, text: None, callable: false, info: Some(infos) }
}

fn entry(key: &str, value: HostValue) -> HostEntry {
    HostEntry { key: text(0, key), value }
}

fn descriptor(entries: Vec<HostEntry>) -> WebFontDescriptor {
    WebFontDescriptor { handle: HostHandle { id: 1 }, entries: Some(entries) }
}

fn record(family: &str, weight: u16) -> FontInfo {
    FontInfo {
        family: family.to_string(),
        variant: FontVariant {
            style: FontStyle::Normal,
            weight: FontWeight { value: weight },
            stretch: FontStretch { permille: 1000 },
        },
        flags: FontFlags { monospace: false, serif: true },
        coverage: Coverage { runs: vec![32, 95] },
    }
}

fn malformed(fault: DescriptorFault) -> FontError {
    FontError::MalformedDescriptor { fault }
}

#[test]
fn full_descriptor_is_read() {
    let d = descriptor(vec![
        entry("postscriptName", text(10, "Example-BoldItalic")),
        entry("family", text(11, "Example")),
        entry("fullName", text(12, "Example Bold Italic")),
        entry("style", text(13, "")),
        entry("ref", object(14)),
        entry("blob", function(15)),
    ]);
    let (reference, blob, infos) = FontBuilder {}.font_web_to_typst(&d, &keep).unwrap();
    assert_eq!(reference, HostHandle { id: 14 });
    assert_eq!(blob, HostHandle { id: 15 });
    assert_eq!(infos.len(), 1);
    assert_eq!(infos[0].family, "Example");
    assert_eq!(infos[0].variant.style, FontStyle::Italic);
    assert_eq!(infos[0].variant.weight.value, 700);
}

#[test]
fn fields_are_those_of_the_last_entry_with_each_key() {
    let d = descriptor(vec![
        entry("family", text(10, "First")),
        entry("ref", object(11)),
        entry("family", text(12, "Second")),
        entry("ref", text(13, "a text will do as a handle")),
        entry("blob", function(14)),
    ]);
    let fields = FontBuilder {}.read_fields(&d).unwrap();
    assert_eq!(
        fields,
        DescriptorFields {
            names: WebFontInfo {
                family: "Second".to_string(),
                full_name: String::new(),
                postscript_name: String::new(),
                style: String::new(),
            },
            reference: Some(HostHandle { id: 13 }),
            blob: Some(HostHandle { id: 14 }),
            cache: None,
        }
    );
}

#[test]
fn stored_records_are_used_as_they_are() {
    let stored = vec![record("Stored", 300), record("Stored", 900)];
    let d = descriptor(vec![
        entry("family", text(10, "")),
        entry("info", store(11, stored.clone())),
        entry("ref", object(12)),
        entry("blob", function(13)),
    ]);
    let (_, _, infos) = FontBuilder {}.font_web_to_typst(&d, &keep).unwrap();
    assert_eq!(infos, stored);
}

#[test]
fn a_store_that_does_not_decode_is_no_store() {
    let d = descriptor(vec![
        entry("family", text(10, "Example")),
        entry("info", store(11, vec![record("Stored", 300)])),
        entry("info", object(12)),
        entry("ref", object(13)),
        entry("blob", function(14)),
    ]);
    let (_, _, infos) = FontBuilder {}.font_web_to_typst(&d, &keep).unwrap();
    assert_eq!(infos.len(), 1);
    assert_eq!(infos[0].family, "Example");
    assert_eq!(infos[0].coverage, Coverage::full());
}

#[test]
fn unknown_key_is_a_fault() {
    let d = descriptor(vec![
        entry("family", text(10, "Example")),
        entry("weight", text(11, "bold")),
        entry("colour", text(12, "red")),
    ]);
    let error = FontBuilder {}.font_web_to_typst(&d, &keep).unwrap_err();
    assert_eq!(error, malformed(DescriptorFault::UnknownKey { key: "weight".to_string() }));
    assert_eq!(error.message(), "unknown key for web_font: weight");
}

#[test]
fn wrong_kinds_of_values_are_faults() {
    let not_text = descriptor(vec![entry("fullName", object(21))]);
    let error = FontBuilder {}.font_web_to_typst(&not_text, &keep).unwrap_err();
    assert_eq!(
        error,
        malformed(DescriptorFault::NotText {
            field: DescriptorKey::FullName,
            value: HostHandle { id: 21 }
        })
    );
    assert_eq!(error.message(), "expected string for web_font.fullName");

    let key = descriptor(vec![HostEntry { key: object(22), value: text(23, "x") }]);
    let error = FontBuilder {}.font_web_to_typst(&key, &keep).unwrap_err();
    assert_eq!(error, malformed(DescriptorFault::KeyNotText { value: HostHandle { id: 22 } }));
    assert_eq!(error.message(), "expected string for web_font.key");

    let blob = descriptor(vec![entry("blob", object(24))]);
    let error = FontBuilder {}.font_web_to_typst(&blob, &keep).unwrap_err();
    assert_eq!(error, malformed(DescriptorFault::NotCallable { value: HostHandle { id: 24 } }));
    assert_eq!(error.message(), "expected function for web_font.blob");

    let no_object = WebFontDescriptor { handle: HostHandle { id: 25 }, entries: None };
    let error = FontBuilder {}.font_web_to_typst(&no_object, &keep).unwrap_err();
    assert_eq!(error, malformed(DescriptorFault::NotAnObject { value: HostHandle { id: 25 } }));
    assert_eq!(error.message(), "expected object for iterating font");
}

#[test]
fn the_first_faulty_entry_is_told() {
    let d = descriptor(vec![
        entry("style", object(30)),
        entry("unknown", text(31, "x")),
    ]);
    assert_eq!(
        FontBuilder {}.font_web_to_typst(&d, &keep),
        Err(malformed(DescriptorFault::NotText {
            field: DescriptorKey::Style,
            value: HostHandle { id: 30 }
        }))
    );
}

#[test]
fn missing_parts_are_told_in_order() {
    let builder = FontBuilder {};
    let nothing = descriptor(vec![]);
    assert_eq!(builder.font_web_to_typst(&nothing, &keep), Err(FontError::MissingFamily));

    let names_only = descriptor(vec![entry("family", text(10, "Example"))]);
    let error = builder.font_web_to_typst(&names_only, &keep).unwrap_err();
    assert_eq!(error, FontError::MissingReference { family: "Example".to_string() });
    assert_eq!(error.message(), "Could not find font reference for Example");

    let no_blob = descriptor(vec![entry("family", text(10, "Example")), entry("ref", object(11))]);
    let error = builder.font_web_to_typst(&no_blob, &keep).unwrap_err();
    assert_eq!(error, FontError::MissingLoader { family: "Example".to_string() });
    assert_eq!(error.message(), "Could not find font blob loader for Example");

    // The family told is the one the descriptor gives, not the one inferred.
    let generic = descriptor(vec![
        entry("family", text(10, "Noto Sans")),
        entry("fullName", text(11, "Noto Sans Bold")),
    ]);
    assert_eq!(
        builder.font_web_to_typst(&generic, &keep),
        Err(FontError::MissingReference { family: "Noto Sans".to_string() })
    );
}

#[test]
fn text_of_a_value() {
    let builder = FontBuilder {};
    assert_eq!(builder.to_string(Some(DescriptorKey::Family), &text(1, "Example")), Ok("Example".to_string()));
    assert_eq!(
        builder.to_string(Some(DescriptorKey::Family), &function(2)),
        Err(malformed(DescriptorFault::NotText {
            field: DescriptorKey::Family,
            value: HostHandle { id: 2 }
        }))
    );
    assert_eq!(
        builder.to_string(None, &object(3)),
        Err(malformed(DescriptorFault::KeyNotText { value: HostHandle { id: 3 } }))
    );
}

#[test]
fn keys_are_spelled_exactly() {
    assert_eq!(classify_key("postscriptName"), Some(DescriptorKey::PostscriptName));
    assert_eq!(classify_key("family"), Some(DescriptorKey::Family));
    assert_eq!(classify_key("fullName"), Some(DescriptorKey::FullName));
    assert_eq!(classify_key("style"), Some(DescriptorKey::Style));
    assert_eq!(classify_key("ref"), Some(DescriptorKey::Reference));
    assert_eq!(classify_key("info"), Some(DescriptorKey::Info));
    assert_eq!(classify_key("blob"), Some(DescriptorKey::Blob));
    assert_eq!(classify_key("Family"), None);
    assert_eq!(classify_key("fullname"), None);
    assert_eq!(classify_key(""), None);
    for key in [
        DescriptorKey::PostscriptName,
        DescriptorKey::Family,
        DescriptorKey::FullName,
        DescriptorKey::Style,
        DescriptorKey::Reference,
        DescriptorKey::Info,
        DescriptorKey::Blob,
    ] {
        assert_eq!(classify_key(key.name()), Some(key));
    }
}
