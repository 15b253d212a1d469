use std::sync::Arc;
use typeset_bridge::font::book::{
    BufferFontLoader, FontBook, FontLoader, FontProfile, FontSlot, PartialFontBook, WebFont,
    WebFontLoader,
};
use typeset_bridge::font::error::{DescriptorFault, FontError, HostHandle};
use typeset_bridge::font::faces::face_record;
use typeset_bridge::font::info::{
    Coverage, FontFlags, FontInfo, FontStretch, FontStyle, FontVariant, FontWeight,
};
use typeset_bridge::font::searcher::{BrowserFontSearcher, FontResolverImpl};
use typeset_bridge::font::web::{HostEntry, HostValue, WebFontDescriptor};

fn keep(name: &str) -> String {
    name.to_string()
}

fn text(id: u32, s: &str) -> HostValue {
    HostValue { handle: HostHandle { id }, text: Some(s.to_string()), callable: false, info: None }
}

fn plain(id: u32, callable: bool, info: Option<Vec<FontInfo>>) -> HostValue {
    HostValue { handle: HostHandle { id }, text: None, callable, info }
}

fn entry(key: &str, value: HostValue) -> HostEntry {
    HostEntry { key: text(0, key), value }
}

fn web_font(id: u32, family: &str, full_name: &str) -> WebFontDescriptor {
    WebFontDescriptor {
        handle: HostHandle { id },
        entries: Some(vec![
            entry("family", text(id + 1, family)),
            entry("fullName", text(id + 2, full_name)),
            entry("ref", plain(id + 3, false, None)),
            entry("blob", plain(id + 4, true, None)),
        ]),
    }
}

fn record(family: &str, weight: u16) -> FontInfo {
    FontInfo {
        family: family.to_string(),
        variant: FontVariant {
            style: FontStyle::Normal,
            weight: FontWeight { value: weight },
            stretch: FontStretch { permille: 1000 },
        },
        flags: FontFlags { monospace: false, serif: false },
        coverage: Coverage { runs: vec![0, 128] },
    }
}

fn web_slot(slot: &FontSlot) -> &WebFontLoader {
    match &slot.loader {
        FontLoader::Web(loader) => loader,
        FontLoader::Buffer(_) => panic!("a host-held face was expected"),
    }
}

fn buffer_slot(slot: &FontSlot) -> &BufferFontLoader {
    match &slot.loader {
        FontLoader::Buffer(loader) => loader,
        FontLoader::Web(_) => panic!("a face held in memory was expected"),
    }
}

fn from_typst(face: &typst::text::FontInfo) -> FontInfo {
    let json = serde_json::to_value(face).unwrap();
    FontInfo {
        family: face.family.clone(),
        variant: FontVariant {
            style: match face.variant.style {
                typst::text::FontStyle::Normal => FontStyle::Normal,
                typst::text::FontStyle::Italic => FontStyle::Italic,
                typst::text::FontStyle::Oblique => FontStyle::Oblique,
            },
            weight: FontWeight { value: face.variant.weight.to_number() },
            stretch: FontStretch {
                permille: json["variant"]["stretch"].as_u64().unwrap() as u16,
            },
        },
        flags: FontFlags {
            monospace: face.flags.contains(typst::text::FontFlags::MONOSPACE),
            serif: face.flags.contains(typst::text::FontFlags::SERIF),
        },
        coverage: Coverage {
            runs: json["coverage"]
                .as_array()
                .unwrap()
                .iter()
                .map(|run| run.as_u64().unwrap() as u32)
                .collect(),
        },
    }
}

fn read_faces(data: &Vec<u8>) -> Vec<FontInfo> {
    typst::text::FontInfo::iter(data).map(|face| from_typst(&face)).collect()
}

fn decode_face(data: &Vec<u8>, index: u32) -> Option<typst::text::Font> {
    typst::text::Font::new(typst::foundations::Bytes::new(data.clone()), index)
}

#[test]
fn new_searcher_is_empty() {
    let searcher = BrowserFontSearcher::new();
    assert_eq!(searcher.book.len(), 0);
    assert_eq!(searcher.fonts.len(), 0);
    assert_eq!(searcher.profile, FontProfile { version: "v1beta".to_string() });
    assert!(!searcher.partial_book.partial_hit);
    assert_eq!(searcher.partial_book.changes.len(), 0);
    let default = BrowserFontSearcher::default();
    assert_eq!(default.book.len(), 0);
    assert_eq!(default.fonts.len(), 0);
    assert_eq!(default.profile.version, "v1beta");
    assert!(!default.partial_book.partial_hit);
    assert_eq!(default.partial_book.changes.len(), 0);
}

#[test]
fn book_hands_out_ids_in_order() {
    let mut book = FontBook::new();
    assert_eq!(book.len(), 0);
    assert!(book.info(0).is_none());
    book.push(record("A", 400));
    book.push(record("B", 700));
    assert_eq!(book.len(), 2);
    assert_eq!(book.info(0), Some(&record("A", 400)));
    assert_eq!(book.info(1), Some(&record("B", 700)));
    assert!(book.info(2).is_none());
    book.push(record("C", 100));
    assert_eq!(book.info(0), Some(&record("A", 400)));
    assert_eq!(book.info(2), Some(&record("C", 100)));
}

#[test]
fn web_fonts_get_ids_and_slots_in_step() {
    let mut searcher = BrowserFontSearcher::new();
    let failures = searcher.add_web_fonts(
        vec![web_font(10, "Example", "Example Bold"), web_font(20, "Other", "Other Thin Italic")],
        &keep,
    );
    assert!(failures.is_empty());
    assert_eq!(searcher.book.len(), 2);
    assert_eq!(searcher.fonts.len(), 2);
    let first = web_slot(&searcher.fonts[0]);
    assert_eq!(first.index, 0);
    assert_eq!(first.font.index, 0);
    assert_eq!(first.font.context, HostHandle { id: 13 });
    assert_eq!(first.font.blob, HostHandle { id: 14 });
    assert_eq!(Some(&first.font.info), searcher.book.info(0));
    assert_eq!(first.font.info.variant.weight.value, 700);
    let second = web_slot(&searcher.fonts[1]);
    assert_eq!(second.index, 0);
    assert_eq!(second.font.index, 1);
    assert_eq!(second.font.context, HostHandle { id: 23 });
    assert_eq!(second.font.info.family, "Other");
    assert_eq!(second.font.info.variant.style, FontStyle::Italic);
}

#[test]
fn a_bad_descriptor_does_not_stop_the_others() {
    let mut searcher = BrowserFontSearcher::new();
    let nameless = web_font(20, "", "");
    let mut odd = web_font(30, "Odd", "Odd");
    odd.entries.as_mut().unwrap().push(entry("size", text(39, "12")));
    let failures = searcher.add_web_fonts(
        vec![web_font(10, "First", "First"), nameless, odd, web_font(40, "Last", "Last Light")],
        &keep,
    );
    assert_eq!(
        failures,
        vec![
            (1, FontError::MissingFamily),
            (
                2,
                FontError::MalformedDescriptor {
                    fault: DescriptorFault::UnknownKey { key: "size".to_string() }
                }
            ),
        ]
    );
    assert_eq!(searcher.book.len(), 2);
    assert_eq!(searcher.fonts.len(), 2);
    assert_eq!(searcher.book.info(0).unwrap().family, "First");
    assert_eq!(searcher.book.info(1).unwrap().family, "Last");
    assert_eq!(web_slot(&searcher.fonts[1]).font.index, 1);
    assert_eq!(web_slot(&searcher.fonts[1]).font.context, HostHandle { id: 43 });
}

#[test]
fn stored_faces_of_one_font_are_numbered_within_it() {
    let mut searcher = BrowserFontSearcher::new();
    searcher.add_web_fonts(vec![web_font(10, "Before", "Before")], &keep);
    let mut collection = web_font(20, "Collection", "Collection");
    collection.entries.as_mut().unwrap().push(entry(
        "info",
        plain(29, false, Some(vec![record("C", 300), record("C", 400), record("C", 700)])),
    ));
    let failures = searcher.add_web_fonts(vec![collection], &keep);
    assert!(failures.is_empty());
    assert_eq!(searcher.book.len(), 4);
    for (face, id) in [(0usize, 1usize), (1, 2), (2, 3)] {
        let loader = web_slot(&searcher.fonts[id]);
        assert_eq!(loader.index, face);
        assert_eq!(loader.font.index, id);
        assert_eq!(Some(&loader.font.info), searcher.book.info(id));
        assert_eq!(loader.font.context, HostHandle { id: 23 });
        assert_eq!(loader.font.blob, HostHandle { id: 24 });
    }
    assert_eq!(searcher.book.info(3).unwrap().variant.weight.value, 700);
}

#[test]
fn bytes_without_a_font_add_no_face() {
    let mut searcher = BrowserFontSearcher::new();
    searcher.add_font_data(Arc::new(b"this is no font".to_vec()), &read_faces);
    searcher.add_font_data(Arc::new(Vec::new()), &read_faces);
    assert_eq!(searcher.book.len(), 0);
    assert_eq!(searcher.fonts.len(), 0);
}

#[test]
fn the_reader_is_asked_for_the_bytes_given() {
    let mut searcher = BrowserFontSearcher::new();
    let by_length = |data: &Vec<u8>| -> Vec<FontInfo> {
        (0..data.len()).map(|i| record("Face", 100 * (i as u16 + 1))).collect()
    };
    searcher.add_font_data(Arc::new(vec![7, 7, 7]), &by_length);
    searcher.add_font_data(Arc::new(vec![]), &by_length);
    searcher.add_font_data(Arc::new(vec![7]), &by_length);
    assert_eq!(
        searcher.book.infos,
        vec![record("Face", 100), record("Face", 200), record("Face", 300), record("Face", 100)]
    );
    assert_eq!(searcher.fonts.len(), 4);
    assert_eq!(buffer_slot(&searcher.fonts[2]).index, 2);
    assert_eq!(*buffer_slot(&searcher.fonts[2]).buffer, vec![7, 7, 7]);
    assert_eq!(buffer_slot(&searcher.fonts[3]).index, 0);
    assert_eq!(*buffer_slot(&searcher.fonts[3]).buffer, vec![7]);
}

#[test]
fn font_data_is_read_face_by_face() {
    let mut searcher = BrowserFontSearcher::new();
    searcher.add_web_fonts(vec![web_font(10, "Before", "Before")], &keep);
    let mut expected = vec![searcher.book.info(0).unwrap().clone()];
    for data in typst_assets::fonts() {
        let before = searcher.book.len();
        let faces: Vec<typst::text::FontInfo> = typst::text::FontInfo::iter(data).collect();
        assert!(!faces.is_empty());
        let buffer = Arc::new(data.to_vec());
        searcher.add_font_data(buffer.clone(), &read_faces);
        assert_eq!(searcher.book.len(), before + faces.len());
        assert_eq!(searcher.fonts.len(), searcher.book.len());
        for (i, face) in faces.iter().enumerate() {
            expected.push(from_typst(face));
            let loader = buffer_slot(&searcher.fonts[before + i]);
            assert_eq!(loader.index, i);
            assert!(Arc::ptr_eq(&loader.buffer, &buffer));
            assert!(loader.load(&decode_face).is_some());
            assert!(searcher.fonts[before + i].load(None, &decode_face).is_some());
        }
    }
    assert_eq!(searcher.book.infos, expected);
    let families: Vec<&str> = searcher.book.infos.iter().map(|f| f.family.as_str()).collect();
    assert!(families.contains(&"Libertinus Serif"));
    assert!(families.contains(&"DejaVu Sans Mono"));
    let mono_bold = searcher
        .book
        .infos
        .iter()
        .find(|f| f.family == "DejaVu Sans Mono" && f.variant.style == FontStyle::Normal
            && f.variant.weight.value == 700)
        .unwrap();
    assert!(mono_bold.flags.monospace);
    assert_eq!(mono_bold.variant.stretch.permille, 1000);
    assert!(mono_bold.coverage.runs.len() > 2);
    assert!(searcher.book.infos.iter().any(|f| f.variant.style != FontStyle::Normal));
}

#[test]
fn loaders_decode_what_the_bytes_hold() {
    let data = typst_assets::fonts().next().unwrap().to_vec();
    let good = BufferFontLoader { buffer: Arc::new(data.clone()), index: 0 };
    let font = good.load(&decode_face).unwrap();
    assert_eq!(font.info().family, "Libertinus Serif");
    assert!(good.load(&decode_face).is_some());
    let beyond = BufferFontLoader { buffer: Arc::new(data.clone()), index: 7 };
    assert!(beyond.load(&decode_face).is_none());
    let bad = BufferFontLoader { buffer: Arc::new(vec![1, 2, 3]), index: 0 };
    assert!(bad.load(&decode_face).is_none());
    // A position that no font resource can have is not even asked for.
    let always = |data: &Vec<u8>, _: u32| decode_face(data, 0);
    let huge = BufferFontLoader { buffer: Arc::new(data.clone()), index: usize::MAX };
    assert!(huge.load(&always).is_none());
    let last = BufferFontLoader { buffer: Arc::new(data.clone()), index: u32::MAX as usize };
    assert!(last.load(&always).is_some());
    let which = |data: &Vec<u8>, index: u32| if index == 3 { decode_face(data, 0) } else { None };
    let third = BufferFontLoader { buffer: Arc::new(data.clone()), index: 3 };
    assert!(third.load(&which).is_some());
    assert!(good.load(&which).is_none());

    let web = WebFontLoader::new(
        WebFont {
            info: record("Libertinus Serif", 400),
            context: HostHandle { id: 1 },
            blob: HostHandle { id: 2 },
            index: 5,
        },
        0,
    );
    assert_eq!(web.load(Some(data.clone()), &decode_face).unwrap().info().family, "Libertinus Serif");
    assert!(web.load(None, &decode_face).is_none());
    assert!(web.load(None, &always).is_none());
    assert!(web.load(Some(vec![0; 16]), &decode_face).is_none());
    let slot = FontSlot::new(FontLoader::Web(web));
    assert!(slot.load(Some(data), &decode_face).is_some());
    assert!(slot.load(None, &decode_face).is_none());
}

#[test]
fn face_record_keeps_its_parts() {
    let info = face_record("Example".to_string(), FontStyle::Oblique, 650, 875, true, false, vec![1, 2, 3]);
    assert_eq!(
        info,
        FontInfo {
            family: "Example".to_string(),
            variant: FontVariant {
                style: FontStyle::Oblique,
                weight: FontWeight { value: 650 },
                stretch: FontStretch { permille: 875 },
            },
            flags: FontFlags { monospace: true, serif: false },
            coverage: Coverage { runs: vec![1, 2, 3] },
        }
    );
    assert_eq!(face_record(String::new(), FontStyle::Normal, 0, 0, false, true, vec![]).variant.weight.value, 1);
}

#[test]
fn resolver_keeps_the_registry() {
    let mut searcher = BrowserFontSearcher::new();
    searcher.add_web_fonts(vec![web_font(10, "A", "A"), web_font(20, "B", "B Bold")], &keep);
    let expected: Vec<FontInfo> = searcher.book.infos.clone();
    let resolver = FontResolverImpl::from(searcher);
    assert_eq!(resolver.book.infos, expected);
    assert_eq!(resolver.fonts.len(), 2);
    assert_eq!(web_slot(&resolver.fonts[1]).font.index, 1);
    assert_eq!(resolver.profile.version, "v1beta");
    assert_eq!(resolver.face_of(&expected[1]), Some(1));
    assert_eq!(resolver.face_of(&record("B", 400)), None);
}

#[test]
fn merge_gives_waiting_faces_their_ids() {
    let mut searcher = BrowserFontSearcher::new();
    searcher.add_web_fonts(vec![web_font(10, "A", "A")], &keep);
    let mut partial = PartialFontBook::new();
    partial.push(
        record("Late", 400),
        FontSlot::new(FontLoader::Web(WebFontLoader::new(
            WebFont {
                info: record("Stale", 100),
                context: HostHandle { id: 50 },
                blob: HostHandle { id: 51 },
                index: 77,
            },
            2,
        ))),
    );
    partial.push(
        record("Later", 700),
        FontSlot::new(FontLoader::Buffer(BufferFontLoader { buffer: Arc::new(vec![9, 9]), index: 3 })),
    );
    assert!(partial.partial_hit);
    let mut resolver = FontResolverImpl::new(searcher.book, partial, searcher.fonts, searcher.profile);
    resolver.merge_partial();
    assert_eq!(resolver.book.len(), 3);
    assert_eq!(resolver.fonts.len(), 3);
    assert_eq!(resolver.book.info(0).unwrap().family, "A");
    assert_eq!(resolver.book.info(1), Some(&record("Late", 400)));
    assert_eq!(resolver.book.info(2), Some(&record("Later", 700)));
    let late = web_slot(&resolver.fonts[1]);
    assert_eq!(late.font.index, 1);
    assert_eq!(late.font.info, record("Late", 400));
    assert_eq!(late.font.context, HostHandle { id: 50 });
    assert_eq!(late.index, 2);
    let later = buffer_slot(&resolver.fonts[2]);
    assert_eq!(later.index, 3);
    assert_eq!(*later.buffer, vec![9, 9]);
    assert!(!resolver.partial_book.partial_hit);
    assert_eq!(resolver.partial_book.changes.len(), 0);
    resolver.merge_partial();
    assert_eq!(resolver.book.len(), 3);
}
