//! The registry of faces: identity records in the order of their face ids,
//! and beside each the loader of its bytes.
use std::sync::Arc;
use vstd::prelude::*;
use crate::font::error::HostHandle;
use crate::font::faces::decoded_by;
use crate::font::info::{views_of, FontInfo, FontInfoView};

verus! {

/// The bytes of a font resource, shared by the loaders of its faces.
pub type Buffer = Arc<Vec<u8>>;

/// The identity records of all known faces. The position of a record is the
/// id of its face; records are only ever added at the end, so an id once
/// given stays with its face.
#[derive(Debug)]
pub struct FontBook {
    pub infos: Vec<FontInfo>,
}

impl View for FontBook {
    type V = Seq<FontInfoView>;

    open spec fn view(&self) -> Seq<FontInfoView> {
        views_of(self.infos@)
    }
}

impl FontBook {
    /// A book without faces.
    pub fn new() -> (book: Self)
        ensures
            book@ == Seq::<FontInfoView>::empty(),
    {
        let book = FontBook { infos: Vec::new() };
        assert(book@ =~= Seq::<FontInfoView>::empty());
        book
    }

    /// The number of faces, which is the id the next face gets.
    pub fn len(&self) -> (n: usize)
        ensures
            n == self@.len(),
    {
        self.infos.len()
    }

    /// Adds a face at the end. Its id is the number of faces before.
    pub fn push(&mut self, info: FontInfo)
        ensures
            final(self)@ == old(self)@.push(info@),
    {
        self.infos.push(info);
        assert(self@ =~= old(self)@.push(info@));
    }

    /// The record of the face with the id `index`, if there is one.
    pub fn info(&self, index: usize) -> (found: Option<&FontInfo>)
        ensures
            match found {
                Some(info) => index < self@.len() && info@ == self@[index as int],
                None => index >= self@.len(),
            },
    {
        if index < self.infos.len() {
            Some(&self.infos[index])
        } else {
            None
        }
    }
}

/// Loads a face from the bytes of a font resource held in memory.
#[derive(Debug)]
pub struct BufferFontLoader {
    pub buffer: Buffer,
    /// The position of the face among the faces of the resource.
    pub index: usize,
}

/// A face that the host holds.
#[derive(Debug)]
pub struct WebFont {
    pub info: FontInfo,
    /// The host's handle to the font.
    pub context: HostHandle,
    /// The host's accessor of the font's bytes.
    pub blob: HostHandle,
    /// The id of the face.
    pub index: usize,
}

/// Loads a face by asking the host for the bytes of its font.
#[derive(Debug)]
pub struct WebFontLoader {
    pub font: WebFont,
    /// The position of the face among the faces of the font.
    pub index: usize,
}

impl BufferFontLoader {
    /// Decodes the face from the bytes with `decode`, which is asked for
    /// the face at the loader's position. Yields nothing where `decode`
    /// does, or where the position is none a font resource can have. The
    /// loader stays as it is and may be asked again.
    pub fn load<D: Fn(&Vec<u8>, u32) -> Option<typst::text::Font>>(&self, decode: &D) -> (font:
        Option<typst::text::Font>)
        requires
            forall|bytes: &Vec<u8>, index: u32| call_requires(*decode, (bytes, index)),
        ensures
            self.index > u32::MAX ==> font is None,
            self.index <= u32::MAX ==> decoded_by(decode, self.buffer@, self.index as u32, font),
    {
        if self.index > u32::MAX as usize {
            return None;
        }
        let bytes: &Vec<u8> = &self.buffer;
        decode(bytes, self.index as u32)
    }
}

impl WebFontLoader {
    /// The loader of the face at position `index` of the font `font`.
    pub fn new(font: WebFont, index: usize) -> (loader: Self)
        ensures
            loader.font == font,
            loader.index == index,
    {
        WebFontLoader { font, index }
    }

    /// Decodes the face with `decode` from what the host handed over when
    /// asked for the font's bytes. Yields nothing where the host handed
    /// over no bytes, where `decode` yields nothing, or where the position
    /// is none a font resource can have.
    pub fn load<D: Fn(&Vec<u8>, u32) -> Option<typst::text::Font>>(
        &self,
        fetched: Option<Vec<u8>>,
        decode: &D,
    ) -> (font: Option<typst::text::Font>)
        requires
            forall|bytes: &Vec<u8>, index: u32| call_requires(*decode, (bytes, index)),
        ensures
            match fetched {
                Some(bytes) => if self.index <= u32::MAX {
                    decoded_by(decode, bytes@, self.index as u32, font)
                } else {
                    font is None
                },
                None => font is None,
            },
    {
        match fetched {
            Some(bytes) => {
                if self.index > u32::MAX as usize {
                    return None;
                }
                decode(&bytes, self.index as u32)
            },
            None => None,
        }
    }
}

/// The two ways to get at the bytes of a face.
#[derive(Debug)]
pub enum FontLoader {
    Buffer(BufferFontLoader),
    Web(WebFontLoader),
}

/// The place of one face in the registry: the loader of its bytes, owned by
/// the slot alone.
#[derive(Debug)]
pub struct FontSlot {
    pub loader: FontLoader,
}

/// What a slot holds, as mathematical values.
pub enum FontSlotView {
    Buffer { data: Seq<u8>, face: int },
    Web { info: FontInfoView, context: HostHandle, blob: HostHandle, index: int, face: int },
}

impl View for FontSlot {
    type V = FontSlotView;

    open spec fn view(&self) -> FontSlotView {
        match self.loader {
            FontLoader::Buffer(loader) => FontSlotView::Buffer {
                data: loader.buffer@,
                face: loader.index as int,
            },
            FontLoader::Web(loader) => FontSlotView::Web {
                info: loader.font.info@,
                context: loader.font.context,
                blob: loader.font.blob,
                index: loader.font.index as int,
                face: loader.index as int,
            },
        }
    }
}

impl FontSlot {
    /// The slot that owns `loader`.
    pub fn new(loader: FontLoader) -> (slot: Self)
        ensures
            slot.loader == loader,
    {
        FontSlot { loader }
    }

    /// Loads the face of the slot with its loader. `fetched` is what the
    /// host handed over for a face that it holds; a face held in memory
    /// does not heed it. Yields nothing where the face cannot be had, and
    /// leaves the slot as it is either way.
    pub fn load<D: Fn(&Vec<u8>, u32) -> Option<typst::text::Font>>(
        &self,
        fetched: Option<Vec<u8>>,
        decode: &D,
    ) -> (font: Option<typst::text::Font>)
        requires
            forall|bytes: &Vec<u8>, index: u32| call_requires(*decode, (bytes, index)),
        ensures
            match self.loader {
                FontLoader::Buffer(loader) => if loader.index <= u32::MAX {
                    decoded_by(decode, loader.buffer@, loader.index as u32, font)
                } else {
                    font is None
                },
                FontLoader::Web(loader) => match fetched {
                    Some(bytes) => if loader.index <= u32::MAX {
                        decoded_by(decode, bytes@, loader.index as u32, font)
                    } else {
                        font is None
                    },
                    None => font is None,
                },
            },
    {
        match &self.loader {
            FontLoader::Buffer(loader) => loader.load(decode),
            FontLoader::Web(loader) => loader.load(fetched, decode),
        }
    }
}

/// The views of the slots, in order.
pub open spec fn slot_views(slots: Seq<FontSlot>) -> Seq<FontSlotView> {
    Seq::new(slots.len(), |i: int| slots[i]@)
}

/// Whether each host-held face of `slots` knows its own id.
pub open spec fn ids_in_place(slots: Seq<FontSlotView>) -> bool {
    forall|i: int|
        0 <= i < slots.len() ==> (#[trigger] slots[i] matches FontSlotView::Web {
            index,
            ..
        } ==> index == i)
}

/// The slots of the faces of a resource held in memory, `count` of them.
pub open spec fn buffer_slots(data: Seq<u8>, count: int) -> Seq<FontSlotView> {
    Seq::new(count as nat, |i: int| FontSlotView::Buffer { data, face: i })
}

/// The slots of the faces `infos` of a font that the host holds, the first
/// of which gets the id `base`.
pub open spec fn web_slots(
    context: HostHandle,
    blob: HostHandle,
    infos: Seq<FontInfoView>,
    base: int,
) -> Seq<FontSlotView> {
    Seq::new(
        infos.len(),
        |i: int| FontSlotView::Web { info: infos[i], context, blob, index: base + i, face: i },
    )
}

/// Under which settings a registry was filled.
#[derive(Debug, PartialEq, Eq)]
pub struct FontProfile {
    pub version: String,
}

/// Faces found while a registry is in use, kept apart until they are taken
/// into the book. No face of it has an id yet.
#[derive(Debug)]
pub struct PartialFontBook {
    /// Whether anything was added since the last merge.
    pub partial_hit: bool,
    pub changes: Vec<(FontInfo, FontSlot)>,
}

impl PartialFontBook {
    /// The faces waiting, in the order they were found.
    pub open spec fn infos(&self) -> Seq<FontInfoView> {
        Seq::new(self.changes@.len(), |i: int| self.changes@[i].0@)
    }

    /// The slots waiting, in the order they were found.
    pub open spec fn slots(&self) -> Seq<FontSlotView> {
        Seq::new(self.changes@.len(), |i: int| self.changes@[i].1@)
    }

    /// A partial book with nothing waiting.
    pub fn new() -> (partial: Self)
        ensures
            partial.changes@.len() == 0,
            !partial.partial_hit,
    {
        PartialFontBook { partial_hit: false, changes: Vec::new() }
    }

    /// Adds a face to those waiting.
    pub fn push(&mut self, info: FontInfo, slot: FontSlot)
        ensures
            final(self).partial_hit,
            final(self).changes@ == old(self).changes@.push((info, slot)),
    {
        self.partial_hit = true;
        self.changes.push((info, slot));
    }
}

} // verus!
