//! Filling a registry, and the resolver it is frozen into.
use std::sync::Arc;
use vstd::prelude::*;
use crate::font::book::{
    buffer_slots, ids_in_place, slot_views, web_slots, Buffer, BufferFontLoader, FontBook,
    FontLoader, FontProfile, FontSlot, FontSlotView, PartialFontBook, WebFont, WebFontLoader,
};
use crate::font::error::{FontError, FontErrorView, HostHandle};
use crate::font::faces::read_by;
use crate::font::info::{views_of, FontInfo, FontInfoView};
use crate::font::web::{is_descriptor_outcome, FontBuilder, WebFontDescriptor, WebFontDescriptorView};

verus! {

/// Hands out one more owner of the shared bytes with `Arc::clone`: the new
/// pointer leads to the same bytes.
#[verifier::external_body]
fn share(buffer: &Buffer) -> (shared: Buffer)
    ensures
        shared == *buffer,
{
    Arc::clone(buffer)
}

/// Collects the faces of a registry.
#[derive(Debug)]
pub struct BrowserFontSearcher {
    pub book: FontBook,
    pub fonts: Vec<FontSlot>,
    pub profile: FontProfile,
    pub partial_book: PartialFontBook,
}

impl BrowserFontSearcher {
    /// The slots of the registry, as mathematical values.
    pub open spec fn slots(&self) -> Seq<FontSlotView> {
        slot_views(self.fonts@)
    }

    /// Book and slots go in step: each face has its slot at the position of
    /// its id, and a face that the host holds knows its id and its record.
    pub open spec fn wf(&self) -> bool {
        &&& self.book@.len() == self.fonts@.len()
        &&& ids_in_place(self.slots())
        &&& forall|i: int|
            0 <= i < self.fonts@.len() ==> (#[trigger] self.slots()[i] matches FontSlotView::Web {
                info,
                ..
            } ==> info == self.book@[i])
    }

    /// A searcher that has found nothing yet.
    pub fn new() -> (searcher: Self)
        ensures
            searcher.wf(),
            searcher.book@.len() == 0,
            searcher.fonts@.len() == 0,
            searcher.partial_book.changes@.len() == 0,
            !searcher.partial_book.partial_hit,
            searcher.profile.version@ == "v1beta"@,
    {
        BrowserFontSearcher {
            book: FontBook::new(),
            fonts: Vec::new(),
            profile: FontProfile { version: String::from_str("v1beta") },
            partial_book: PartialFontBook::new(),
        }
    }

    /// Adds the faces `faces` of the resource whose bytes are `buffer`. Each
    /// gets the next id, and a loader that reads it from the bytes at its
    /// position among the faces.
    pub fn add_faces(&mut self, buffer: Buffer, faces: Vec<FontInfo>)
        ensures
            old(self).wf() ==> final(self).wf(),
            final(self).book@ == old(self).book@ + views_of(faces@),
            final(self).slots() == old(self).slots() + buffer_slots(buffer@, faces@.len() as int),
            final(self).profile == old(self).profile,
            final(self).partial_book == old(self).partial_book,
    {
        let mut i: usize = 0;
        while i < faces.len()
            invariant
                i <= faces.len(),
                old(self).wf() ==> self.wf(),
                self.book@ == old(self).book@ + views_of(faces@).subrange(0, i as int),
                self.slots() == old(self).slots() + buffer_slots(buffer@, i as int),
                self.profile == old(self).profile,
                self.partial_book == old(self).partial_book,
            decreases faces.len() - i,
        {
            let ghost book_before = self.book@;
            let ghost slots_before = self.slots();
            self.book.push(faces[i].clone());
            self.fonts.push(
                FontSlot::new(FontLoader::Buffer(BufferFontLoader { buffer: share(&buffer), index: i })),
            );
            proof {
                assert(self.slots() =~= slots_before.push(
                    FontSlotView::Buffer { data: buffer@, face: i as int },
                ));
                assert(self.slots() =~= old(self).slots() + buffer_slots(buffer@, i + 1));
                assert(self.book@ =~= old(self).book@ + views_of(faces@).subrange(0, i + 1));
            }
            i += 1;
        }
        assert(views_of(faces@).subrange(0, i as int) =~= views_of(faces@));
    }

    /// Adds the faces of the font resource whose bytes are `buffer`, as
    /// `read` finds them in the font tables: each face that `read` yields
    /// gets the next id, in the order they are yielded.
    pub fn add_font_data<R: Fn(&Vec<u8>) -> Vec<FontInfo>>(&mut self, buffer: Buffer, read: &R)
        requires
            forall|bytes: &Vec<u8>| call_requires(*read, (bytes,)),
        ensures
            old(self).wf() ==> final(self).wf(),
            exists|faces: Vec<FontInfo>|
                {
                    &&& #[trigger] read_by(read, buffer@, faces)
                    &&& final(self).book@ == old(self).book@ + views_of(faces@)
                    &&& final(self).slots() == old(self).slots() + buffer_slots(
                        buffer@,
                        faces@.len() as int,
                    )
                },
            final(self).profile == old(self).profile,
            final(self).partial_book == old(self).partial_book,
    {
        let bytes: &Vec<u8> = &buffer;
        let faces = read(bytes);
        let ghost found = faces;
        self.add_faces(buffer, faces);
        assert(read_by(read, buffer@, found));
    }

    /// Adds the faces `infos` of a font that the host holds under
    /// `reference`, with `blob` as the accessor of its bytes. Each gets the
    /// next id, and a loader that asks the host for it at its position among
    /// the faces.
    pub fn add_web_faces(&mut self, reference: HostHandle, blob: HostHandle, infos: Vec<FontInfo>)
        ensures
            old(self).wf() ==> final(self).wf(),
            final(self).book@ == old(self).book@ + views_of(infos@),
            final(self).slots() == old(self).slots() + web_slots(
                reference,
                blob,
                views_of(infos@),
                old(self).fonts@.len() as int,
            ),
            final(self).profile == old(self).profile,
            final(self).partial_book == old(self).partial_book,
    {
        let ghost base = self.fonts@.len() as int;
        let mut i: usize = 0;
        while i < infos.len()
            invariant
                i <= infos.len(),
                old(self).wf() ==> self.wf(),
                base == old(self).fonts@.len(),
                self.fonts@.len() == base + i,
                self.book@ == old(self).book@ + views_of(infos@).subrange(0, i as int),
                self.slots() == old(self).slots() + web_slots(
                    reference,
                    blob,
                    views_of(infos@).subrange(0, i as int),
                    base,
                ),
                self.profile == old(self).profile,
                self.partial_book == old(self).partial_book,
            decreases infos.len() - i,
        {
            let ghost slots_before = self.slots();
            let info = infos[i].clone();
            self.book.push(infos[i].clone());
            let index = self.fonts.len();
            self.fonts.push(
                FontSlot::new(
                    FontLoader::Web(
                        WebFontLoader::new(WebFont { info, context: reference, blob, index }, i),
                    ),
                ),
            );
            proof {
                assert(self.slots() =~= slots_before.push(
                    FontSlotView::Web {
                        info: infos@[i as int]@,
                        context: reference,
                        blob,
                        index: base + i,
                        face: i as int,
                    },
                ));
                assert(self.slots() =~= old(self).slots() + web_slots(
                    reference,
                    blob,
                    views_of(infos@).subrange(0, i + 1),
                    base,
                ));
                assert(self.book@ =~= old(self).book@ + views_of(infos@).subrange(0, i + 1));
            }
            i += 1;
        }
        assert(views_of(infos@).subrange(0, i as int) =~= views_of(infos@));
    }
}

/// The book `book` after the faces of each good outcome were added, in the
/// order of the outcomes.
pub open spec fn book_with(
    book: Seq<FontInfoView>,
    outcomes: Seq<Result<(HostHandle, HostHandle, Vec<FontInfo>), FontError>>,
) -> Seq<FontInfoView>
    decreases outcomes.len(),
{
    if outcomes.len() == 0 {
        book
    } else {
        let before = book_with(book, outcomes.drop_last());
        match outcomes.last() {
            Ok(parts) => before + views_of(parts.2@),
            Err(_) => before,
        }
    }
}

/// The slots `slots` after the faces of each good outcome were added, in the
/// order of the outcomes.
pub open spec fn slots_with(
    slots: Seq<FontSlotView>,
    outcomes: Seq<Result<(HostHandle, HostHandle, Vec<FontInfo>), FontError>>,
) -> Seq<FontSlotView>
    decreases outcomes.len(),
{
    if outcomes.len() == 0 {
        slots
    } else {
        let before = slots_with(slots, outcomes.drop_last());
        match outcomes.last() {
            Ok(parts) => before + web_slots(
                parts.0,
                parts.1,
                views_of(parts.2@),
                before.len() as int,
            ),
            Err(_) => before,
        }
    }
}

/// The bad outcomes, each with its position, in the order of the outcomes.
pub open spec fn failures_of(
    outcomes: Seq<Result<(HostHandle, HostHandle, Vec<FontInfo>), FontError>>,
) -> Seq<(int, FontErrorView)>
    decreases outcomes.len(),
{
    if outcomes.len() == 0 {
        Seq::empty()
    } else {
        let before = failures_of(outcomes.drop_last());
        match outcomes.last() {
            Ok(_) => before,
            Err(e) => before.push((outcomes.len() - 1, e@)),
        }
    }
}

/// The views of the failures told, in order.
pub open spec fn failure_views(failures: Seq<(usize, FontError)>) -> Seq<(int, FontErrorView)> {
    Seq::new(failures.len(), |i: int| (failures[i].0 as int, failures[i].1@))
}

/// The views of the descriptors, in order.
pub open spec fn descriptor_views(list: Seq<WebFontDescriptor>) -> Seq<WebFontDescriptorView> {
    Seq::new(list.len(), |i: int| list[i]@)
}

/// Whether a registry that held `book` and `slots` may hold `book_after` and
/// `slots_after` once the descriptors were taken in, with `failures` told.
///
/// Each descriptor is read by itself. One that reads well adds all its
/// faces, one that does not adds none and is told with its position; the
/// descriptors after it are read all the same.
pub open spec fn is_batch_outcome<F: Fn(&str) -> String>(
    canonicalize: &F,
    descriptors: Seq<WebFontDescriptorView>,
    book: Seq<FontInfoView>,
    slots: Seq<FontSlotView>,
    book_after: Seq<FontInfoView>,
    slots_after: Seq<FontSlotView>,
    failures: Seq<(int, FontErrorView)>,
) -> bool {
    exists|outcomes: Seq<Result<(HostHandle, HostHandle, Vec<FontInfo>), FontError>>|
        {
            &&& outcomes.len() == descriptors.len()
            &&& forall|d: int|
                0 <= d < outcomes.len() ==> is_descriptor_outcome(
                    canonicalize,
                    descriptors[d],
                    #[trigger] outcomes[d],
                )
            &&& book_after == book_with(book, outcomes)
            &&& slots_after == slots_with(slots, outcomes)
            &&& failures == #[trigger] failures_of(outcomes)
        }
}

impl BrowserFontSearcher {
    /// Takes in the fonts that a host describes, one descriptor each.
    ///
    /// Returns the descriptors that could not be read, each with its
    /// position in `fonts` and the reason. They add no face; all others add
    /// theirs.
    pub fn add_web_fonts<F: Fn(&str) -> String>(
        &mut self,
        fonts: Vec<WebFontDescriptor>,
        canonicalize: &F,
    ) -> (failures: Vec<(usize, FontError)>)
        requires
            forall|s: &str| s@.len() > 0 ==> call_requires(*canonicalize, (s,)),
        ensures
            old(self).wf() ==> final(self).wf(),
            is_batch_outcome(
                canonicalize,
                descriptor_views(fonts@),
                old(self).book@,
                old(self).slots(),
                final(self).book@,
                final(self).slots(),
                failure_views(failures@),
            ),
            final(self).profile == old(self).profile,
            final(self).partial_book == old(self).partial_book,
    {
        let font_builder = FontBuilder {  };
        let mut failures: Vec<(usize, FontError)> = Vec::new();
        let ghost mut outcomes: Seq<Result<(HostHandle, HostHandle, Vec<FontInfo>), FontError>> =
            Seq::empty();
        let mut d: usize = 0;
        while d < fonts.len()
            invariant
                d <= fonts.len(),
                old(self).wf() ==> self.wf(),
                forall|s: &str| s@.len() > 0 ==> call_requires(*canonicalize, (s,)),
                outcomes.len() == d,
                forall|k: int|
                    0 <= k < d ==> is_descriptor_outcome(
                        canonicalize,
                        fonts@[k]@,
                        #[trigger] outcomes[k],
                    ),
                self.book@ == book_with(old(self).book@, outcomes),
                self.slots() == slots_with(old(self).slots(), outcomes),
                failure_views(failures@) == failures_of(outcomes),
                self.profile == old(self).profile,
                self.partial_book == old(self).partial_book,
            decreases fonts.len() - d,
        {
            let outcome = font_builder.font_web_to_typst(&fonts[d], canonicalize);
            let ghost had = outcomes;
            let ghost told = failure_views(failures@);
            proof {
                outcomes = outcomes.push(outcome);
                assert(outcomes.drop_last() =~= had);
                assert(outcomes.last() == outcome);
            }
            match outcome {
                Ok((reference, blob, infos)) => {
                    self.add_web_faces(reference, blob, infos);
                },
                Err(e) => {
                    failures.push((d, e));
                    assert(failure_views(failures@) =~= told.push((d as int, e@)));
                },
            }
            d += 1;
        }
        proof {
            assert forall|k: int| 0 <= k < outcomes.len() implies is_descriptor_outcome(
                canonicalize,
                descriptor_views(fonts@)[k],
                #[trigger] outcomes[k],
            ) by {
                assert(descriptor_views(fonts@)[k] == fonts@[k]@);
            }
            assert(failure_views(failures@) == failures_of(outcomes));
        }
        failures
    }
}

impl Default for BrowserFontSearcher {
    fn default() -> (searcher: Self)
        ensures
            searcher.wf(),
            searcher.book@.len() == 0,
            searcher.fonts@.len() == 0,
            searcher.partial_book.changes@.len() == 0,
            !searcher.partial_book.partial_hit,
            searcher.profile.version@ == "v1beta"@,
    {
        Self::new()
    }
}

/// Answers the typesetting engine's questions about fonts from a filled
/// registry. The ids of the faces stand from here on.
#[derive(Debug)]
pub struct FontResolverImpl {
    pub book: FontBook,
    pub partial_book: PartialFontBook,
    pub fonts: Vec<FontSlot>,
    pub profile: FontProfile,
}

impl FontResolverImpl {
    /// The slots of the registry, as mathematical values.
    pub open spec fn slots(&self) -> Seq<FontSlotView> {
        slot_views(self.fonts@)
    }

    /// Book and slots go in step, and a face that the host holds knows its
    /// id and its record.
    pub open spec fn wf(&self) -> bool {
        &&& self.book@.len() == self.fonts@.len()
        &&& ids_in_place(self.slots())
        &&& forall|i: int|
            0 <= i < self.fonts@.len() ==> (#[trigger] self.slots()[i] matches FontSlotView::Web {
                info,
                ..
            } ==> info == self.book@[i])
    }

    /// The resolver over the given registry.
    pub fn new(
        book: FontBook,
        partial_book: PartialFontBook,
        fonts: Vec<FontSlot>,
        profile: FontProfile,
    ) -> (resolver: Self)
        ensures
            resolver.book == book,
            resolver.partial_book == partial_book,
            resolver.fonts == fonts,
            resolver.profile == profile,
    {
        FontResolverImpl { book, partial_book, fonts, profile }
    }
}

/// The slot `slot` as it stands in the book under the id `id` for the face
/// `info`: a face that the host holds learns its id and its record.
pub open spec fn promoted(slot: FontSlotView, info: FontInfoView, id: int) -> FontSlotView {
    match slot {
        FontSlotView::Buffer { data, face } => slot,
        FontSlotView::Web { context, blob, face, .. } => FontSlotView::Web {
            info,
            context,
            blob,
            index: id,
            face,
        },
    }
}

/// The slots `slots` of the faces `infos` as they stand in the book once
/// they are given the ids from `base` on.
pub open spec fn promoted_slots(
    slots: Seq<FontSlotView>,
    infos: Seq<FontInfoView>,
    base: int,
) -> Seq<FontSlotView> {
    Seq::new(slots.len(), |i: int| promoted(slots[i], infos[i], base + i))
}

impl FontSlot {
    /// The slot as it stands in the book under the id `id` for the face
    /// `info`.
    pub fn promote(&self, info: &FontInfo, id: usize) -> (slot: FontSlot)
        ensures
            slot@ == promoted(self@, info@, id as int),
    {
        match &self.loader {
            FontLoader::Buffer(loader) => FontSlot::new(
                FontLoader::Buffer(
                    BufferFontLoader { buffer: share(&loader.buffer), index: loader.index },
                ),
            ),
            FontLoader::Web(loader) => FontSlot::new(
                FontLoader::Web(
                    WebFontLoader::new(
                        WebFont {
                            info: info.clone(),
                            context: loader.font.context,
                            blob: loader.font.blob,
                            index: id,
                        },
                        loader.index,
                    ),
                ),
            ),
        }
    }
}

impl FontResolverImpl {
    /// Takes the faces that wait in the partial book into the book, in the
    /// order they were found. Only now do they get their ids, from the
    /// number of faces on; the faces of the book keep theirs. Nothing waits
    /// afterwards.
    pub fn merge_partial(&mut self)
        ensures
            old(self).wf() ==> final(self).wf(),
            final(self).book@ == old(self).book@ + old(self).partial_book.infos(),
            final(self).slots() == old(self).slots() + promoted_slots(
                old(self).partial_book.slots(),
                old(self).partial_book.infos(),
                old(self).book@.len() as int,
            ),
            final(self).partial_book.changes@.len() == 0,
            !final(self).partial_book.partial_hit,
            final(self).profile == old(self).profile,
    {
        let ghost base = self.book@.len() as int;
        let ghost waiting_infos = self.partial_book.infos();
        let ghost waiting_slots = self.partial_book.slots();
        let mut i: usize = 0;
        while i < self.partial_book.changes.len()
            invariant
                i <= self.partial_book.changes@.len(),
                old(self).wf() ==> self.wf(),
                self.partial_book == old(self).partial_book,
                self.profile == old(self).profile,
                base == old(self).book@.len(),
                waiting_infos == self.partial_book.infos(),
                waiting_slots == self.partial_book.slots(),
                self.book@ == old(self).book@ + waiting_infos.subrange(0, i as int),
                self.slots() == old(self).slots() + promoted_slots(
                    waiting_slots.subrange(0, i as int),
                    waiting_infos.subrange(0, i as int),
                    base,
                ),
            decreases self.partial_book.changes@.len() - i,
        {
            let ghost slots_before = self.slots();
            let id = self.book.len();
            let info = self.partial_book.changes[i].0.clone();
            let slot = self.partial_book.changes[i].1.promote(&info, id);
            self.book.push(info);
            self.fonts.push(slot);
            proof {
                assert(waiting_infos[i as int] == info@);
                assert(self.slots() =~= slots_before.push(
                    promoted(waiting_slots[i as int], waiting_infos[i as int], base + i),
                ));
                assert(self.slots() =~= old(self).slots() + promoted_slots(
                    waiting_slots.subrange(0, i + 1),
                    waiting_infos.subrange(0, i + 1),
                    base,
                ));
                assert(self.book@ =~= old(self).book@ + waiting_infos.subrange(0, i + 1));
            }
            i += 1;
        }
        proof {
            assert(waiting_infos.subrange(0, i as int) =~= waiting_infos);
            assert(waiting_slots.subrange(0, i as int) =~= waiting_slots);
        }
        self.partial_book = PartialFontBook::new();
    }
}

impl From<BrowserFontSearcher> for FontResolverImpl {
    fn from(value: BrowserFontSearcher) -> (resolver: Self) {
        FontResolverImpl::new(value.book, value.partial_book, value.fonts, value.profile)
    }
}

impl vstd::std_specs::convert::FromSpecImpl<BrowserFontSearcher> for FontResolverImpl {
    open spec fn obeys_from_spec() -> bool {
        true
    }

    open spec fn from_spec(value: BrowserFontSearcher) -> Self {
        frozen(value)
    }
}

/// The resolver that a searcher is frozen into.
pub open spec fn frozen(searcher: BrowserFontSearcher) -> FontResolverImpl {
    FontResolverImpl {
        book: searcher.book,
        partial_book: searcher.partial_book,
        fonts: searcher.fonts,
        profile: searcher.profile,
    }
}

/// Freezing a well-formed searcher gives a well-formed resolver with the
/// same faces under the same ids.
pub proof fn lemma_frozen_registry_keeps_ids(searcher: BrowserFontSearcher)
    requires
        searcher.wf(),
    ensures
        frozen(searcher).wf(),
        frozen(searcher).book@ == searcher.book@,
        frozen(searcher).slots() == searcher.slots(),
{
}

} // verus!
