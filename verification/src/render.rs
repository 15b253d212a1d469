//! Planning the rendering of a stored artifact.
//!
//! An artifact names the fonts it uses by their identity records. Before a
//! page can be drawn, each record is looked up in the resolver at hand, the
//! artifact is turned down where it has no page, and the background fill is
//! read from its hexadecimal spelling. Drawing itself is left to the
//! rasterizer, which gets the plan.
use vstd::prelude::*;
use crate::font::info::{views_of, FontInfo, FontInfoView};
use crate::font::searcher::FontResolverImpl;

verus! {

/// A colour, each channel from 0 to 255.
#[derive(Clone, Copy, Debug, PartialEq, Eq, Structural)]
pub struct Rgba {
    pub r: u8,
    pub g: u8,
    pub b: u8,
    pub a: u8,
}

/// What is wrong with the spelling of a colour.
#[derive(Clone, Copy, Debug, PartialEq, Eq, Structural)]
pub enum ColorFault {
    /// A character is no hexadecimal digit.
    NotHexadecimal,
    /// The digits are neither three, four, six nor eight.
    WrongLength,
}

/// Why an artifact could not be rendered.
#[derive(Debug, PartialEq, Eq)]
pub enum RenderError {
    /// The bytes are no artifact.
    Decode { message: String },
    /// The artifact cannot be shown, for a reason to tell the user.
    UserVisible { message: String },
    /// The fill is no colour.
    ColorParse { message: String },
}

/// What a `RenderError` holds, as mathematical values.
pub enum RenderErrorView {
    Decode { message: Seq<char> },
    UserVisible { message: Seq<char> },
    ColorParse { message: Seq<char> },
}

impl View for RenderError {
    type V = RenderErrorView;

    open spec fn view(&self) -> RenderErrorView {
        match self {
            RenderError::Decode { message } => RenderErrorView::Decode { message: message@ },
            RenderError::UserVisible { message } => RenderErrorView::UserVisible {
                message: message@,
            },
            RenderError::ColorParse { message } => RenderErrorView::ColorParse {
                message: message@,
            },
        }
    }
}

/// Whether `c` is a hexadecimal digit, in either case.
pub open spec fn is_hex_digit(c: char) -> bool {
    ('0' <= c && c <= '9') || ('a' <= c && c <= 'f') || ('A' <= c && c <= 'F')
}

/// The value of the hexadecimal digit `c`.
pub open spec fn hex_value(c: char) -> int {
    if '0' <= c && c <= '9' {
        c as int - '0' as int
    } else if 'a' <= c && c <= 'f' {
        c as int - 'a' as int + 10
    } else {
        c as int - 'A' as int + 10
    }
}

/// `text` without the hash it may begin with.
pub open spec fn without_hash(text: Seq<char>) -> Seq<char> {
    if text.len() > 0 && text[0] == '#' {
        text.subrange(1, text.len() as int)
    } else {
        text
    }
}

/// The channel of index `k` that `digits` spell: two digits in the long
/// spelling, one digit taken twice in the short one.
pub open spec fn channel(digits: Seq<char>, k: int, long: bool) -> u8 {
    if long {
        (16 * hex_value(digits[2 * k]) + hex_value(digits[2 * k + 1])) as u8
    } else {
        (17 * hex_value(digits[k])) as u8
    }
}

/// The colour that `text` spells.
///
/// A colour is spelled with three or six hexadecimal digits, or with four or
/// eight where it has an alpha channel, after a hash or without one. Three
/// and four digits stand for six and eight, each digit taken twice. Without
/// an alpha channel the colour is opaque.
pub open spec fn parsed_color(text: Seq<char>) -> Result<Rgba, ColorFault> {
    let digits = without_hash(text);
    let long = digits.len() == 6 || digits.len() == 8;
    let short = digits.len() == 3 || digits.len() == 4;
    let alpha = digits.len() == 4 || digits.len() == 8;
    if exists|i: int| 0 <= i < digits.len() && !is_hex_digit(#[trigger] digits[i]) {
        Err(ColorFault::NotHexadecimal)
    } else if !long && !short {
        Err(ColorFault::WrongLength)
    } else {
        Ok(
            Rgba {
                r: channel(digits, 0, long),
                g: channel(digits, 1, long),
                b: channel(digits, 2, long),
                a: if alpha {
                    channel(digits, 3, long)
                } else {
                    255
                },
            },
        )
    }
}

/// The text that tells of a fault in the spelling of a colour.
pub open spec fn color_fault_text(fault: ColorFault) -> Seq<char> {
    match fault {
        ColorFault::NotHexadecimal => "color string contains non-hexadecimal letters"@,
        ColorFault::WrongLength => "color string has wrong length"@,
    }
}

/// Reads a colour with the `FromStr` impl of `typst::visualize::Color`.
///
/// That impl takes three, four, six or eight hexadecimal digits of either
/// case, after one hash or none. It first turns down a text that holds
/// anything but such digits, then one of another length, each with the text
/// given here. Of the short spellings it takes each digit twice, and it
/// makes the colour opaque where no alpha is spelled. The channels come back
/// as the bytes they were spelled as.
#[verifier::external_body]
fn read_color(text: &str) -> (r: Result<Rgba, &'static str>)
    ensures
        match parsed_color(text@) {
            Ok(color) => r == Ok::<Rgba, &'static str>(color),
            Err(fault) => r matches Err(message) && message@ == color_fault_text(fault),
        },
{
    text.parse::<typst::visualize::Color>().map(|color| color.to_vec4_u8()).map(
        |channels| Rgba { r: channels[0], g: channels[1], b: channels[2], a: channels[3] },
    )
}

/// The colour that `fill` spells, or why it spells none.
pub fn parse_fill(fill: &str) -> (r: Result<Rgba, RenderError>)
    ensures
        match parsed_color(fill@) {
            Ok(color) => r == Ok::<Rgba, RenderError>(color),
            Err(fault) => r matches Err(e) && e@ == (RenderErrorView::ColorParse {
                message: color_fault_text(fault),
            }),
        },
{
    match read_color(fill) {
        Ok(color) => Ok(color),
        Err(message) => Err(RenderError::ColorParse { message: String::from_str(message) }),
    }
}

/// A stored document, as far as its rendering is planned here: how many
/// pages it has and which fonts it names. The pages themselves stay with
/// the rasterizer.
#[derive(Debug, PartialEq, Eq)]
pub struct Artifact {
    /// The format the artifact was stored in.
    pub version: String,
    pub page_count: usize,
    /// The identity records of the fonts that the pages use.
    pub fonts: Vec<FontInfo>,
}

/// What the rasterizer is to do.
#[derive(Debug, PartialEq, Eq)]
pub struct RenderJob {
    /// The page to draw.
    pub page: usize,
    /// The colour to fill the background with.
    pub fill: Rgba,
    /// For each font of the artifact the id of its face, or nothing where
    /// the resolver has no such face and a fallback must do.
    pub faces: Vec<Option<usize>>,
}

/// A drawn page: rows of pixels from the top, four bytes each.
#[derive(Debug, PartialEq, Eq)]
pub struct PixelBuffer {
    pub data: Vec<u8>,
    pub width: u32,
    pub height: u32,
}

impl PixelBuffer {
    /// The bytes are those of `width` times `height` pixels.
    pub open spec fn wf(&self) -> bool {
        self.data@.len() == 4 * (self.width * self.height)
    }

    /// The drawn page of the given size, where `data` has the bytes for it.
    pub fn pack(data: Vec<u8>, width: u32, height: u32) -> (r: Option<PixelBuffer>)
        ensures
            match r {
                Some(buffer) => buffer.wf() && buffer.data == data && buffer.width == width
                    && buffer.height == height,
                None => data@.len() != 4 * (width * height),
            },
    {
        assert(width * height <= 0xffff_ffff * 0xffff_ffff) by (nonlinear_arith)
            requires
                width <= 0xffff_ffff,
                height <= 0xffff_ffff,
        ;
        let pixels: u64 = (width as u64) * (height as u64);
        let bytes: u128 = 4 * (pixels as u128);
        if data.len() as u128 == bytes {
            Some(PixelBuffer { data, width, height })
        } else {
            None
        }
    }
}

/// The id of the first face at or after `from` whose record is `info`, or
/// the number of faces.
pub open spec fn first_face(book: Seq<FontInfoView>, info: FontInfoView, from: int) -> int
    decreases book.len() - from,
{
    if from < 0 || from >= book.len() {
        book.len() as int
    } else if book[from] == info {
        from
    } else {
        first_face(book, info, from + 1)
    }
}

/// The face that stands for `info`: the first of the book with this record.
pub open spec fn face_for(book: Seq<FontInfoView>, info: FontInfoView) -> Option<usize> {
    let id = first_face(book, info, 0);
    if id < book.len() {
        Some(id as usize)
    } else {
        None
    }
}

/// The faces that stand for the fonts `infos`, one by one.
pub open spec fn faces_for(book: Seq<FontInfoView>, infos: Seq<FontInfoView>) -> Seq<
    Option<usize>,
> {
    Seq::new(infos.len(), |i: int| face_for(book, infos[i]))
}

/// The plan for an artifact of `page_count` pages with the fill spelled
/// `fill`, or why there is none: an artifact without pages is turned down
/// before its fill is read.
pub open spec fn planned_job(
    page_count: usize,
    fill: Seq<char>,
    faces: Seq<Option<usize>>,
    outcome: Result<RenderJob, RenderError>,
) -> bool {
    if page_count == 0 {
        outcome matches Err(e) && e@ == (RenderErrorView::UserVisible {
            message: "no pages in artifact"@,
        })
    } else {
        match parsed_color(fill) {
            Err(fault) => outcome matches Err(e) && e@ == (RenderErrorView::ColorParse {
                message: color_fault_text(fault),
            }),
            Ok(color) => outcome matches Ok(job) && job.page == 0 && job.fill == color
                && job.faces@ == faces,
        }
    }
}

impl FontResolverImpl {
    /// The id of the face that stands for `info`, if the resolver has one.
    pub fn face_of(&self, info: &FontInfo) -> (found: Option<usize>)
        ensures
            found == face_for(self.book@, info@),
    {
        let mut id: usize = 0;
        while id < self.book.infos.len()
            invariant
                id <= self.book.infos.len(),
                first_face(self.book@, info@, 0) == first_face(self.book@, info@, id as int),
            decreases self.book.infos.len() - id,
        {
            assert(self.book@[id as int] == self.book.infos@[id as int]@);
            if self.book.infos[id].same_as(info) {
                return Some(id);
            }
            id += 1;
        }
        None
    }

    /// The ids of the faces that stand for `infos`, one by one.
    pub fn faces_of(&self, infos: &Vec<FontInfo>) -> (found: Vec<Option<usize>>)
        ensures
            found@ == faces_for(self.book@, views_of(infos@)),
    {
        let mut found: Vec<Option<usize>> = Vec::new();
        let mut i: usize = 0;
        while i < infos.len()
            invariant
                i <= infos.len(),
                found@.len() == i,
                forall|j: int| 0 <= j < i ==> found@[j] == face_for(self.book@, infos@[j]@),
            decreases infos.len() - i,
        {
            found.push(self.face_of(&infos[i]));
            i += 1;
        }
        assert(found@ =~= faces_for(self.book@, views_of(infos@)));
        found
    }
}

/// Plans the rendering of artifacts against one resolver.
#[derive(Debug)]
pub struct TypstRenderer {
    pub world: FontResolverImpl,
}

impl TypstRenderer {
    /// The renderer that looks fonts up in `world`.
    pub fn new(world: FontResolverImpl) -> (renderer: Self)
        ensures
            renderer.world == world,
    {
        TypstRenderer { world }
    }

    /// Plans the rendering of an artifact, given what decoding its bytes
    /// came to: the artifact, or the decoder's complaint.
    ///
    /// Without a fill the background is white.
    pub fn render(&self, decoded: Result<Artifact, String>, fill: Option<&str>) -> (r: Result<
        RenderJob,
        RenderError,
    >)
        ensures
            match decoded {
                Err(message) => r matches Err(e) && e@ == (RenderErrorView::Decode {
                    message: message@,
                }),
                Ok(artifact) => planned_job(
                    artifact.page_count,
                    match fill {
                        Some(text) => text@,
                        None => "ffffff"@,
                    },
                    faces_for(self.world.book@, views_of(artifact.fonts@)),
                    r,
                ),
            },
    {
        let artifact = match decoded {
            Ok(artifact) => artifact,
            Err(message) => {
                return Err(RenderError::Decode { message });
            },
        };
        let faces = self.world.faces_of(&artifact.fonts);
        let fill = match fill {
            Some(text) => text,
            None => "ffffff",
        };
        self.render_internal(artifact.page_count, faces, fill)
    }

    /// Plans the drawing of a document of `page_count` pages whose fonts
    /// have the faces `faces`, on a background of the colour that `fill`
    /// spells. A document without pages is turned down; of any other the
    /// first page is drawn.
    pub fn render_internal(&self, page_count: usize, faces: Vec<Option<usize>>, fill: &str) -> (r:
        Result<RenderJob, RenderError>)
        ensures
            planned_job(page_count, fill@, faces@, r),
    {
        if page_count == 0 {
            return Err(
                RenderError::UserVisible { message: String::from_str("no pages in artifact") },
            );
        }
        match parse_fill(fill) {
            Ok(color) => Ok(RenderJob { page: 0, fill: color, faces }),
            Err(e) => Err(e),
        }
    }
}

} // verus!
