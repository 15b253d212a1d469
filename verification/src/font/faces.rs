//! The faces of a font resource held in memory. Reading the font tables and
//! decoding a face are the work of the typesetting engine; the caller hands
//! both in, and the registry takes what they yield.
use vstd::prelude::*;
use crate::font::info::{
    Coverage, FontFlags, FontInfo, FontInfoView, FontStretch, FontStyle, FontVariant, FontWeight,
};

verus! {

/// The identity record with the given parts. A weight outside of 1 to 1000
/// is brought into that range.
pub fn face_record(
    family: String,
    style: FontStyle,
    weight: u16,
    stretch: u16,
    monospace: bool,
    serif: bool,
    runs: Vec<u32>,
) -> (info: FontInfo)
    ensures
        info@ == (FontInfoView {
            family: family@,
            variant: FontVariant {
                style,
                weight: FontWeight { value: FontWeight::nearest(weight) },
                stretch: FontStretch { permille: stretch },
            },
            flags: FontFlags { monospace, serif },
            coverage: runs@,
        }),
{
    FontInfo {
        family,
        variant: FontVariant {
            style,
            weight: FontWeight::from_number(weight),
            stretch: FontStretch { permille: stretch },
        },
        flags: FontFlags { monospace, serif },
        coverage: Coverage { runs },
    }
}

/// A face decoded by the typesetting engine. Nothing is known of what is
/// inside; it is handed on as it is.
#[verifier::external_type_specification]
#[verifier::external_body]
pub struct ExFont(typst::text::Font);

/// Whether `faces` is an answer of `read` to bytes that are `data`.
pub open spec fn read_by<R: Fn(&Vec<u8>) -> Vec<FontInfo>>(
    read: &R,
    data: Seq<u8>,
    faces: Vec<FontInfo>,
) -> bool {
    exists|bytes: &Vec<u8>| bytes@ == data && #[trigger] call_ensures(*read, (bytes,), faces)
}

/// Whether `font` is an answer of `decode` to bytes that are `data` and the
/// position `index`.
pub open spec fn decoded_by<D: Fn(&Vec<u8>, u32) -> Option<typst::text::Font>>(
    decode: &D,
    data: Seq<u8>,
    index: u32,
    font: Option<typst::text::Font>,
) -> bool {
    exists|bytes: &Vec<u8>|
        bytes@ == data && #[trigger] call_ensures(*decode, (bytes, index), font)
}

} // verus!
