//! Inference of a face's identity from the names a host reports for it.
//!
//! A host describes a font by four free-form names. The family is read from
//! them directly; style, weight, stretch and flags are guessed from keywords
//! found in the lower-cased names.
use vstd::prelude::*;
use crate::font::error::FontError;
use crate::font::info::{
    full_runs, Coverage, FontFlags, FontInfo, FontInfoView, FontStretch, FontStyle, FontVariant, FontWeight,
    STRETCH_CONDENSED, STRETCH_EXPANDED, STRETCH_EXTRA_CONDENSED, STRETCH_EXTRA_EXPANDED,
    STRETCH_NORMAL, STRETCH_SEMI_CONDENSED, STRETCH_SEMI_EXPANDED, STRETCH_ULTRA_CONDENSED,
    STRETCH_ULTRA_EXPANDED, WEIGHT_BLACK, WEIGHT_BOLD, WEIGHT_EXTRABOLD, WEIGHT_EXTRALIGHT,
    WEIGHT_LIGHT, WEIGHT_MEDIUM, WEIGHT_REGULAR, WEIGHT_SEMIBOLD, WEIGHT_THIN,
};
use crate::text::{
    chars_of, contains, has_keyword, has_prefix, lowercase, lowercase_chars, starts_with,
};

verus! {

/// The names a host reports for one font resource. Any of them may be empty.
#[derive(Debug, PartialEq, Eq)]
pub struct WebFontInfo {
    pub family: String,
    pub full_name: String,
    pub postscript_name: String,
    pub style: String,
}

/// What a `WebFontInfo` holds, as mathematical values.
pub struct WebFontInfoView {
    pub family: Seq<char>,
    pub full_name: Seq<char>,
    pub postscript_name: Seq<char>,
    pub style: Seq<char>,
}

impl View for WebFontInfo {
    type V = WebFontInfoView;

    open spec fn view(&self) -> WebFontInfoView {
        WebFontInfoView {
            family: self.family@,
            full_name: self.full_name@,
            postscript_name: self.postscript_name@,
            style: self.style@,
        }
    }
}

/// The lower-cased names in which keywords are looked for, the most trusted
/// first: style, PostScript name, full name.
pub struct SearchScopes {
    pub style: Seq<char>,
    pub postscript: Seq<char>,
    pub full: Seq<char>,
}

/// The search scopes of a descriptor.
pub open spec fn scopes_of(info: WebFontInfoView) -> SearchScopes {
    SearchScopes {
        style: lowercase(info.style),
        postscript: lowercase(info.postscript_name),
        full: lowercase(info.full_name),
    }
}

/// Whether a family name says too little by itself, so that the full name is
/// read in its place.
pub open spec fn is_generic_family(family: Seq<char>) -> bool {
    ||| family.len() == 0
    ||| starts_with(family, "Noto"@)
    ||| starts_with(family, "NewCM"@)
    ||| starts_with(family, "NewComputerModern"@)
}

/// The name from which the typographic family is derived: the family, or the
/// full name where the family is empty or generic.
pub open spec fn family_source(family: Seq<char>, full_name: Seq<char>) -> Seq<char> {
    if is_generic_family(family) {
        full_name
    } else {
        family
    }
}

/// The slant that a lower-cased full name tells of.
pub open spec fn inferred_style(full: Seq<char>) -> FontStyle {
    if contains(full, "italic"@) {
        FontStyle::Italic
    } else if contains(full, "oblique"@) || contains(full, "slanted"@) {
        FontStyle::Oblique
    } else {
        FontStyle::Normal
    }
}

/// The weight keywords, from light to heavy.
pub open spec fn weight_keywords() -> Seq<Seq<char>> {
    seq![
        "thin"@,
        "extralight"@,
        "extra light"@,
        "extra-light"@,
        "light"@,
        "regular"@,
        "medium"@,
        "semibold"@,
        "semi bold"@,
        "semi-bold"@,
        "bold"@,
        "extrabold"@,
        "extra bold"@,
        "extra-bold"@,
        "black"@,
    ]
}

/// The weight that each weight keyword stands for.
pub open spec fn weight_numbers() -> Seq<u16> {
    seq![
        WEIGHT_THIN,
        WEIGHT_EXTRALIGHT,
        WEIGHT_EXTRALIGHT,
        WEIGHT_EXTRALIGHT,
        WEIGHT_LIGHT,
        WEIGHT_REGULAR,
        WEIGHT_MEDIUM,
        WEIGHT_SEMIBOLD,
        WEIGHT_SEMIBOLD,
        WEIGHT_SEMIBOLD,
        WEIGHT_BOLD,
        WEIGHT_EXTRABOLD,
        WEIGHT_EXTRABOLD,
        WEIGHT_EXTRABOLD,
        WEIGHT_BLACK,
    ]
}

/// The stretch keywords, from narrow to wide.
pub open spec fn stretch_keywords() -> Seq<Seq<char>> {
    seq![
        "ultracondensed"@,
        "ultra_condensed"@,
        "ultra-condensed"@,
        "extracondensed"@,
        "extra_condensed"@,
        "extra-condensed"@,
        "condensed"@,
        "semicondensed"@,
        "semi_condensed"@,
        "semi-condensed"@,
        "normal"@,
        "semiexpanded"@,
        "semi_expanded"@,
        "semi-expanded"@,
        "expanded"@,
        "extraexpanded"@,
        "extra_expanded"@,
        "extra-expanded"@,
        "ultraexpanded"@,
        "ultra_expanded"@,
        "ultra-expanded"@,
    ]
}

/// The stretch that each stretch keyword stands for.
pub open spec fn stretch_numbers() -> Seq<u16> {
    seq![
        STRETCH_ULTRA_CONDENSED,
        STRETCH_ULTRA_CONDENSED,
        STRETCH_ULTRA_CONDENSED,
        STRETCH_EXTRA_CONDENSED,
        STRETCH_EXTRA_CONDENSED,
        STRETCH_EXTRA_CONDENSED,
        STRETCH_CONDENSED,
        STRETCH_SEMI_CONDENSED,
        STRETCH_SEMI_CONDENSED,
        STRETCH_SEMI_CONDENSED,
        STRETCH_NORMAL,
        STRETCH_SEMI_EXPANDED,
        STRETCH_SEMI_EXPANDED,
        STRETCH_SEMI_EXPANDED,
        STRETCH_EXPANDED,
        STRETCH_EXTRA_EXPANDED,
        STRETCH_EXTRA_EXPANDED,
        STRETCH_EXTRA_EXPANDED,
        STRETCH_ULTRA_EXPANDED,
        STRETCH_ULTRA_EXPANDED,
        STRETCH_ULTRA_EXPANDED,
    ]
}

/// The index of the first keyword at or after `from` that occurs in `scope`,
/// or the number of keywords where none does.
pub open spec fn first_hit(scope: Seq<char>, keywords: Seq<Seq<char>>, from: int) -> int
    decreases keywords.len() - from,
{
    if from < 0 || from >= keywords.len() {
        keywords.len() as int
    } else if contains(scope, keywords[from]) {
        from
    } else {
        first_hit(scope, keywords, from + 1)
    }
}

/// The index of the last keyword before `upto` that occurs in `first` or in
/// `second`, or -1 where none does.
pub open spec fn last_hit(
    first: Seq<char>,
    second: Seq<char>,
    keywords: Seq<Seq<char>>,
    upto: int,
) -> int
    decreases upto,
{
    if upto <= 0 || upto > keywords.len() {
        -1
    } else if contains(first, keywords[upto - 1]) || contains(second, keywords[upto - 1]) {
        upto - 1
    } else {
        last_hit(first, second, keywords, upto - 1)
    }
}

/// The weight that the scopes tell of. The first keyword found in the style
/// scope decides. Where the style scope holds none, the last keyword found in
/// one of the other scopes decides; where no scope holds any, the weight is
/// regular.
pub open spec fn inferred_weight(scopes: SearchScopes) -> FontWeight {
    let decisive = first_hit(scopes.style, weight_keywords(), 0);
    let fallback = last_hit(
        scopes.postscript,
        scopes.full,
        weight_keywords(),
        weight_keywords().len() as int,
    );
    if decisive < weight_keywords().len() {
        FontWeight { value: weight_numbers()[decisive] }
    } else if fallback >= 0 {
        FontWeight { value: weight_numbers()[fallback] }
    } else {
        FontWeight { value: WEIGHT_REGULAR }
    }
}

/// The stretch that the scopes tell of. The first keyword found in the style
/// scope decides; the other scopes are not heeded, and where the style scope
/// holds no keyword the stretch is normal.
pub open spec fn inferred_stretch(scopes: SearchScopes) -> FontStretch {
    let decisive = first_hit(scopes.style, stretch_keywords(), 0);
    if decisive < stretch_keywords().len() {
        FontStretch { permille: stretch_numbers()[decisive] }
    } else {
        FontStretch { permille: STRETCH_NORMAL }
    }
}

/// The flags that one scope tells of: monospace where it holds "mono",
/// otherwise serif where it holds "serif".
pub open spec fn scope_flags(scope: Seq<char>) -> FontFlags {
    FontFlags {
        monospace: contains(scope, "mono"@),
        serif: !contains(scope, "mono"@) && contains(scope, "serif"@),
    }
}

/// The flags that the scopes tell of: those of each scope, taken together.
pub open spec fn inferred_flags(scopes: SearchScopes) -> FontFlags {
    scope_flags(scopes.style).union_of(scope_flags(scopes.postscript)).union_of(
        scope_flags(scopes.full),
    )
}

/// The variant inferred for a descriptor.
pub open spec fn inferred_variant(info: WebFontInfoView) -> FontVariant {
    FontVariant {
        style: inferred_style(scopes_of(info).full),
        weight: inferred_weight(scopes_of(info)),
        stretch: inferred_stretch(scopes_of(info)),
    }
}

/// The identity inferred for a descriptor whose typographic family is
/// `family`.
pub open spec fn inferred_info(info: WebFontInfoView, family: Seq<char>) -> FontInfoView {
    FontInfoView {
        family,
        variant: inferred_variant(info),
        flags: inferred_flags(scopes_of(info)),
        coverage: full_runs(),
    }
}

/// The weight keyword of index `k` and the weight it stands for.
fn weight_keyword(k: usize) -> (r: (&'static str, u16))
    requires
        k < weight_keywords().len(),
    ensures
        r.0@ == weight_keywords()[k as int],
        r.1 == weight_numbers()[k as int],
{
    match k {
        0 => ("thin", WEIGHT_THIN),
        1 => ("extralight", WEIGHT_EXTRALIGHT),
        2 => ("extra light", WEIGHT_EXTRALIGHT),
        3 => ("extra-light", WEIGHT_EXTRALIGHT),
        4 => ("light", WEIGHT_LIGHT),
        5 => ("regular", WEIGHT_REGULAR),
        6 => ("medium", WEIGHT_MEDIUM),
        7 => ("semibold", WEIGHT_SEMIBOLD),
        8 => ("semi bold", WEIGHT_SEMIBOLD),
        9 => ("semi-bold", WEIGHT_SEMIBOLD),
        10 => ("bold", WEIGHT_BOLD),
        11 => ("extrabold", WEIGHT_EXTRABOLD),
        12 => ("extra bold", WEIGHT_EXTRABOLD),
        13 => ("extra-bold", WEIGHT_EXTRABOLD),
        _ => ("black", WEIGHT_BLACK),
    }
}

/// The stretch keyword of index `k` and the stretch it stands for.
fn stretch_keyword(k: usize) -> (r: (&'static str, u16))
    requires
        k < stretch_keywords().len(),
    ensures
        r.0@ == stretch_keywords()[k as int],
        r.1 == stretch_numbers()[k as int],
{
    match k {
        0 => ("ultracondensed", STRETCH_ULTRA_CONDENSED),
        1 => ("ultra_condensed", STRETCH_ULTRA_CONDENSED),
        2 => ("ultra-condensed", STRETCH_ULTRA_CONDENSED),
        3 => ("extracondensed", STRETCH_EXTRA_CONDENSED),
        4 => ("extra_condensed", STRETCH_EXTRA_CONDENSED),
        5 => ("extra-condensed", STRETCH_EXTRA_CONDENSED),
        6 => ("condensed", STRETCH_CONDENSED),
        7 => ("semicondensed", STRETCH_SEMI_CONDENSED),
        8 => ("semi_condensed", STRETCH_SEMI_CONDENSED),
        9 => ("semi-condensed", STRETCH_SEMI_CONDENSED),
        10 => ("normal", STRETCH_NORMAL),
        11 => ("semiexpanded", STRETCH_SEMI_EXPANDED),
        12 => ("semi_expanded", STRETCH_SEMI_EXPANDED),
        13 => ("semi-expanded", STRETCH_SEMI_EXPANDED),
        14 => ("expanded", STRETCH_EXPANDED),
        15 => ("extraexpanded", STRETCH_EXTRA_EXPANDED),
        16 => ("extra_expanded", STRETCH_EXTRA_EXPANDED),
        17 => ("extra-expanded", STRETCH_EXTRA_EXPANDED),
        18 => ("ultraexpanded", STRETCH_ULTRA_EXPANDED),
        19 => ("ultra_expanded", STRETCH_ULTRA_EXPANDED),
        _ => ("ultra-expanded", STRETCH_ULTRA_EXPANDED),
    }
}

/// The slant that a lower-cased full name tells of. Italic wins over oblique
/// where the name holds both.
pub fn infer_style(full: &Vec<char>) -> (style: FontStyle)
    ensures
        style == inferred_style(full@),
{
    if has_keyword(full, "italic") {
        FontStyle::Italic
    } else if has_keyword(full, "oblique") || has_keyword(full, "slanted") {
        FontStyle::Oblique
    } else {
        FontStyle::Normal
    }
}

/// The weight that the three lower-cased scopes tell of.
pub fn infer_weight(style: &Vec<char>, postscript: &Vec<char>, full: &Vec<char>) -> (weight:
    FontWeight)
    ensures
        weight == inferred_weight(
            SearchScopes { style: style@, postscript: postscript@, full: full@ },
        ),
{
    let mut fallback: Option<u16> = None;
    let mut k: usize = 0;
    while k < 15
        invariant
            k <= 15,
            weight_keywords().len() == 15,
            first_hit(style@, weight_keywords(), 0) == first_hit(
                style@,
                weight_keywords(),
                k as int,
            ),
            match fallback {
                Some(w) => {
                    let hit = last_hit(postscript@, full@, weight_keywords(), k as int);
                    0 <= hit < k && w == weight_numbers()[hit]
                },
                None => last_hit(postscript@, full@, weight_keywords(), k as int) == -1,
            },
        decreases 15 - k,
    {
        let (keyword, number) = weight_keyword(k);
        if has_keyword(style, keyword) {
            return FontWeight { value: number };
        }
        if has_keyword(postscript, keyword) || has_keyword(full, keyword) {
            fallback = Some(number);
        }
        k += 1;
    }
    match fallback {
        Some(number) => FontWeight { value: number },
        None => FontWeight { value: WEIGHT_REGULAR },
    }
}

/// The stretch that the lower-cased style scope tells of.
pub fn infer_stretch(style: &Vec<char>) -> (stretch: FontStretch)
    ensures
        stretch.permille == {
            let decisive = first_hit(style@, stretch_keywords(), 0);
            if decisive < stretch_keywords().len() {
                stretch_numbers()[decisive]
            } else {
                STRETCH_NORMAL
            }
        },
{
    let mut k: usize = 0;
    while k < 21
        invariant
            k <= 21,
            stretch_keywords().len() == 21,
            first_hit(style@, stretch_keywords(), 0) == first_hit(
                style@,
                stretch_keywords(),
                k as int,
            ),
        decreases 21 - k,
    {
        let (keyword, number) = stretch_keyword(k);
        if has_keyword(style, keyword) {
            return FontStretch { permille: number };
        }
        k += 1;
    }
    FontStretch { permille: STRETCH_NORMAL }
}

/// The flags that one lower-cased scope tells of.
pub fn infer_scope_flags(scope: &Vec<char>) -> (flags: FontFlags)
    ensures
        flags == scope_flags(scope@),
{
    if has_keyword(scope, "mono") {
        FontFlags { monospace: true, serif: false }
    } else if has_keyword(scope, "serif") {
        FontFlags { monospace: false, serif: true }
    } else {
        FontFlags { monospace: false, serif: false }
    }
}

/// Whether `name` is an answer of `canonicalize` to a name that reads
/// `source`.
pub open spec fn canonical_of<F: Fn(&str) -> String>(
    canonicalize: &F,
    source: Seq<char>,
    name: String,
) -> bool {
    exists|s: &str| s@ == source && #[trigger] call_ensures(*canonicalize, (s,), name)
}

/// Whether `canonicalize` gives names that read alike answers that read
/// alike.
pub open spec fn answers_alike<F: Fn(&str) -> String>(canonicalize: &F) -> bool {
    forall|s1: &str, s2: &str, n1: String, n2: String|
        s1@ == s2@ && #[trigger] call_ensures(*canonicalize, (s1,), n1) && #[trigger] call_ensures(
            *canonicalize,
            (s2,),
            n2,
        ) ==> n1@ == n2@
}

/// Whether `outcome` is what inference may return for `info` with
/// `canonicalize` as the family canonicalizer.
///
/// Inference fails exactly where no family can be had: where the name that
/// the family is read from is empty, or the canonicalizer answers with an
/// empty name. Otherwise the record holds the canonicalizer's answer as its
/// family, and the variant, flags and coverage that the descriptor decides.
pub open spec fn is_inference<F: Fn(&str) -> String>(
    canonicalize: &F,
    info: WebFontInfoView,
    outcome: Result<FontInfo, FontError>,
) -> bool {
    let source = family_source(info.family, info.full_name);
    match outcome {
        Ok(found) => {
            &&& source.len() > 0
            &&& found.family@.len() > 0
            &&& canonical_of(canonicalize, source, found.family)
            &&& found@ == inferred_info(info, found.family@)
        },
        Err(e) => {
            &&& e is MissingFamily
            &&& source.len() == 0 || exists|name: String|
                name@.len() == 0 && #[trigger] canonical_of(canonicalize, source, name)
        },
    }
}

/// The name from which the typographic family is derived.
pub fn resolve_family_source<'a>(family: &'a str, full_name: &'a str) -> (source: &'a str)
    ensures
        source@ == family_source(family@, full_name@),
{
    let chars = chars_of(family);
    if chars.len() == 0 || has_prefix(&chars, "Noto") || has_prefix(&chars, "NewCM") || has_prefix(
        &chars,
        "NewComputerModern",
    ) {
        full_name
    } else {
        family
    }
}

/// The typographic family of a font that reports `family` and `full_name`,
/// as `canonicalize` derives it from one of the two.
///
/// Fails with `MissingFamily` exactly where the name to derive it from is
/// empty.
pub fn font_family_web_to_typst<F: Fn(&str) -> String>(
    family: &str,
    full_name: &str,
    canonicalize: &F,
) -> (r: Result<String, FontError>)
    requires
        forall|s: &str| s@.len() > 0 ==> call_requires(*canonicalize, (s,)),
    ensures
        r is Err <==> family_source(family@, full_name@).len() == 0,
        match r {
            Ok(name) => canonical_of(canonicalize, family_source(family@, full_name@), name),
            Err(e) => e is MissingFamily,
        },
{
    let source = resolve_family_source(family, full_name);
    if source.is_empty() {
        return Err(FontError::MissingFamily);
    }
    let name = canonicalize(source);
    Ok(name)
}

/// The identity of the font that `info` describes, given its typographic
/// family.
///
/// Fails with `MissingFamily` exactly where `family` is empty.
pub fn infer_info_with_family(info: &WebFontInfo, family: String) -> (r: Result<
    FontInfo,
    FontError,
>)
    ensures
        is_inference_with_family(info@, family@, r),
        r matches Ok(found) ==> found.family == family,
{
    if family.as_str().is_empty() {
        return Err(FontError::MissingFamily);
    }
    let full = lowercase_chars(info.full_name.as_str());
    let postscript = lowercase_chars(info.postscript_name.as_str());
    let style = lowercase_chars(info.style.as_str());
    let variant = FontVariant {
        style: infer_style(&full),
        weight: infer_weight(&style, &postscript, &full),
        stretch: infer_stretch(&style),
    };
    let flags = infer_scope_flags(&style).union(infer_scope_flags(&postscript)).union(
        infer_scope_flags(&full),
    );
    Ok(FontInfo { family, variant, flags, coverage: Coverage::full() })
}

/// The identity of the font that `info` describes, with `canonicalize`
/// deriving the typographic family from the reported names.
pub fn infer_info_from_web_font<F: Fn(&str) -> String>(info: WebFontInfo, canonicalize: &F) -> (r:
    Result<FontInfo, FontError>)
    requires
        forall|s: &str| s@.len() > 0 ==> call_requires(*canonicalize, (s,)),
    ensures
        is_inference(canonicalize, info@, r),
        family_source(info.family@, info.full_name@).len() == 0 ==> r is Err,
{
    let resolved = font_family_web_to_typst(
        info.family.as_str(),
        info.full_name.as_str(),
        canonicalize,
    );
    match resolved {
        Ok(family) => {
            proof {
                if family@.len() == 0 {
                    assert(canonical_of(
                        canonicalize,
                        family_source(info.family@, info.full_name@),
                        family,
                    ));
                }
            }
            infer_info_with_family(&info, family)
        },
        Err(e) => Err(e),
    }
}

/// Inference with a given family is a function of what the descriptor and
/// the family read: descriptors that read alike, with families that read
/// alike, yield outcomes that say the same. Nothing but the four names and
/// the family is heeded.
pub proof fn lemma_inference_with_family_is_repeatable(
    first: WebFontInfoView,
    first_family: Seq<char>,
    second: WebFontInfoView,
    second_family: Seq<char>,
    a: Result<FontInfo, FontError>,
    b: Result<FontInfo, FontError>,
)
    requires
        first == second,
        first_family == second_family,
        is_inference_with_family(first, first_family, a),
        is_inference_with_family(second, second_family, b),
    ensures
        outcomes_agree(a, b),
{
}

/// Whether `outcome` is what inference returns for `info` with the family
/// `family`: the lack of a family where `family` is empty, the inferred
/// record otherwise.
pub open spec fn is_inference_with_family(
    info: WebFontInfoView,
    family: Seq<char>,
    outcome: Result<FontInfo, FontError>,
) -> bool {
    match outcome {
        Ok(found) => family.len() > 0 && found@ == inferred_info(info, family),
        Err(e) => family.len() == 0 && e is MissingFamily,
    }
}

/// Whether two outcomes of inference say the same: both miss the family, or
/// both hold records that read alike.
pub open spec fn outcomes_agree(a: Result<FontInfo, FontError>, b: Result<FontInfo, FontError>) -> bool {
    match (a, b) {
        (Ok(x), Ok(y)) => x@ == y@,
        (Err(x), Err(y)) => x is MissingFamily && y is MissingFamily,
        _ => false,
    }
}

/// Inference is repeatable: with a canonicalizer that answers alike to names
/// that read alike, two descriptors that read alike yield outcomes that say
/// the same.
pub proof fn lemma_inference_is_repeatable<F: Fn(&str) -> String>(
    canonicalize: &F,
    first: WebFontInfoView,
    second: WebFontInfoView,
    a: Result<FontInfo, FontError>,
    b: Result<FontInfo, FontError>,
)
    requires
        first == second,
        answers_alike(canonicalize),
        is_inference(canonicalize, first, a),
        is_inference(canonicalize, second, b),
    ensures
        outcomes_agree(a, b),
{
    let source = family_source(first.family, first.full_name);
    match (a, b) {
        (Ok(x), Ok(y)) => {
            lemma_answers_read_alike(canonicalize, source, x.family, y.family);
        },
        (Ok(x), Err(_)) => {
            let name = choose|name: String|
                name@.len() == 0 && #[trigger] canonical_of(canonicalize, source, name);
            lemma_answers_read_alike(canonicalize, source, x.family, name);
        },
        (Err(_), Ok(y)) => {
            let name = choose|name: String|
                name@.len() == 0 && #[trigger] canonical_of(canonicalize, source, name);
            lemma_answers_read_alike(canonicalize, source, y.family, name);
        },
        (Err(_), Err(_)) => {},
    }
}

/// Two answers of a canonicalizer that answers alike, to names that read
/// `source`, read alike.
pub proof fn lemma_answers_read_alike<F: Fn(&str) -> String>(
    canonicalize: &F,
    source: Seq<char>,
    n1: String,
    n2: String,
)
    requires
        answers_alike(canonicalize),
        canonical_of(canonicalize, source, n1),
        canonical_of(canonicalize, source, n2),
    ensures
        n1@ == n2@,
{
    let s1 = choose|s: &str| s@ == source && #[trigger] call_ensures(*canonicalize, (s,), n1);
    let s2 = choose|s: &str| s@ == source && #[trigger] call_ensures(*canonicalize, (s,), n2);
    assert(call_ensures(*canonicalize, (s1,), n1));
    assert(call_ensures(*canonicalize, (s2,), n2));
}

/// Every weight that inference comes to is one of the presets, and so lies
/// between 1 and 1000.
pub proof fn lemma_inferred_weight_is_preset(scopes: SearchScopes)
    ensures
        WEIGHT_THIN <= inferred_weight(scopes).value <= WEIGHT_BLACK,
        inferred_weight(scopes).value % 100 == 0,
        inferred_weight(scopes).wf(),
{
    let numbers = weight_numbers();
    assert forall|k: int| 0 <= k < numbers.len() implies WEIGHT_THIN <= #[trigger] numbers[k]
        <= WEIGHT_BLACK && numbers[k] % 100 == 0 by {
        assert(numbers.len() == 15);
    }
    assert(weight_keywords().len() == 15);
    lemma_first_hit_in_range(scopes.style, weight_keywords(), 0);
    lemma_last_hit_in_range(scopes.postscript, scopes.full, weight_keywords(), 15);
}

/// The first hit at or after `from` lies at or after `from`, and not beyond
/// the keywords.
pub proof fn lemma_first_hit_in_range(scope: Seq<char>, keywords: Seq<Seq<char>>, from: int)
    requires
        0 <= from <= keywords.len(),
    ensures
        from <= first_hit(scope, keywords, from) <= keywords.len(),
    decreases keywords.len() - from,
{
    if from < keywords.len() && !contains(scope, keywords[from]) {
        lemma_first_hit_in_range(scope, keywords, from + 1);
    }
}

/// The last hit before `upto` lies before `upto`, and is -1 where there is
/// none.
pub proof fn lemma_last_hit_in_range(
    first: Seq<char>,
    second: Seq<char>,
    keywords: Seq<Seq<char>>,
    upto: int,
)
    requires
        0 <= upto <= keywords.len(),
    ensures
        -1 <= last_hit(first, second, keywords, upto) < upto,
    decreases upto,
{
    if upto > 0 && !(contains(first, keywords[upto - 1]) || contains(second, keywords[upto - 1])) {
        lemma_last_hit_in_range(first, second, keywords, upto - 1);
    }
}

} // verus!
