//! Font descriptors as a host hands them over, and their reading.
//!
//! A descriptor is an object of the host with a handful of entries. The host
//! side says of each key and value what kind of value it is; the reading
//! picks the names, the handle to the font and the accessor of its bytes,
//! and turns down what it does not know.
use vstd::prelude::*;
use crate::font::error::{
    DescriptorFault, DescriptorFaultView, DescriptorKey, FontError, FontErrorView, HostHandle,
};
use crate::font::infer::{infer_info_from_web_font, is_inference, WebFontInfo, WebFontInfoView};
use crate::font::info::{clone_infos, views_of, FontInfo, FontInfoView};
use crate::text::same_name;

verus! {

/// A value of the host, as far as the reading of a descriptor heeds it.
#[derive(Debug, PartialEq, Eq)]
pub struct HostValue {
    /// Names the value on the host's side.
    pub handle: HostHandle,
    /// The text of the value, where it is a string.
    pub text: Option<String>,
    /// Whether the value can be called.
    pub callable: bool,
    /// The identity records stored in the value, where it decodes as such a
    /// store.
    pub info: Option<Vec<FontInfo>>,
}

/// What a `HostValue` holds, as mathematical values.
pub struct HostValueView {
    pub handle: HostHandle,
    pub text: Option<Seq<char>>,
    pub callable: bool,
    pub info: Option<Seq<FontInfoView>>,
}

impl View for HostValue {
    type V = HostValueView;

    open spec fn view(&self) -> HostValueView {
        HostValueView {
            handle: self.handle,
            text: match self.text {
                Some(t) => Some(t@),
                None => None,
            },
            callable: self.callable,
            info: match self.info {
                Some(list) => Some(views_of(list@)),
                None => None,
            },
        }
    }
}

/// One entry of a descriptor.
#[derive(Debug, PartialEq, Eq)]
pub struct HostEntry {
    pub key: HostValue,
    pub value: HostValue,
}

/// What a `HostEntry` holds, as mathematical values.
pub struct HostEntryView {
    pub key: HostValueView,
    pub value: HostValueView,
}

impl View for HostEntry {
    type V = HostEntryView;

    open spec fn view(&self) -> HostEntryView {
        HostEntryView { key: self.key@, value: self.value@ }
    }
}

/// What a host hands over for one font resource.
#[derive(Debug, PartialEq, Eq)]
pub struct WebFontDescriptor {
    /// Names the descriptor on the host's side.
    pub handle: HostHandle,
    /// The entries in the host's order, or nothing where the value handed
    /// over is no object.
    pub entries: Option<Vec<HostEntry>>,
}

/// What a `WebFontDescriptor` holds, as mathematical values.
pub struct WebFontDescriptorView {
    pub handle: HostHandle,
    pub entries: Option<Seq<HostEntryView>>,
}

/// The views of the entries, in order.
pub open spec fn entry_views(entries: Seq<HostEntry>) -> Seq<HostEntryView> {
    Seq::new(entries.len(), |i: int| entries[i]@)
}

impl View for WebFontDescriptor {
    type V = WebFontDescriptorView;

    open spec fn view(&self) -> WebFontDescriptorView {
        WebFontDescriptorView {
            handle: self.handle,
            entries: match self.entries {
                Some(list) => Some(entry_views(list@)),
                None => None,
            },
        }
    }
}

/// What the entries of a descriptor say.
#[derive(Debug, PartialEq, Eq)]
pub struct DescriptorFields {
    pub names: WebFontInfo,
    pub reference: Option<HostHandle>,
    pub blob: Option<HostHandle>,
    pub cache: Option<Vec<FontInfo>>,
}

/// What a `DescriptorFields` holds, as mathematical values.
pub struct DescriptorFieldsView {
    pub names: WebFontInfoView,
    pub reference: Option<HostHandle>,
    pub blob: Option<HostHandle>,
    pub cache: Option<Seq<FontInfoView>>,
}

impl View for DescriptorFields {
    type V = DescriptorFieldsView;

    open spec fn view(&self) -> DescriptorFieldsView {
        DescriptorFieldsView {
            names: self.names@,
            reference: self.reference,
            blob: self.blob,
            cache: match self.cache {
                Some(list) => Some(views_of(list@)),
                None => None,
            },
        }
    }
}

/// The key that `text` spells, if any.
pub open spec fn descriptor_key(text: Seq<char>) -> Option<DescriptorKey> {
    if text == "postscriptName"@ {
        Some(DescriptorKey::PostscriptName)
    } else if text == "family"@ {
        Some(DescriptorKey::Family)
    } else if text == "fullName"@ {
        Some(DescriptorKey::FullName)
    } else if text == "style"@ {
        Some(DescriptorKey::Style)
    } else if text == "ref"@ {
        Some(DescriptorKey::Reference)
    } else if text == "info"@ {
        Some(DescriptorKey::Info)
    } else if text == "blob"@ {
        Some(DescriptorKey::Blob)
    } else {
        None
    }
}

/// The key of an entry, where it spells one.
pub open spec fn entry_key(entry: HostEntryView) -> Option<DescriptorKey> {
    match entry.key.text {
        Some(text) => descriptor_key(text),
        None => None,
    }
}

/// Whether `key` asks for a text as its value.
pub open spec fn is_name_key(key: DescriptorKey) -> bool {
    key == DescriptorKey::PostscriptName || key == DescriptorKey::Family || key
        == DescriptorKey::FullName || key == DescriptorKey::Style
}

/// What is wrong with an entry, if anything: its key is no text or spells
/// no known key, a name is no text, or the byte accessor cannot be called.
pub open spec fn entry_fault(entry: HostEntryView) -> Option<DescriptorFaultView> {
    match entry.key.text {
        None => Some(DescriptorFaultView::KeyNotText { value: entry.key.handle }),
        Some(text) => match descriptor_key(text) {
            None => Some(DescriptorFaultView::UnknownKey { key: text }),
            Some(key) => if is_name_key(key) && entry.value.text is None {
                Some(DescriptorFaultView::NotText { field: key, value: entry.value.handle })
            } else if key == DescriptorKey::Blob && !entry.value.callable {
                Some(DescriptorFaultView::NotCallable { value: entry.value.handle })
            } else {
                None
            },
        },
    }
}

/// The position of the first faulty entry at or after `from`, or the number
/// of entries.
pub open spec fn first_fault(entries: Seq<HostEntryView>, from: int) -> int
    decreases entries.len() - from,
{
    if from < 0 || from >= entries.len() {
        entries.len() as int
    } else if entry_fault(entries[from]) is Some {
        from
    } else {
        first_fault(entries, from + 1)
    }
}

/// The position of the last entry before `upto` with the key `key`, or -1.
pub open spec fn last_entry(entries: Seq<HostEntryView>, key: DescriptorKey, upto: int) -> int
    decreases upto,
{
    if upto <= 0 || upto > entries.len() {
        -1
    } else if entry_key(entries[upto - 1]) == Some(key) {
        upto - 1
    } else {
        last_entry(entries, key, upto - 1)
    }
}

/// The name that the entries before `upto` give for `key`: the text of the
/// last such entry, or the empty name.
pub open spec fn name_field(entries: Seq<HostEntryView>, key: DescriptorKey, upto: int) -> Seq<
    char,
> {
    let at = last_entry(entries, key, upto);
    if at >= 0 && entries[at].value.text is Some {
        entries[at].value.text->0
    } else {
        Seq::empty()
    }
}

/// The handle that the entries before `upto` give for `key`: that of the
/// last such entry's value.
pub open spec fn handle_field(entries: Seq<HostEntryView>, key: DescriptorKey, upto: int) -> Option<
    HostHandle,
> {
    let at = last_entry(entries, key, upto);
    if at >= 0 {
        Some(entries[at].value.handle)
    } else {
        None
    }
}

/// The stored identity records that the entries before `upto` give: those of
/// the last entry that holds a store, if its value decodes as one.
pub open spec fn cache_field(entries: Seq<HostEntryView>, upto: int) -> Option<Seq<FontInfoView>> {
    let at = last_entry(entries, DescriptorKey::Info, upto);
    if at >= 0 {
        entries[at].value.info
    } else {
        None
    }
}

/// What the entries before `upto` say.
pub open spec fn fields_upto(entries: Seq<HostEntryView>, upto: int) -> DescriptorFieldsView {
    DescriptorFieldsView {
        names: WebFontInfoView {
            family: name_field(entries, DescriptorKey::Family, upto),
            full_name: name_field(entries, DescriptorKey::FullName, upto),
            postscript_name: name_field(entries, DescriptorKey::PostscriptName, upto),
            style: name_field(entries, DescriptorKey::Style, upto),
        },
        reference: handle_field(entries, DescriptorKey::Reference, upto),
        blob: handle_field(entries, DescriptorKey::Blob, upto),
        cache: cache_field(entries, upto),
    }
}

/// What a descriptor says, or the fault of its first faulty entry. Of
/// entries with the same key the last one counts.
pub open spec fn parsed_fields(descriptor: WebFontDescriptorView) -> Result<
    DescriptorFieldsView,
    DescriptorFaultView,
> {
    match descriptor.entries {
        None => Err(DescriptorFaultView::NotAnObject { value: descriptor.handle }),
        Some(entries) => {
            let faulty = first_fault(entries, 0);
            if faulty < entries.len() {
                Err(entry_fault(entries[faulty])->0)
            } else {
                Ok(fields_upto(entries, entries.len() as int))
            }
        },
    }
}

/// The key that `text` spells, if any.
pub fn classify_key(text: &str) -> (key: Option<DescriptorKey>)
    ensures
        key == descriptor_key(text@),
{
    if same_name(text, "postscriptName") {
        Some(DescriptorKey::PostscriptName)
    } else if same_name(text, "family") {
        Some(DescriptorKey::Family)
    } else if same_name(text, "fullName") {
        Some(DescriptorKey::FullName)
    } else if same_name(text, "style") {
        Some(DescriptorKey::Style)
    } else if same_name(text, "ref") {
        Some(DescriptorKey::Reference)
    } else if same_name(text, "info") {
        Some(DescriptorKey::Info)
    } else if same_name(text, "blob") {
        Some(DescriptorKey::Blob)
    } else {
        None
    }
}

/// Reads font descriptors.
#[derive(Clone, Copy, Debug, PartialEq, Eq, Structural)]
pub struct FontBuilder {}

impl FontBuilder {
    /// The text of `val`, or the fault that it is none. `field` is the key
    /// whose value `val` is, or nothing where `val` is itself a key.
    pub fn to_string(&self, field: Option<DescriptorKey>, val: &HostValue) -> (r: Result<
        String,
        FontError,
    >)
        ensures
            match val@.text {
                Some(text) => r matches Ok(s) && s@ == text,
                None => r matches Err(e) && e@ == (FontErrorView::MalformedDescriptor {
                    fault: match field {
                        Some(key) => DescriptorFaultView::NotText {
                            field: key,
                            value: val.handle,
                        },
                        None => DescriptorFaultView::KeyNotText { value: val.handle },
                    },
                }),
            },
    {
        match &val.text {
            Some(text) => Ok(text.clone()),
            None => Err(
                FontError::MalformedDescriptor {
                    fault: match field {
                        Some(key) => DescriptorFault::NotText { field: key, value: val.handle },
                        None => DescriptorFault::KeyNotText { value: val.handle },
                    },
                },
            ),
        }
    }

    /// What the entries of `val` say, or the fault of the first faulty one.
    pub fn read_fields(&self, val: &WebFontDescriptor) -> (r: Result<DescriptorFields, FontError>)
        ensures
            match parsed_fields(val@) {
                Ok(fields) => r matches Ok(found) && found@ == fields,
                Err(fault) => r matches Err(e) && e@ == (FontErrorView::MalformedDescriptor {
                    fault,
                }),
            },
    {
        let entries = match &val.entries {
            Some(entries) => entries,
            None => {
                return Err(
                    FontError::MalformedDescriptor {
                        fault: DescriptorFault::NotAnObject { value: val.handle },
                    },
                );
            },
        };
        let ghost views = entry_views(entries@);
        let mut postscript_name = String::new();
        let mut family = String::new();
        let mut full_name = String::new();
        let mut style = String::new();
        let mut reference: Option<HostHandle> = None;
        let mut blob: Option<HostHandle> = None;
        let mut cache: Option<Vec<FontInfo>> = None;
        let mut i: usize = 0;
        while i < entries.len()
            invariant
                i <= entries.len(),
                views == entry_views(entries@),
                val@.entries == Some(views),
                first_fault(views, 0) == first_fault(views, i as int),
                postscript_name@ == name_field(views, DescriptorKey::PostscriptName, i as int),
                family@ == name_field(views, DescriptorKey::Family, i as int),
                full_name@ == name_field(views, DescriptorKey::FullName, i as int),
                style@ == name_field(views, DescriptorKey::Style, i as int),
                reference == handle_field(views, DescriptorKey::Reference, i as int),
                blob == handle_field(views, DescriptorKey::Blob, i as int),
                match cache {
                    Some(list) => cache_field(views, i as int) == Some(views_of(list@)),
                    None => cache_field(views, i as int) is None,
                },
            decreases entries.len() - i,
        {
            let entry = &entries[i];
            assert(views[i as int] == entry@);
            let key_text = match self.to_string(None, &entry.key) {
                Ok(text) => text,
                Err(e) => {
                    return Err(e);
                },
            };
            match classify_key(key_text.as_str()) {
                Some(DescriptorKey::PostscriptName) => {
                    match self.to_string(Some(DescriptorKey::PostscriptName), &entry.value) {
                        Ok(text) => {
                            postscript_name = text;
                        },
                        Err(e) => {
                            return Err(e);
                        },
                    }
                },
                Some(DescriptorKey::Family) => {
                    match self.to_string(Some(DescriptorKey::Family), &entry.value) {
                        Ok(text) => {
                            family = text;
                        },
                        Err(e) => {
                            return Err(e);
                        },
                    }
                },
                Some(DescriptorKey::FullName) => {
                    match self.to_string(Some(DescriptorKey::FullName), &entry.value) {
                        Ok(text) => {
                            full_name = text;
                        },
                        Err(e) => {
                            return Err(e);
                        },
                    }
                },
                Some(DescriptorKey::Style) => {
                    match self.to_string(Some(DescriptorKey::Style), &entry.value) {
                        Ok(text) => {
                            style = text;
                        },
                        Err(e) => {
                            return Err(e);
                        },
                    }
                },
                Some(DescriptorKey::Reference) => {
                    reference = Some(entry.value.handle);
                },
                Some(DescriptorKey::Info) => {
                    cache = match &entry.value.info {
                        Some(list) => Some(clone_infos(list)),
                        None => None,
                    };
                },
                Some(DescriptorKey::Blob) => {
                    if !entry.value.callable {
                        return Err(
                            FontError::MalformedDescriptor {
                                fault: DescriptorFault::NotCallable { value: entry.value.handle },
                            },
                        );
                    }
                    blob = Some(entry.value.handle);
                },
                None => {
                    return Err(
                        FontError::MalformedDescriptor {
                            fault: DescriptorFault::UnknownKey { key: key_text },
                        },
                    );
                },
            }
            i += 1;
        }
        Ok(
            DescriptorFields {
                names: WebFontInfo { family, full_name, postscript_name, style },
                reference,
                blob,
                cache,
            },
        )
    }

    /// Reads one descriptor: the handle to the font, the accessor of its
    /// bytes, and the identity of each of its faces.
    ///
    /// The faces are those of the stored records where the descriptor brings
    /// any; otherwise the one face inferred from the names.
    pub fn font_web_to_typst<F: Fn(&str) -> String>(
        &self,
        val: &WebFontDescriptor,
        canonicalize: &F,
    ) -> (r: Result<(HostHandle, HostHandle, Vec<FontInfo>), FontError>)
        requires
            forall|s: &str| s@.len() > 0 ==> call_requires(*canonicalize, (s,)),
        ensures
            is_descriptor_outcome(canonicalize, val@, r),
    {
        let fields = match self.read_fields(val) {
            Ok(fields) => fields,
            Err(e) => {
                return Err(e);
            },
        };
        let ghost read = fields@;
        let DescriptorFields { names, reference, blob, cache } = fields;
        let family = names.family.clone();
        let infos = match cache {
            Some(list) => list,
            None => {
                let inferred = infer_info_from_web_font(names, canonicalize);
                assert(is_inference(canonicalize, read.names, inferred));
                match inferred {
                    Ok(info) => {
                        let mut list: Vec<FontInfo> = Vec::new();
                        list.push(info);
                        assert(views_of(list@) =~= seq![info@]);
                        list
                    },
                    Err(e) => {
                        return Err(e);
                    },
                }
            },
        };
        let reference = match reference {
            Some(handle) => handle,
            None => {
                return Err(FontError::MissingReference { family });
            },
        };
        let blob = match blob {
            Some(handle) => handle,
            None => {
                return Err(FontError::MissingLoader { family });
            },
        };
        Ok((reference, blob, infos))
    }
}

/// Whether `outcome` is what the reading comes to once the faces are known
/// to be `infos`: the lack of a handle, else the lack of an accessor, else
/// both together with the faces.
pub open spec fn finished(
    fields: DescriptorFieldsView,
    infos: Seq<FontInfoView>,
    outcome: Result<(HostHandle, HostHandle, Vec<FontInfo>), FontError>,
) -> bool {
    match fields.reference {
        None => outcome matches Err(e) && e@ == (FontErrorView::MissingReference {
            family: fields.names.family,
        }),
        Some(reference) => match fields.blob {
            None => outcome matches Err(e) && e@ == (FontErrorView::MissingLoader {
                family: fields.names.family,
            }),
            Some(blob) => outcome matches Ok(parts) && parts.0 == reference && parts.1 == blob
                && views_of(parts.2@) == infos,
        },
    }
}

/// Whether `outcome` is what reading `descriptor` may return with
/// `canonicalize` as the family canonicalizer.
///
/// A faulty entry decides first. Stored records are taken as they are.
/// Without them the names are put to inference, whose failure is the
/// outcome. A missing handle and a missing accessor are told last, in this
/// order.
pub open spec fn is_descriptor_outcome<F: Fn(&str) -> String>(
    canonicalize: &F,
    descriptor: WebFontDescriptorView,
    outcome: Result<(HostHandle, HostHandle, Vec<FontInfo>), FontError>,
) -> bool {
    match parsed_fields(descriptor) {
        Err(fault) => outcome matches Err(e) && e@ == (FontErrorView::MalformedDescriptor {
            fault,
        }),
        Ok(fields) => match fields.cache {
            Some(infos) => finished(fields, infos, outcome),
            None => exists|inferred: Result<FontInfo, FontError>| #[trigger]
                is_inference(canonicalize, fields.names, inferred) && match inferred {
                    Ok(info) => finished(fields, seq![info@], outcome),
                    Err(_) => outcome matches Err(e) && e@ == FontErrorView::MissingFamily,
                },
        },
    }
}

} // verus!
