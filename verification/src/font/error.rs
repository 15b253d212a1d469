//! What can go wrong while a font resource is taken in.
use vstd::prelude::*;

verus! {

/// Names a value on the host's side. The host keeps the value; the crate
/// passes the handle on.
#[derive(Clone, Copy, Debug, PartialEq, Eq, Structural)]
pub struct HostHandle {
    pub id: u32,
}

/// The keys a font descriptor may hold.
#[derive(Clone, Copy, Debug, PartialEq, Eq, Structural)]
pub enum DescriptorKey {
    PostscriptName,
    Family,
    FullName,
    Style,
    Reference,
    Info,
    Blob,
}

/// What is wrong with a malformed descriptor.
#[derive(Debug, PartialEq, Eq)]
pub enum DescriptorFault {
    /// The descriptor is no object with entries.
    NotAnObject { value: HostHandle },
    /// An entry's key is no text.
    KeyNotText { value: HostHandle },
    /// An entry's key is none of the known ones.
    UnknownKey { key: String },
    /// The value of a name entry is no text.
    NotText { field: DescriptorKey, value: HostHandle },
    /// The value of the byte accessor entry cannot be called.
    NotCallable { value: HostHandle },
}

/// What a `DescriptorFault` holds, as mathematical values.
pub enum DescriptorFaultView {
    NotAnObject { value: HostHandle },
    KeyNotText { value: HostHandle },
    UnknownKey { key: Seq<char> },
    NotText { field: DescriptorKey, value: HostHandle },
    NotCallable { value: HostHandle },
}

impl View for DescriptorFault {
    type V = DescriptorFaultView;

    open spec fn view(&self) -> DescriptorFaultView {
        match self {
            DescriptorFault::NotAnObject { value } => DescriptorFaultView::NotAnObject {
                value: *value,
            },
            DescriptorFault::KeyNotText { value } => DescriptorFaultView::KeyNotText {
                value: *value,
            },
            DescriptorFault::UnknownKey { key } => DescriptorFaultView::UnknownKey { key: key@ },
            DescriptorFault::NotText { field, value } => DescriptorFaultView::NotText {
                field: *field,
                value: *value,
            },
            DescriptorFault::NotCallable { value } => DescriptorFaultView::NotCallable {
                value: *value,
            },
        }
    }
}

/// Why no identity could be made out for a font resource.
#[derive(Debug, PartialEq, Eq)]
pub enum FontError {
    /// Neither the family nor the full name yields a family.
    MissingFamily,
    /// The descriptor carries no handle to the font.
    MissingReference { family: String },
    /// The descriptor carries no way to fetch the font's bytes.
    MissingLoader { family: String },
    /// The descriptor has a key that is not known, or a value of the wrong
    /// kind.
    MalformedDescriptor { fault: DescriptorFault },
}

/// What a `FontError` holds, as mathematical values.
pub enum FontErrorView {
    MissingFamily,
    MissingReference { family: Seq<char> },
    MissingLoader { family: Seq<char> },
    MalformedDescriptor { fault: DescriptorFaultView },
}

impl View for FontError {
    type V = FontErrorView;

    open spec fn view(&self) -> FontErrorView {
        match self {
            FontError::MissingFamily => FontErrorView::MissingFamily,
            FontError::MissingReference { family } => FontErrorView::MissingReference {
                family: family@,
            },
            FontError::MissingLoader { family } => FontErrorView::MissingLoader { family: family@ },
            FontError::MalformedDescriptor { fault } => FontErrorView::MalformedDescriptor {
                fault: fault@,
            },
        }
    }
}

/// How a descriptor spells a key.
pub open spec fn key_text(key: DescriptorKey) -> Seq<char> {
    match key {
        DescriptorKey::PostscriptName => "postscriptName"@,
        DescriptorKey::Family => "family"@,
        DescriptorKey::FullName => "fullName"@,
        DescriptorKey::Style => "style"@,
        DescriptorKey::Reference => "ref"@,
        DescriptorKey::Info => "info"@,
        DescriptorKey::Blob => "blob"@,
    }
}

/// The text that tells a user of a fault.
pub open spec fn fault_text(fault: DescriptorFaultView) -> Seq<char> {
    match fault {
        DescriptorFaultView::NotAnObject { value } => "expected object for iterating font"@,
        DescriptorFaultView::KeyNotText { value } => "expected string for web_font.key"@,
        DescriptorFaultView::UnknownKey { key } => "unknown key for web_font: "@ + key,
        DescriptorFaultView::NotText { field, value } => "expected string for web_font."@
            + key_text(field),
        DescriptorFaultView::NotCallable { value } => "expected function for web_font.blob"@,
    }
}

/// The text that tells a user of an error.
pub open spec fn error_text(error: FontErrorView) -> Seq<char> {
    match error {
        FontErrorView::MissingFamily =>
            "empty family (cannot infer from font.family and font.fullName)"@,
        FontErrorView::MissingReference { family } => "Could not find font reference for "@
            + family,
        FontErrorView::MissingLoader { family } => "Could not find font blob loader for "@
            + family,
        FontErrorView::MalformedDescriptor { fault } => fault_text(fault),
    }
}

impl DescriptorKey {
    /// How a descriptor spells the key.
    pub fn name(self) -> (text: &'static str)
        ensures
            text@ == key_text(self),
    {
        match self {
            DescriptorKey::PostscriptName => "postscriptName",
            DescriptorKey::Family => "family",
            DescriptorKey::FullName => "fullName",
            DescriptorKey::Style => "style",
            DescriptorKey::Reference => "ref",
            DescriptorKey::Info => "info",
            DescriptorKey::Blob => "blob",
        }
    }
}

impl DescriptorFault {
    /// The text that tells a user of the fault.
    pub fn message(&self) -> (text: String)
        ensures
            text@ == fault_text(self@),
    {
        match self {
            DescriptorFault::NotAnObject { value } => String::from_str(
                "expected object for iterating font",
            ),
            DescriptorFault::KeyNotText { value } => String::from_str(
                "expected string for web_font.key",
            ),
            DescriptorFault::UnknownKey { key } => {
                let mut text = String::from_str("unknown key for web_font: ");
                text.append(key.as_str());
                text
            },
            DescriptorFault::NotText { field, value } => {
                let mut text = String::from_str("expected string for web_font.");
                text.append(field.name());
                text
            },
            DescriptorFault::NotCallable { value } => String::from_str(
                "expected function for web_font.blob",
            ),
        }
    }
}

impl FontError {
    /// The text that tells a user of the error.
    pub fn message(&self) -> (text: String)
        ensures
            text@ == error_text(self@),
    {
        match self {
            FontError::MissingFamily => String::from_str(
                "empty family (cannot infer from font.family and font.fullName)",
            ),
            FontError::MissingReference { family } => {
                let mut text = String::from_str("Could not find font reference for ");
                text.append(family.as_str());
                text
            },
            FontError::MissingLoader { family } => {
                let mut text = String::from_str("Could not find font blob loader for ");
                text.append(family.as_str());
                text
            },
            FontError::MalformedDescriptor { fault } => fault.message(),
        }
    }
}

} // verus!
