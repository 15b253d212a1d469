//! Selection of the exporters of one compile run.
//!
//! The formats asked for are brought into a normal form, sorted and without
//! repeats, and each is bound to the place its output goes to: a file beside
//! the other outputs, or the address of a listening preview.
use vstd::prelude::*;
use crate::order::{
    lemma_normalized_order_independent, lex_lt, lex_lt_from, names_of, normalized, sorted_set,
    with_name,
};
use crate::text::{chars_of, same_name};

verus! {

/// What a compile run was asked for.
#[derive(Debug, PartialEq, Eq)]
pub struct CompileArgs {
    /// The directory for the outputs; empty to put them beside the entry
    /// file.
    pub output: String,
    /// The formats asked for, in any order, repeats allowed.
    pub format: Vec<String>,
    /// The address of a preview to stream to; empty for none.
    pub web_socket: String,
}

/// What a `CompileArgs` holds, as mathematical values.
pub struct CompileArgsView {
    pub output: Seq<char>,
    pub format: Seq<Seq<char>>,
    pub web_socket: Seq<char>,
}

impl View for CompileArgs {
    type V = CompileArgsView;

    open spec fn view(&self) -> CompileArgsView {
        CompileArgsView {
            output: self.output@,
            format: names_of(self.format@),
            web_socket: self.web_socket@,
        }
    }
}

/// The entry document: the directory it lies in and its file name.
#[derive(Debug, PartialEq, Eq)]
pub struct EntryFile {
    pub directory: String,
    pub file_name: String,
}

/// A file to write: its directory and its name in it.
#[derive(Debug, PartialEq, Eq)]
pub struct OutputPath {
    pub directory: String,
    pub file_name: String,
}

/// What an `OutputPath` holds, as mathematical values.
pub struct OutputPathView {
    pub directory: Seq<char>,
    pub file_name: Seq<char>,
}

impl View for OutputPath {
    type V = OutputPathView;

    open spec fn view(&self) -> OutputPathView {
        OutputPathView { directory: self.directory@, file_name: self.file_name@ }
    }
}

/// An exporter that takes the typeset document itself.
#[derive(Debug, PartialEq, Eq)]
pub enum DocExporter {
    Pdf { path: OutputPath },
}

/// What a `DocExporter` holds, as mathematical values.
pub enum DocExporterView {
    Pdf { path: OutputPathView },
}

impl View for DocExporter {
    type V = DocExporterView;

    open spec fn view(&self) -> DocExporterView {
        match self {
            DocExporter::Pdf { path } => DocExporterView::Pdf { path: path@ },
        }
    }
}

/// An exporter that takes the serialized artifact.
#[derive(Debug, PartialEq, Eq)]
pub enum ArtifactExporter {
    Json { path: OutputPath },
    Rmp { path: OutputPath },
    WebSocket { url: String },
}

/// What an `ArtifactExporter` holds, as mathematical values.
pub enum ArtifactExporterView {
    Json { path: OutputPathView },
    Rmp { path: OutputPathView },
    WebSocket { url: Seq<char> },
}

impl View for ArtifactExporter {
    type V = ArtifactExporterView;

    open spec fn view(&self) -> ArtifactExporterView {
        match self {
            ArtifactExporter::Json { path } => ArtifactExporterView::Json { path: path@ },
            ArtifactExporter::Rmp { path } => ArtifactExporterView::Rmp { path: path@ },
            ArtifactExporter::WebSocket { url } => ArtifactExporterView::WebSocket { url: url@ },
        }
    }
}

/// Why no exporters could be selected.
#[derive(Debug, PartialEq, Eq)]
pub enum ExportError {
    /// A format was asked for that no exporter writes.
    UnknownFormat { format: String },
}

/// The position of the last dot of `name` before `upto`, or -1.
pub open spec fn last_dot(name: Seq<char>, upto: int) -> int
    decreases upto,
{
    if upto <= 0 || upto > name.len() {
        -1
    } else if name[upto - 1] == '.' {
        upto - 1
    } else {
        last_dot(name, upto - 1)
    }
}

/// A file name without its extension: what stands before the last dot,
/// unless the name holds no dot or only the one it begins with.
pub open spec fn file_stem(name: Seq<char>) -> Seq<char> {
    let dot = last_dot(name, name.len() as int);
    if dot <= 0 {
        name
    } else {
        name.subrange(0, dot)
    }
}

/// A file name with its extension replaced by `extension`.
pub open spec fn with_extension(name: Seq<char>, extension: Seq<char>) -> Seq<char> {
    file_stem(name) + seq!['.'] + extension
}

/// The directory the outputs go to: the one asked for, or that of the entry
/// file.
pub open spec fn output_directory(output: Seq<char>, entry_directory: Seq<char>) -> Seq<char> {
    if output.len() > 0 {
        output
    } else {
        entry_directory
    }
}

/// The address a preview is streamed to: the one given, or the local one.
pub open spec fn stream_address(web_socket: Seq<char>) -> Seq<char> {
    if web_socket.len() > 0 {
        web_socket
    } else {
        "127.0.0.1:23625"@
    }
}

/// The formats to export: those asked for, streaming where an address was
/// given, and the two defaults where that leaves none.
pub open spec fn requested_formats(format: Seq<Seq<char>>, web_socket: Seq<char>) -> Seq<
    Seq<char>,
> {
    let asked = if web_socket.len() > 0 {
        format.push("web_socket"@)
    } else {
        format
    };
    if asked.len() == 0 {
        seq!["pdf"@, "json"@]
    } else {
        asked
    }
}

/// Whether an exporter writes `format`.
pub open spec fn is_known_format(format: Seq<char>) -> bool {
    format == "pdf"@ || format == "json"@ || format == "rmp"@ || format == "web_socket"@
}

/// The position of the first format at or after `from` that no exporter
/// writes, or the number of formats.
pub open spec fn first_unknown(formats: Seq<Seq<char>>, from: int) -> int
    decreases formats.len() - from,
{
    if from < 0 || from >= formats.len() {
        formats.len() as int
    } else if !is_known_format(formats[from]) {
        from
    } else {
        first_unknown(formats, from + 1)
    }
}

/// The file that the exporter of `extension` writes.
pub open spec fn output_path(
    directory: Seq<char>,
    entry_name: Seq<char>,
    extension: Seq<char>,
) -> OutputPathView {
    OutputPathView { directory, file_name: with_extension(entry_name, extension) }
}

/// The document exporters for `formats`, in their order.
pub open spec fn doc_exporters_for(
    formats: Seq<Seq<char>>,
    directory: Seq<char>,
    entry_name: Seq<char>,
) -> Seq<DocExporterView>
    decreases formats.len(),
{
    if formats.len() == 0 {
        Seq::empty()
    } else {
        let before = doc_exporters_for(formats.drop_last(), directory, entry_name);
        if formats.last() == "pdf"@ {
            before.push(DocExporterView::Pdf { path: output_path(directory, entry_name, "pdf"@) })
        } else {
            before
        }
    }
}

/// The artifact exporters for `formats`, in their order.
pub open spec fn artifact_exporters_for(
    formats: Seq<Seq<char>>,
    directory: Seq<char>,
    entry_name: Seq<char>,
    web_socket: Seq<char>,
) -> Seq<ArtifactExporterView>
    decreases formats.len(),
{
    if formats.len() == 0 {
        Seq::empty()
    } else {
        let before = artifact_exporters_for(
            formats.drop_last(),
            directory,
            entry_name,
            web_socket,
        );
        if formats.last() == "pdf"@ {
            before
        } else if formats.last() == "json"@ {
            before.push(
                ArtifactExporterView::Json {
                    path: output_path(directory, entry_name, "artifact.json"@),
                },
            )
        } else if formats.last() == "rmp"@ {
            before.push(
                ArtifactExporterView::Rmp {
                    path: output_path(directory, entry_name, "artifact.rmp"@),
                },
            )
        } else if formats.last() == "web_socket"@ {
            before.push(ArtifactExporterView::WebSocket { url: stream_address(web_socket) })
        } else {
            before
        }
    }
}

/// The exporters of a compile run, or the format that stands in their way.
///
/// The formats are taken in normal form, sorted and each once. Where one of
/// them is unknown, the first such is the error. Otherwise each format has
/// its one exporter, the document exporters and the artifact exporters each
/// in the order of the formats.
pub open spec fn planned_exporters(args: CompileArgsView, entry: OutputPathView) -> Result<
    (Seq<DocExporterView>, Seq<ArtifactExporterView>),
    Seq<char>,
> {
    let formats = normalized(requested_formats(args.format, args.web_socket));
    let directory = output_directory(args.output, entry.directory);
    let unknown = first_unknown(formats, 0);
    if unknown < formats.len() {
        Err(formats[unknown])
    } else {
        Ok(
            (
                doc_exporters_for(formats, directory, entry.file_name),
                artifact_exporters_for(formats, directory, entry.file_name, args.web_socket),
            ),
        )
    }
}

/// The views of the document exporters, in order.
pub open spec fn doc_views(list: Seq<DocExporter>) -> Seq<DocExporterView> {
    Seq::new(list.len(), |i: int| list[i]@)
}

/// The views of the artifact exporters, in order.
pub open spec fn artifact_views(list: Seq<ArtifactExporter>) -> Seq<ArtifactExporterView> {
    Seq::new(list.len(), |i: int| list[i]@)
}

/// What an outcome of the selection reads.
pub open spec fn outcome_view(
    outcome: Result<(Vec<DocExporter>, Vec<ArtifactExporter>), ExportError>,
) -> Result<(Seq<DocExporterView>, Seq<ArtifactExporterView>), Seq<char>> {
    match outcome {
        Ok((docs, artifacts)) => Ok((doc_views(docs@), artifact_views(artifacts@))),
        Err(ExportError::UnknownFormat { format }) => Err(format@),
    }
}

impl View for EntryFile {
    type V = OutputPathView;

    open spec fn view(&self) -> OutputPathView {
        OutputPathView { directory: self.directory@, file_name: self.file_name@ }
    }
}

impl ExportError {
    /// The text that tells a user of the error.
    pub fn message(&self) -> (text: String)
        ensures
            match self {
                ExportError::UnknownFormat { format } => text@ == "unknown format: "@ + format@,
            },
    {
        match self {
            ExportError::UnknownFormat { format } => {
                let mut text = String::from_str("unknown format: ");
                text.append(format.as_str());
                text
            },
        }
    }
}

/// `name` with its extension replaced by `extension`.
pub fn replace_extension(name: &str, extension: &str) -> (file_name: String)
    ensures
        file_name@ == with_extension(name@, extension@),
{
    let chars = chars_of(name);
    let mut upto: usize = chars.len();
    while upto > 0 && chars[upto - 1] != '.'
        invariant
            upto <= chars.len(),
            chars@ == name@,
            last_dot(name@, name@.len() as int) == last_dot(name@, upto as int),
        decreases upto,
    {
        upto -= 1;
    }
    let mut file_name = if upto <= 1 {
        String::from_str(name)
    } else {
        String::from_str(name.substring_char(0, upto - 1))
    };
    file_name.append(".");
    file_name.append(extension);
    proof {
        reveal_strlit(".");
        assert("."@ =~= seq!['.']);
    }
    file_name
}

/// The file that the exporter of `extension` writes.
fn bind_path(directory: &String, entry_name: &str, extension: &str) -> (path: OutputPath)
    ensures
        path@ == output_path(directory@, entry_name@, extension@),
{
    OutputPath { directory: directory.clone(), file_name: replace_extension(entry_name, extension) }
}

/// Selects the exporters of a compile run.
///
/// Succeeds exactly where every format asked for is known; no exporter is
/// handed out beside an error.
pub fn prepare_exporters(args: CompileArgs, entry_file: &EntryFile) -> (r: Result<
    (Vec<DocExporter>, Vec<ArtifactExporter>),
    ExportError,
>)
    ensures
        outcome_view(r) == planned_exporters(args@, entry_file@),
{
    let ghost asked = args@;
    let CompileArgs { output, format, web_socket } = args;
    let mut formats = format;
    if !web_socket.as_str().is_empty() {
        formats.push(String::from_str("web_socket"));
    }
    if formats.len() == 0 {
        formats.push(String::from_str("pdf"));
        formats.push(String::from_str("json"));
    }
    assert(names_of(formats@) =~= requested_formats(asked.format, asked.web_socket));
    let normal = sorted_set(&formats);
    let directory = if !output.as_str().is_empty() {
        output
    } else {
        entry_file.directory.clone()
    };
    let entry_name = entry_file.file_name.as_str();
    let ghost tags = names_of(normal@);
    let mut docs: Vec<DocExporter> = Vec::new();
    let mut artifacts: Vec<ArtifactExporter> = Vec::new();
    let mut i: usize = 0;
    while i < normal.len()
        invariant
            i <= normal.len(),
            asked == args@,
            tags == names_of(normal@),
            tags == normalized(requested_formats(asked.format, asked.web_socket)),
            directory@ == output_directory(asked.output, entry_file@.directory),
            entry_name@ == entry_file@.file_name,
            web_socket@ == asked.web_socket,
            first_unknown(tags, 0) == first_unknown(tags, i as int),
            doc_views(docs@) == doc_exporters_for(
                tags.subrange(0, i as int),
                directory@,
                entry_name@,
            ),
            artifact_views(artifacts@) == artifact_exporters_for(
                tags.subrange(0, i as int),
                directory@,
                entry_name@,
                web_socket@,
            ),
        decreases normal.len() - i,
    {
        let tag = normal[i].as_str();
        let ghost had_docs = doc_views(docs@);
        let ghost had_artifacts = artifact_views(artifacts@);
        proof {
            assert(tags[i as int] == tag@);
            assert(tags.subrange(0, i + 1).drop_last() =~= tags.subrange(0, i as int));
            assert(tags.subrange(0, i + 1).last() == tag@);
        }
        if same_name(tag, "pdf") {
            docs.push(DocExporter::Pdf { path: bind_path(&directory, entry_name, "pdf") });
            assert(doc_views(docs@) =~= had_docs.push(docs@[docs@.len() - 1]@));
        } else if same_name(tag, "json") {
            artifacts.push(
                ArtifactExporter::Json { path: bind_path(&directory, entry_name, "artifact.json") },
            );
            assert(artifact_views(artifacts@) =~= had_artifacts.push(
                artifacts@[artifacts@.len() - 1]@,
            ));
        } else if same_name(tag, "rmp") {
            artifacts.push(
                ArtifactExporter::Rmp { path: bind_path(&directory, entry_name, "artifact.rmp") },
            );
            assert(artifact_views(artifacts@) =~= had_artifacts.push(
                artifacts@[artifacts@.len() - 1]@,
            ));
        } else if same_name(tag, "web_socket") {
            let url = if web_socket.as_str().is_empty() {
                String::from_str("127.0.0.1:23625")
            } else {
                web_socket.clone()
            };
            artifacts.push(ArtifactExporter::WebSocket { url });
            assert(artifact_views(artifacts@) =~= had_artifacts.push(
                artifacts@[artifacts@.len() - 1]@,
            ));
        } else {
            let format = normal[i].clone();
            proof {
                assert(!is_known_format(tags[i as int]));
                assert(first_unknown(tags, i as int) == i);
                assert(format@ == tags[i as int]);
            }
            return Err(ExportError::UnknownFormat { format });
        }
        i += 1;
    }
    assert(tags.subrange(0, i as int) =~= tags);
    Ok((docs, artifacts))
}

/// The selection heeds which formats are asked for, not their order: two
/// runs that differ only in the order of their formats are planned alike.
pub proof fn lemma_selection_order_independent(
    first: CompileArgsView,
    second: CompileArgsView,
    entry: OutputPathView,
)
    requires
        first.format.to_multiset() == second.format.to_multiset(),
        first.output == second.output,
        first.web_socket == second.web_socket,
    ensures
        planned_exporters(first, entry) == planned_exporters(second, entry),
{
    broadcast use vstd::seq_lib::to_multiset_build;

    let a = requested_formats(first.format, first.web_socket);
    let b = requested_formats(second.format, second.web_socket);
    first.format.to_multiset_ensures();
    second.format.to_multiset_ensures();
    assert(first.format.len() == second.format.len());
    assert(a.to_multiset() == b.to_multiset());
    lemma_normalized_order_independent(a, b);
}

/// A run that asks for no format and gives no address has the two default
/// exporters and no other: the page description as the one document
/// exporter, the structured text as the one artifact exporter, both beside
/// each other under the name of the entry file.
pub proof fn lemma_default_selection(args: CompileArgsView, entry: OutputPathView)
    requires
        args.format.len() == 0,
        args.web_socket.len() == 0,
    ensures
        planned_exporters(args, entry) == Ok::<
            (Seq<DocExporterView>, Seq<ArtifactExporterView>),
            Seq<char>,
        >(
            (
                seq![
                    DocExporterView::Pdf {
                        path: output_path(
                            output_directory(args.output, entry.directory),
                            entry.file_name,
                            "pdf"@,
                        ),
                    },
                ],
                seq![
                    ArtifactExporterView::Json {
                        path: output_path(
                            output_directory(args.output, entry.directory),
                            entry.file_name,
                            "artifact.json"@,
                        ),
                    },
                ],
            ),
        ),
{
    reveal_strlit("pdf");
    reveal_strlit("json");
    reveal_strlit("rmp");
    reveal_strlit("web_socket");
    let asked = requested_formats(args.format, args.web_socket);
    let directory = output_directory(args.output, entry.directory);
    assert(asked =~= seq!["pdf"@, "json"@]);
    assert(asked.drop_last() =~= seq!["pdf"@]);
    assert(asked.drop_last().drop_last() =~= Seq::<Seq<char>>::empty());
    reveal_with_fuel(normalized, 4);
    reveal_with_fuel(with_name, 4);
    reveal_with_fuel(lex_lt_from, 4);
    assert(normalized(seq!["pdf"@]) =~= seq!["pdf"@]);
    assert(!lex_lt("pdf"@, "json"@));
    let formats = normalized(asked);
    assert(formats =~= seq!["json"@, "pdf"@]);
    reveal_with_fuel(first_unknown, 4);
    assert(is_known_format(formats[0]) && is_known_format(formats[1]));
    assert(first_unknown(formats, 2) == 2);
    assert(first_unknown(formats, 1) == 2);
    assert(first_unknown(formats, 0) == 2);
    assert(formats.drop_last() =~= seq!["json"@]);
    assert(formats.drop_last().drop_last() =~= Seq::<Seq<char>>::empty());
    assert("json"@ != "pdf"@);
    reveal_with_fuel(doc_exporters_for, 4);
    reveal_with_fuel(artifact_exporters_for, 4);
    assert(doc_exporters_for(formats, directory, entry.file_name) =~= seq![
        DocExporterView::Pdf { path: output_path(directory, entry.file_name, "pdf"@) },
    ]);
    assert(artifact_exporters_for(formats, directory, entry.file_name, args.web_socket) =~= seq![
        ArtifactExporterView::Json {
            path: output_path(directory, entry.file_name, "artifact.json"@),
        },
    ]);
}

} // verus!
