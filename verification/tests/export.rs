use typeset_bridge::export::{
    prepare_exporters, replace_extension, ArtifactExporter, CompileArgs, DocExporter, EntryFile,
    ExportError, OutputPath,
};
use typeset_bridge::order::{comes_before, insert_name, sorted_set};

fn args(output: &str, format: &[&str], web_socket: &str) -> CompileArgs {
    CompileArgs {
        output: output.to_string(),
        format: format.iter().map(|f| f.to_string()).collect(),
        web_socket: web_socket.to_string(),
    }
}

fn entry() -> EntryFile {
    EntryFile { directory: "docs".to_string(), file_name: "main.typ".to_string() }
}

fn path(directory: &str, file_name: &str) -> OutputPath {
    OutputPath { directory: directory.to_string(), file_name: file_name.to_string() }
}

#[test]
fn no_format_and_no_address_gives_the_two_defaults() {
    let (docs, artifacts) = prepare_exporters(args("", &[], ""), &entry()).unwrap();
    assert_eq!(docs, vec![DocExporter::Pdf { path: path("docs", "main.pdf") }]);
    assert_eq!(artifacts, vec![ArtifactExporter::Json { path: path("docs", "main.artifact.json") }]);
}

#[test]
fn output_directory_is_used_where_given() {
    let (docs, artifacts) = prepare_exporters(args("out", &["rmp", "pdf"], ""), &entry()).unwrap();
    assert_eq!(docs, vec![DocExporter::Pdf { path: path("out", "main.pdf") }]);
    assert_eq!(artifacts, vec![ArtifactExporter::Rmp { path: path("out", "main.artifact.rmp") }]);
}

#[test]
fn any_order_of_the_formats_gives_the_same_exporters() {
    let expected_docs = vec![DocExporter::Pdf { path: path("docs", "main.pdf") }];
    let expected_artifacts = vec![
        ArtifactExporter::Json { path: path("docs", "main.artifact.json") },
        ArtifactExporter::Rmp { path: path("docs", "main.artifact.rmp") },
        ArtifactExporter::WebSocket { url: "127.0.0.1:23625".to_string() },
    ];
    let orders: [[&str; 4]; 6] = [
        ["json", "pdf", "rmp", "web_socket"],
        ["web_socket", "rmp", "pdf", "json"],
        ["pdf", "web_socket", "json", "rmp"],
        ["rmp", "json", "web_socket", "pdf"],
        ["pdf", "json", "web_socket", "rmp"],
        ["web_socket", "pdf", "rmp", "json"],
    ];
    for order in orders {
        let (docs, artifacts) = prepare_exporters(args("", &order, ""), &entry()).unwrap();
        assert_eq!(docs, expected_docs);
        assert_eq!(artifacts, expected_artifacts);
    }
}

#[test]
fn a_format_asked_for_twice_has_one_exporter() {
    let (docs, artifacts) =
        prepare_exporters(args("", &["pdf", "json", "pdf", "json", "pdf"], ""), &entry()).unwrap();
    assert_eq!(docs.len(), 1);
    assert_eq!(artifacts.len(), 1);
}

#[test]
fn an_address_adds_the_streaming_exporter() {
    let (docs, artifacts) = prepare_exporters(args("", &[], "10.0.0.7:9000"), &entry()).unwrap();
    assert_eq!(docs, vec![]);
    assert_eq!(artifacts, vec![ArtifactExporter::WebSocket { url: "10.0.0.7:9000".to_string() }]);
    let (_, both) = prepare_exporters(args("", &["web_socket"], "10.0.0.7:9000"), &entry()).unwrap();
    assert_eq!(both, vec![ArtifactExporter::WebSocket { url: "10.0.0.7:9000".to_string() }]);
}

#[test]
fn streaming_without_address_goes_to_the_local_one() {
    let (_, artifacts) = prepare_exporters(args("", &["web_socket"], ""), &entry()).unwrap();
    assert_eq!(artifacts, vec![ArtifactExporter::WebSocket { url: "127.0.0.1:23625".to_string() }]);
}

#[test]
fn unknown_format_is_an_error_with_its_text() {
    let error = prepare_exporters(args("", &["pdf", "svg"], ""), &entry()).unwrap_err();
    assert_eq!(error, ExportError::UnknownFormat { format: "svg".to_string() });
    assert_eq!(error.message(), "unknown format: svg");
}

#[test]
fn the_first_unknown_format_in_sorted_order_is_told() {
    let one = prepare_exporters(args("", &["zip", "pdf", "docx"], ""), &entry()).unwrap_err();
    let other = prepare_exporters(args("", &["docx", "zip", "pdf"], ""), &entry()).unwrap_err();
    assert_eq!(one, ExportError::UnknownFormat { format: "docx".to_string() });
    assert_eq!(one, other);
    let cased = prepare_exporters(args("", &["PDF"], ""), &entry()).unwrap_err();
    assert_eq!(cased, ExportError::UnknownFormat { format: "PDF".to_string() });
}

#[test]
fn extension_replaces_what_follows_the_last_dot() {
    assert_eq!(replace_extension("main.typ", "pdf"), "main.pdf");
    assert_eq!(replace_extension("main", "pdf"), "main.pdf");
    assert_eq!(replace_extension("main.tar.gz", "artifact.json"), "main.tar.artifact.json");
    assert_eq!(replace_extension(".hidden", "pdf"), ".hidden.pdf");
    assert_eq!(replace_extension(".hidden.typ", "pdf"), ".hidden.pdf");
    assert_eq!(replace_extension("main.", "pdf"), "main.pdf");
    assert_eq!(replace_extension("übung.typ", "pdf"), "übung.pdf");
}

#[test]
fn names_are_ordered_as_strings_are() {
    let mut names = vec!["pdf", "json", "web_socket", "rmp", "", "js", "jsonl", "Pdf", "é", "z"];
    for a in &names {
        for b in &names {
            assert_eq!(comes_before(a, b), a < b, "{a:?} before {b:?}");
        }
    }
    let owned: Vec<String> = names.iter().map(|n| n.to_string()).collect();
    names.sort();
    assert_eq!(sorted_set(&owned), names);
}

#[test]
fn sorted_set_drops_repeats() {
    let names: Vec<String> = ["b", "a", "b", "c", "a"].iter().map(|n| n.to_string()).collect();
    assert_eq!(sorted_set(&names), vec!["a", "b", "c"]);
    assert_eq!(sorted_set(&Vec::new()), Vec::<String>::new());
    let mut list = vec!["a".to_string(), "c".to_string()];
    insert_name(&mut list, "b".to_string());
    insert_name(&mut list, "c".to_string());
    insert_name(&mut list, "".to_string());
    insert_name(&mut list, "d".to_string());
    assert_eq!(list, vec!["", "a", "b", "c", "d"]);
}
