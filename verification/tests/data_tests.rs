use calby_docs::data::{DocType, Document};
use calby_docs::documents::SaveFilesRequest;

fn request(doc_type: i32) -> SaveFilesRequest {
    SaveFilesRequest {
        user_id: "user1".to_string(),
        file_name: "report.docx".to_string(),
        doc_type,
        room_id: "room7".to_string(),
        data: vec![1, 2, 3],
    }
}

#[test]
fn folder_of_documents_is_files() {
    for t in [DocType::DOCX, DocType::XLSX, DocType::XLS, DocType::TXT] {
        assert_eq!(t.folder(), "files");
    }
}

#[test]
fn folder_of_pictures_is_images() {
    for t in [DocType::JPG, DocType::PNG, DocType::SVG] {
        assert_eq!(t.folder(), "images");
    }
}

#[test]
fn codes_map_to_kinds_in_order() {
    let kinds = [
        DocType::DOCX,
        DocType::XLSX,
        DocType::XLS,
        DocType::TXT,
        DocType::JPG,
        DocType::PNG,
        DocType::SVG,
    ];
    for (i, k) in kinds.iter().enumerate() {
        assert_eq!(DocType::from(i as i32 + 1), *k);
    }
}

#[test]
fn code_and_folder_agree() {
    for code in 1..=4 {
        assert_eq!(DocType::from(code).folder(), "files");
    }
    for code in 5..=7 {
        assert_eq!(DocType::from(code).folder(), "images");
    }
}

#[test]
fn kind_names() {
    assert_eq!(DocType::DOCX.name(), "DOCX");
    assert_eq!(DocType::XLSX.name(), "XLSX");
    assert_eq!(DocType::XLS.name(), "XLS");
    assert_eq!(DocType::TXT.name(), "TXT");
    assert_eq!(DocType::JPG.name(), "JPG");
    assert_eq!(DocType::PNG.name(), "PNG");
    assert_eq!(DocType::SVG.name(), "SVG");
}

#[test]
fn document_from_request() {
    let doc = Document::from(request(1), "salt".to_string());
    assert_eq!(doc.file_id, "");
    assert_eq!(doc.file_name, "report.docx");
    assert_eq!(doc.file_type, DocType::DOCX);
    assert_eq!(doc.user_hash, "1f93df1e8eadd31cede274827dc0db5bb07ab3b8437e192501809cfb85abda71");
    assert_eq!(doc.file_url, "");
    assert_eq!(doc.room_id, "room7");
}

#[test]
fn set_url_places_file_in_room() {
    let mut doc = Document::from(request(6), "salt".to_string());
    doc.file_id = "abc".to_string();
    assert!(doc.set_url("room9".to_string()).is_ok());
    assert_eq!(doc.file_url, "data/room9/images/abc-report.docx");
    assert_eq!(doc.file_id, "abc");
    assert_eq!(doc.room_id, "room7");
}

#[test]
fn document_text() {
    let mut doc = Document::from(request(4), "salt".to_string());
    doc.file_id = "id1".to_string();
    doc.set_url("r".to_string()).unwrap();
    assert_eq!(
        doc.to_string(),
        "Document:\n  name: report.docx;\n  doc type: TXT\n file_id: id1\n  file_url: data/r/files/id1-report.docx\n"
    );
}
