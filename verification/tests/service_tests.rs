use calby_docs::data::{DocType, Document};
use calby_docs::documents::SaveFilesRequest;
use calby_docs::service::{
    add_user_to_file_reply, file_id_for, get_file_reply, prepare_document, room_dir,
    save_files_reply, type_dir,
};

#[test]
fn file_id_from_first_sixteen_bytes() {
    assert_eq!(
        file_id_for("user-42", 1700000000000, "report.docx"),
        "75736572-2d34-3231-3730-303030303030"
    );
}

#[test]
fn file_id_cuts_bytes_not_chars() {
    assert_eq!(
        file_id_for("éééééééé", 0, "x"),
        "c3a9c3a9-c3a9-c3a9-c3a9-c3a9c3a9c3a9"
    );
}

#[test]
fn file_id_shape() {
    let id = file_id_for("someone", 1, "a-long-file-name.txt");
    assert_eq!(id.len(), 36);
    for (i, c) in id.chars().enumerate() {
        if [8, 13, 18, 23].contains(&i) {
            assert_eq!(c, '-');
        } else {
            assert!(c.is_ascii_hexdigit() && !c.is_ascii_uppercase());
        }
    }
}

#[test]
fn directories_of_a_room() {
    assert_eq!(room_dir("r1"), "./data/r1");
    assert_eq!(type_dir("r1", &DocType::PNG), "./data/r1/images");
    assert_eq!(type_dir("r1", &DocType::XLS), "./data/r1/files");
}

#[test]
fn prepared_document_lies_in_created_directory() {
    let req = SaveFilesRequest {
        user_id: "user-42".to_string(),
        file_name: "report.docx".to_string(),
        doc_type: 1,
        room_id: "room".to_string(),
        data: vec![9, 9],
    };
    let doc: Document = prepare_document(&req, 1700000000000, "salt".to_string());
    assert_eq!(doc.file_id, "75736572-2d34-3231-3730-303030303030");
    assert_eq!(
        doc.file_url,
        "data/room/files/75736572-2d34-3231-3730-303030303030-report.docx"
    );
    let dir = type_dir(&req.room_id, &doc.file_type);
    assert!(format!("./{}", doc.file_url).starts_with(&format!("{}/", dir)));
    assert!(dir.starts_with(&room_dir(&req.room_id)));
    assert_eq!(doc.file_type, DocType::DOCX);
    assert_eq!(doc.room_id, "room");
}

#[test]
fn save_reply_names_the_id() {
    let reply = save_files_reply("abc".to_string());
    assert!(reply.successful);
    assert_eq!(reply.file_id, "abc");
    assert_eq!(reply.info_message, "Save file with id: abc");
}

#[test]
fn get_reply_carries_data_and_identity() {
    let doc = Document {
        file_id: "i".to_string(),
        file_name: "n".to_string(),
        file_type: DocType::SVG,
        user_hash: "h".to_string(),
        file_url: "u".to_string(),
        room_id: "r".to_string(),
    };
    let reply = get_file_reply(doc, vec![1, 2]);
    assert_eq!(reply.data, vec![1, 2]);
    assert_eq!(reply.file_id, "i");
    assert_eq!(reply.file_name, "n");
}

#[test]
fn sharing_always_succeeds() {
    assert!(add_user_to_file_reply().successful);
}
