//! The documents service's own computations: where a saved file goes, what
//! id it gets, what record is stored and what each call answers.

use vstd::prelude::*;
use vstd::utf8::encode_utf8;
use crate::bindings::{uuid_hyphenated, uuid_text};
use crate::data::{DocType, Document, spec_doc_type_of, spec_file_url, spec_folder};
use crate::documents::{AddUserToFileResponse, GetFileResponse, SaveFilesRequest, SaveFilesResponse};
use crate::text::{decimal_value, is_decimal_digit, lemma_decimal_denotes, decimal, decimal_text, hex_lower, is_lower_hex_digit, lemma_hex_lower_digits, lemma_hex_lower_len};
use crate::utils::spec_hash_string;

verus! {

/// The directory of a room: `./data/{room_id}`.
pub open spec fn spec_room_dir(room_id: Seq<char>) -> Seq<char> {
    "./data/"@ + room_id
}

/// The directory of one kind of file in a room: `./data/{room_id}/{folder}`.
pub open spec fn spec_type_dir(room_id: Seq<char>, t: DocType) -> Seq<char> {
    spec_room_dir(room_id) + "/"@ + spec_folder(t)
}

/// The bytes an id is made from: the UTF-8 text of the user id, the time in
/// milliseconds and the file name, one after the other.
pub open spec fn spec_id_source(user_id: Seq<char>, timestamp: nat, file_name: Seq<char>) -> Seq<u8> {
    encode_utf8(user_id + decimal(timestamp) + file_name)
}

/// The id of a saved file: the UUID made of the first sixteen bytes of
/// [`spec_id_source`], in hyphenated form.
pub open spec fn spec_file_id(user_id: Seq<char>, timestamp: nat, file_name: Seq<char>) -> Seq<char> {
    uuid_hyphenated(spec_id_source(user_id, timestamp, file_name).subrange(0, 16))
}

/// The text that confirms a save.
pub open spec fn spec_save_message(file_id: Seq<char>) -> Seq<char> {
    "Save file with id: "@ + file_id
}

/// The directory to create for room `room_id`.
pub fn room_dir(room_id: &str) -> (dir: String)
    ensures
        dir@ == spec_room_dir(room_id@),
{
    let mut dir = "./data/".to_owned();
    dir.append(room_id);
    dir
}

/// The directory to create for files of kind `doc_type` in room `room_id`.
pub fn type_dir(room_id: &str, doc_type: &DocType) -> (dir: String)
    ensures
        dir@ == spec_type_dir(room_id@, *doc_type),
{
    let mut dir = room_dir(room_id);
    dir.append("/");
    let folder = doc_type.folder();
    dir.append(folder.as_str());
    dir
}

/// The id of a file that `user_id` saves as `file_name` at `timestamp`
/// (milliseconds since the epoch). The three together must give at least
/// sixteen bytes of UTF-8.
pub fn file_id_for(user_id: &str, timestamp: u128, file_name: &str) -> (id: String)
    requires
        spec_id_source(user_id@, timestamp as nat, file_name@).len() >= 16,
    ensures
        id@ == spec_file_id(user_id@, timestamp as nat, file_name@),
        id@.len() == 36,
{
    let mut source = user_id.to_owned();
    let time = decimal_text(timestamp);
    source.append(time.as_str());
    source.append(file_name);
    let bytes = source.as_str().as_bytes();
    let head = &bytes[0..16];
    let id = uuid_text(head);
    proof {
        lemma_uuid_shape(head@);
    }
    id
}

/// The record stored for a save request made at `timestamp`, with its id
/// and its place on disk: the request's fields, the user hashed with `salt`,
/// the id of [`file_id_for`] and the url of [`Document::set_url`] in the
/// request's room. The request's kind must be declared and the id source
/// long enough.
pub fn prepare_document(req: &SaveFilesRequest, timestamp: u128, salt: String) -> (doc: Document)
    requires
        1 <= req.doc_type <= 7,
        spec_id_source(req.user_id@, timestamp as nat, req.file_name@).len() >= 16,
    ensures
        doc.file_id@ == spec_file_id(req.user_id@, timestamp as nat, req.file_name@),
        doc.file_name@ == req.file_name@,
        doc.file_type == spec_doc_type_of(req.doc_type as int),
        doc.user_hash@ == spec_hash_string(req.user_id@, salt@),
        doc.file_url@ == spec_file_url(req.room_id@, doc.file_type, doc.file_id@, doc.file_name@),
        doc.room_id@ == req.room_id@,
{
    let fields = SaveFilesRequest {
        user_id: req.user_id.clone(),
        file_name: req.file_name.clone(),
        doc_type: req.doc_type,
        room_id: req.room_id.clone(),
        data: Vec::new(),
    };
    let mut doc = Document::from(fields, salt);
    doc.file_id = file_id_for(req.user_id.as_str(), timestamp, req.file_name.as_str());
    let _placed = doc.set_url(req.room_id.clone());
    doc
}

/// The answer to a completed save of file `file_id`.
pub fn save_files_reply(file_id: String) -> (reply: SaveFilesResponse)
    ensures
        reply.successful,
        reply.file_id@ == file_id@,
        reply.info_message@ == spec_save_message(file_id@),
{
    let mut info_message = "Save file with id: ".to_owned();
    info_message.append(file_id.as_str());
    SaveFilesResponse { successful: true, file_id, info_message }
}

/// The answer to a read of document `doc` whose stored bytes are `data`.
pub fn get_file_reply(doc: Document, data: Vec<u8>) -> (reply: GetFileResponse)
    ensures
        reply.data@ == data@,
        reply.file_id@ == doc.file_id@,
        reply.file_name@ == doc.file_name@,
{
    GetFileResponse { data, file_id: doc.file_id, file_name: doc.file_name }
}

/// The answer to a request to share a file: it always succeeds.
pub fn add_user_to_file_reply() -> (reply: AddUserToFileResponse)
    ensures
        reply.successful,
{
    AddUserToFileResponse { successful: true }
}

/// A UUID text has 36 characters: hyphens at 8, 13, 18 and 23, lower-case
/// hex digits elsewhere.
pub proof fn lemma_uuid_shape(b: Seq<u8>)
    requires
        b.len() == 16,
    ensures
        uuid_hyphenated(b).len() == 36,
        uuid_hyphenated(b)[8] == '-' && uuid_hyphenated(b)[13] == '-' && uuid_hyphenated(b)[18] == '-'
            && uuid_hyphenated(b)[23] == '-',
        forall|i: int|
            0 <= i < 36 && i != 8 && i != 13 && i != 18 && i != 23 ==> is_lower_hex_digit(
                #[trigger] uuid_hyphenated(b)[i],
            ),
{
    let p0 = hex_lower(b.subrange(0, 4));
    let p1 = hex_lower(b.subrange(4, 6));
    let p2 = hex_lower(b.subrange(6, 8));
    let p3 = hex_lower(b.subrange(8, 10));
    let p4 = hex_lower(b.subrange(10, 16));
    lemma_hex_lower_len(b.subrange(0, 4));
    lemma_hex_lower_len(b.subrange(4, 6));
    lemma_hex_lower_len(b.subrange(6, 8));
    lemma_hex_lower_len(b.subrange(8, 10));
    lemma_hex_lower_len(b.subrange(10, 16));
    lemma_hex_lower_digits(b.subrange(0, 4));
    lemma_hex_lower_digits(b.subrange(4, 6));
    lemma_hex_lower_digits(b.subrange(6, 8));
    lemma_hex_lower_digits(b.subrange(8, 10));
    lemma_hex_lower_digits(b.subrange(10, 16));
    let d = seq!['-'];
    let u = uuid_hyphenated(b);
    assert(u =~= p0 + d + p1 + d + p2 + d + p3 + d + p4);
    assert forall|i: int| 0 <= i < 36 && i != 8 && i != 13 && i != 18 && i != 23 implies is_lower_hex_digit(
        #[trigger] u[i],
    ) by {
        if i < 8 {
            assert(u[i] == p0[i]);
        } else if i < 13 {
            assert(u[i] == p1[i - 9]);
        } else if i < 18 {
            assert(u[i] == p2[i - 14]);
        } else if i < 23 {
            assert(u[i] == p3[i - 19]);
        } else {
            assert(u[i] == p4[i - 24]);
        }
    }
}

/// Every saved file's id is a UUID text: 36 characters, hyphens at 8, 13,
/// 18 and 23, lower-case hex digits elsewhere.
pub proof fn lemma_file_id_shape(user_id: Seq<char>, timestamp: nat, file_name: Seq<char>)
    requires
        spec_id_source(user_id, timestamp, file_name).len() >= 16,
    ensures
        spec_file_id(user_id, timestamp, file_name).len() == 36,
        spec_file_id(user_id, timestamp, file_name)[8] == '-',
        spec_file_id(user_id, timestamp, file_name)[13] == '-',
        spec_file_id(user_id, timestamp, file_name)[18] == '-',
        spec_file_id(user_id, timestamp, file_name)[23] == '-',
        forall|i: int|
            0 <= i < 36 && i != 8 && i != 13 && i != 18 && i != 23 ==> is_lower_hex_digit(
                #[trigger] spec_file_id(user_id, timestamp, file_name)[i],
            ),
{
    lemma_uuid_shape(spec_id_source(user_id, timestamp, file_name).subrange(0, 16));
}

/// The bytes an id is made from carry the full millisecond time: they are
/// the UTF-8 of the user id, then a run of decimal digits without a leading
/// zero that denotes `timestamp` exactly, then the file name.
pub proof fn lemma_id_source_time(user_id: Seq<char>, timestamp: nat, file_name: Seq<char>)
    ensures
        exists|digits: Seq<char>|
            {
                &&& digits.len() > 0
                &&& (forall|i: int| 0 <= i < digits.len() ==> is_decimal_digit(#[trigger] digits[i]))
                &&& (digits[0] == '0' ==> digits.len() == 1)
                &&& decimal_value(digits) == timestamp
                &&& spec_id_source(user_id, timestamp, file_name) == encode_utf8(user_id + digits + file_name)
            },
{
    lemma_decimal_denotes(timestamp);
    let digits = decimal(timestamp);
    assert(spec_id_source(user_id, timestamp, file_name) == encode_utf8(user_id + digits + file_name));
}

/// The room part of a room's directory and of a document's url is the whole
/// room id: the directory is `./data/` followed by exactly the room id, the
/// url begins with `data/`, the room id and a slash, and it ends with the
/// file id, a hyphen and the file name. Distinct rooms get distinct
/// directories.
pub proof fn lemma_room_paths(
    room_id: Seq<char>,
    other_room: Seq<char>,
    t: DocType,
    file_id: Seq<char>,
    file_name: Seq<char>,
)
    ensures
        spec_room_dir(room_id).len() == 7 + room_id.len(),
        spec_room_dir(room_id).subrange(0, 7) == "./data/"@,
        spec_room_dir(room_id).subrange(7, 7 + room_id.len() as int) == room_id,
        spec_room_dir(room_id) == spec_room_dir(other_room) ==> room_id == other_room,
        spec_file_url(room_id, t, file_id, file_name).subrange(0, 5) == "data/"@,
        spec_file_url(room_id, t, file_id, file_name).subrange(5, 5 + room_id.len() as int) == room_id,
        spec_file_url(room_id, t, file_id, file_name)[5 + room_id.len() as int] == '/',
        ({
            let url = spec_file_url(room_id, t, file_id, file_name);
            let tail = file_id + "-"@ + file_name;
            url.subrange(url.len() - tail.len(), url.len() as int) == tail
        }),
{
    reveal_strlit("./data/");
    reveal_strlit("data/");
    reveal_strlit("/");
    reveal_strlit("-");
    let d = spec_room_dir(room_id);
    assert(d.subrange(0, 7) =~= "./data/"@);
    assert(d.subrange(7, 7 + room_id.len() as int) =~= room_id);
    if d == spec_room_dir(other_room) {
        assert(other_room =~= spec_room_dir(other_room).subrange(7, 7 + other_room.len() as int));
    }
    let url = spec_file_url(room_id, t, file_id, file_name);
    let tail = file_id + "-"@ + file_name;
    let head = "data/"@ + room_id + "/"@ + spec_folder(t) + "/"@;
    assert(url =~= head + tail);
    assert(url.subrange(0, 5) =~= "data/"@);
    assert(url.subrange(5, 5 + room_id.len() as int) =~= room_id);
    assert(url[5 + room_id.len() as int] == "/"@[0]);
    assert(url.subrange(url.len() - tail.len(), url.len() as int) =~= tail);
}

/// A saved file lands inside the directories created for it: its url, taken
/// from the working directory, is the kind's directory in the room, a slash,
/// then `{file_id}-{file_name}`; and the kind's directory lies in the room's.
pub proof fn lemma_file_in_created_dirs(room_id: Seq<char>, t: DocType, file_id: Seq<char>, file_name: Seq<char>)
    ensures
        "./"@ + spec_file_url(room_id, t, file_id, file_name) == spec_type_dir(room_id, t) + "/"@ + file_id
            + "-"@ + file_name,
        spec_type_dir(room_id, t) == spec_room_dir(room_id) + "/"@ + spec_folder(t),
{
    reveal_strlit("./");
    reveal_strlit("./data/");
    reveal_strlit("data/");
    assert("./"@ + spec_file_url(room_id, t, file_id, file_name) =~= spec_type_dir(room_id, t) + "/"@
        + file_id + "-"@ + file_name);
}

} // verus!
