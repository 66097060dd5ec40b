//! The entity store: what becomes of the collections of characters and
//! personas when a record is put in, looked up or removed, and what is said
//! of a file that could not be read or written.

use crate::failure::{fails_with, Failure, FailureKind, FailureKindText, FailureText};
use crate::history::{records_of_character, remove_character_history};
use crate::records::{
    found, holds, last_image, position, remove_records, text_of, upsert, upserted, without, Record,
};
use crate::text::{join2, join3, same_text, trim_start, trimmed_start};
use crate::types::{Character, Persona};
use vstd::prelude::*;
use vstd::string::*;

verus! {

/// What came of reading a file and decoding its text.
#[derive(Debug)]
pub enum FileContent<T> {
    /// The file could not be read; the text says why.
    Unreadable(String),
    /// The file was read and its text is no encoding of the expected shape; the
    /// text says why.
    Malformed(String),
    /// The file was read and decoded.
    Parsed(T),
}

/// The file that holds the collection of characters.
pub const CHARACTERS_FILE_PATH: &'static str = "data/characters.json";

/// The file that holds the collection of personas.
pub const PERSONAS_FILE_PATH: &'static str = "data/personas.json";

/// The directory that holds the images of characters.
pub const ASSETS_PATH: &'static str = "../tauri-ui/public/assets/characters";

/// The directory that holds the images of personas.
pub const PERSONA_ASSETS_PATH: &'static str = "../tauri-ui/public/assets/personas";

/// The directory that image references are relative to.
pub const IMAGE_ROOT: &'static str = "src-tauri";

/// The image reference that stands for "no image of its own".
pub const PLACEHOLDER_IMAGE: &'static str = "placeholder.png";

/// What putting `item` into a collection gives, from what came of reading
/// the collection: the failure of the reading, and then nothing is to be
/// written, else the collection with the item in place of the first record
/// with its identifier, or at the end if no record has it.
pub open spec fn update_of<T: Record>(file: FileContent<Vec<T>>, item: T, r: Result<Vec<T>, Failure>) -> bool {
    match file {
        FileContent::Unreadable(why) => fails_with(
            r,
            FailureKindText::ReadFailure,
            "Erreur lecture fichier: "@ + why@,
        ),
        FileContent::Malformed(why) => fails_with(
            r,
            FailureKindText::DecodeFailure,
            "Erreur parsing JSON: "@ + why@,
        ),
        FileContent::Parsed(items) => r matches Ok(all) && all@ == upserted(items@, item),
    }
}

fn update_file<T: Record>(file: FileContent<Vec<T>>, item: T) -> (r: Result<Vec<T>, Failure>)
    ensures
        update_of(file, item, r),
{
    match read_file(file) {
        Ok(items) => {
            let mut all = items;
            upsert(&mut all, item);
            Ok(all)
        },
        Err(failure) => Err(failure),
    }
}

/// Puts a character into the collection that was read, and gives the
/// collection to persist. Fails as the reading did: there is then nothing to
/// persist.
pub fn update_character(file: FileContent<Vec<Character>>, updated_char: Character) -> (r: Result<
    Vec<Character>,
    Failure,
>)
    ensures
        update_of(file, updated_char, r),
{
    update_file(file, updated_char)
}

/// Puts a persona into the collection that was read, and gives the collection
/// to persist. Fails as the reading did: there is then nothing to persist.
pub fn update_persona(file: FileContent<Vec<Persona>>, updated_persona: Persona) -> (r: Result<
    Vec<Persona>,
    Failure,
>)
    ensures
        update_of(file, updated_persona, r),
{
    update_file(file, updated_persona)
}

/// Says how the saving of a persona ended: acknowledges it where the
/// collection was persisted, else hands the failure on.
pub fn save_persona(persisted: Result<(), Failure>) -> (r: Result<String, Failure>)
    ensures
        match persisted {
            Ok(_) => r matches Ok(text) && text@ == "Persona sauvegardée"@,
            Err(failure) => r == Err::<String, Failure>(failure),
        },
{
    match persisted {
        Ok(_) => Ok("Persona sauvegardée".to_string()),
        Err(failure) => Err(failure),
    }
}

/// What the removal of a record leaves to do: the collection to persist, and
/// the files to remove with the record.
#[derive(Debug)]
pub struct Removal<T> {
    /// The collection without the record.
    pub remaining: Vec<T>,
    /// The record's image file, relative to the image root, unless the record
    /// referred to the placeholder.
    pub image_file: Option<String>,
    /// The names of the files of the history directory that go with the record.
    pub history_files: Vec<String>,
}

/// The image file to remove with the records of `items` that have the
/// identifier `id`: that of the last of them.
pub open spec fn removed_image_file<T: Record>(items: Seq<T>, id: Seq<char>) -> Option<Seq<char>> {
    match last_image(items, id) {
        Some(img) => image_to_remove(img),
        None => None,
    }
}

/// What the removal of the records with the identifier `id` gives, from what
/// came of reading the collection: the failure of the reading, `NotFound` with
/// the message `not_found` where no record has the identifier, else the
/// collection without those records, their image file, and `history` as the
/// files of the history directory to remove.
pub open spec fn removal_of<T: Record>(
    file: FileContent<Vec<T>>,
    id: Seq<char>,
    not_found: Seq<char>,
    history: Seq<String>,
    r: Result<Removal<T>, Failure>,
) -> bool {
    match file {
        FileContent::Unreadable(why) => fails_with(r, FailureKindText::ReadFailure, why@),
        FileContent::Malformed(why) => fails_with(r, FailureKindText::DecodeFailure, why@),
        FileContent::Parsed(items) => if holds(items@, id) {
            &&& r matches Ok(removal)
            &&& removal.remaining@ == without(items@, id)
            &&& text_of(removal.image_file) == removed_image_file(items@, id)
            &&& removal.history_files@ == history
        } else {
            fails_with(r, FailureKindText::NotFound { id }, not_found)
        },
    }
}

/// Removes the character `id` from the collection that was read, and names
/// what goes with it: its image file, unless it is the placeholder, and, among
/// the files of the history directory, the records of its conversations. Fails
/// as the reading did, or with `NotFound` if no character has the identifier.
pub fn delete_character_from_file(
    file: FileContent<Vec<Character>>,
    id: &str,
    history_files: &Vec<String>,
) -> (r: Result<Removal<Character>, Failure>)
    ensures
        removal_of(file, id@, "Personnage non trouvé"@, records_of_character(history_files@, id@), r),
{
    match file {
        FileContent::Unreadable(why) => Err(Failure { kind: FailureKind::ReadFailure, message: why }),
        FileContent::Malformed(why) => Err(Failure { kind: FailureKind::DecodeFailure, message: why }),
        FileContent::Parsed(characters) => {
            let wanted = id.to_string();
            let mut remaining = characters;
            if position(&remaining, &wanted).is_none() {
                return Err(
                    Failure {
                        kind: FailureKind::NotFound { id: wanted },
                        message: "Personnage non trouvé".to_string(),
                    },
                );
            }
            let image_file = match remove_records(&mut remaining, &wanted) {
                Some(img) => remove_character_image(img.as_str()),
                None => None,
            };
            let history_files = remove_character_history(id, history_files);
            Ok(Removal { remaining, image_file, history_files })
        },
    }
}

/// Removes the persona `id` from the collection that was read, and names its
/// image file, unless it is the placeholder. No record of a conversation goes
/// with a persona. Fails as the reading did, or with `NotFound` if no persona
/// has the identifier.
pub fn delete_persona_from_file(file: FileContent<Vec<Persona>>, id: &str) -> (r: Result<
    Removal<Persona>,
    Failure,
>)
    ensures
        removal_of(file, id@, "Persona non trouvé"@, Seq::<String>::empty(), r),
{
    match file {
        FileContent::Unreadable(why) => Err(Failure { kind: FailureKind::ReadFailure, message: why }),
        FileContent::Malformed(why) => Err(Failure { kind: FailureKind::DecodeFailure, message: why }),
        FileContent::Parsed(personas) => {
            let wanted = id.to_string();
            let mut remaining = personas;
            if position(&remaining, &wanted).is_none() {
                return Err(
                    Failure {
                        kind: FailureKind::NotFound { id: wanted },
                        message: "Persona non trouvé".to_string(),
                    },
                );
            }
            let image_file = match remove_records(&mut remaining, &wanted) {
                Some(img) => remove_persona_image(img.as_str()),
                None => None,
            };
            Ok(Removal { remaining, image_file, history_files: Vec::new() })
        },
    }
}

/// What a lookup of `id` gives, from what came of reading the collection:
/// the failure of the reading, else the first record with the identifier, or
/// `NotFound` with a message made of `before`, the identifier and `after`.
pub open spec fn lookup_of<T: Record>(
    file: FileContent<Vec<T>>,
    id: Seq<char>,
    before: Seq<char>,
    after: Seq<char>,
    r: Result<T, Failure>,
) -> bool {
    match file {
        FileContent::Unreadable(why) => fails_with(
            r,
            FailureKindText::ReadFailure,
            "Erreur lecture fichier: "@ + why@,
        ),
        FileContent::Malformed(why) => fails_with(
            r,
            FailureKindText::DecodeFailure,
            "Erreur parsing JSON: "@ + why@,
        ),
        FileContent::Parsed(items) => match found(items@, id) {
            Some(item) => r == Ok::<T, Failure>(item),
            None => fails_with(r, FailureKindText::NotFound { id }, before + id + after),
        },
    }
}

fn load_by_id<T: Record>(file: FileContent<Vec<T>>, id: &str, before: &str, after: &str) -> (r: Result<
    T,
    Failure,
>)
    ensures
        lookup_of(file, id@, before@, after@, r),
{
    match read_file(file) {
        Err(failure) => Err(failure),
        Ok(items) => {
            let wanted = id.to_string();
            let mut items = items;
            match position(&items, &wanted) {
                Some(at) => Ok(items.remove(at)),
                None => Err(
                    Failure {
                        kind: FailureKind::NotFound { id: wanted },
                        message: join3(before, id, after),
                    },
                ),
            }
        },
    }
}

/// Finds the character `id` in the collection that was read: the first one
/// with that identifier. Fails as the reading did, or with `NotFound`.
pub fn load_character_by_id(file: FileContent<Vec<Character>>, id: &str) -> (r: Result<Character, Failure>)
    ensures
        lookup_of(file, id@, "Personnage avec l'ID '"@, "' non trouvé"@, r),
{
    load_by_id(file, id, "Personnage avec l'ID '", "' non trouvé")
}

/// Finds the persona `id` in the collection that was read: the first one with
/// that identifier. Fails as the reading did, or with `NotFound`.
pub fn load_persona_by_id(file: FileContent<Vec<Persona>>, id: &str) -> (r: Result<Persona, Failure>)
    ensures
        lookup_of(file, id@, "Persona avec l'ID '"@, "' non trouvé"@, r),
{
    load_by_id(file, id, "Persona avec l'ID '", "' non trouvé")
}

/// The file to remove with a record that referred to the image `img`, relative
/// to the image root: none for the placeholder, else the reference without the
/// slashes that it starts with.
pub open spec fn image_to_remove(img: Seq<char>) -> Option<Seq<char>> {
    if img == "placeholder.png"@ {
        None
    } else {
        Some(trimmed_start(img, '/'))
    }
}

fn image_file(img_path: &str) -> (r: Option<String>)
    ensures
        text_of(r) == image_to_remove(img_path@),
{
    if same_text(img_path, PLACEHOLDER_IMAGE) {
        None
    } else {
        Some(trim_start(img_path, '/'))
    }
}

/// Names the image file to remove with a character, relative to the image
/// root, if there is one to remove.
pub fn remove_character_image(img_path: &str) -> (r: Option<String>)
    ensures
        text_of(r) == image_to_remove(img_path@),
{
    image_file(img_path)
}

/// Names the image file to remove with a persona, relative to the image root,
/// if there is one to remove.
pub fn remove_persona_image(img_path: &str) -> (r: Option<String>)
    ensures
        text_of(r) == image_to_remove(img_path@),
{
    image_file(img_path)
}

/// What reading a collection gives, from what came of reading and decoding its
/// file.
pub open spec fn reading_of<T>(file: FileContent<Vec<T>>, r: Result<Vec<T>, Failure>) -> bool {
    match file {
        FileContent::Unreadable(why) => fails_with(
            r,
            FailureKindText::ReadFailure,
            "Erreur lecture fichier: "@ + why@,
        ),
        FileContent::Malformed(why) => fails_with(
            r,
            FailureKindText::DecodeFailure,
            "Erreur parsing JSON: "@ + why@,
        ),
        FileContent::Parsed(items) => r == Ok::<Vec<T>, Failure>(items),
    }
}

fn read_file<T>(file: FileContent<Vec<T>>) -> (r: Result<Vec<T>, Failure>)
    ensures
        reading_of(file, r),
{
    match file {
        FileContent::Unreadable(why) => Err(
            Failure {
                kind: FailureKind::ReadFailure,
                message: join2("Erreur lecture fichier: ", why.as_str()),
            },
        ),
        FileContent::Malformed(why) => Err(
            Failure {
                kind: FailureKind::DecodeFailure,
                message: join2("Erreur parsing JSON: ", why.as_str()),
            },
        ),
        FileContent::Parsed(items) => Ok(items),
    }
}

/// Gives the collection of characters, or says why it could not be had.
pub fn read_characters_file(file: FileContent<Vec<Character>>) -> (r: Result<Vec<Character>, Failure>)
    ensures
        reading_of(file, r),
{
    read_file(file)
}

/// Gives the collection of personas, or says why it could not be had.
pub fn read_personas_file(file: FileContent<Vec<Persona>>) -> (r: Result<Vec<Persona>, Failure>)
    ensures
        reading_of(file, r),
{
    read_file(file)
}

/// How the replacement of a collection's file ended.
#[derive(Debug)]
pub enum WriteOutcome {
    /// The collection could not be encoded, and nothing was written; the text
    /// says why.
    NotEncoded(String),
    /// The file could not be written; the text says why.
    NotWritten(String),
    /// The file holds the new collection.
    Written,
}

/// What persisting a collection gives, from how the replacement of its file
/// ended.
pub open spec fn writing_of(outcome: WriteOutcome, r: Result<(), Failure>) -> bool {
    match outcome {
        WriteOutcome::NotEncoded(why) => fails_with(
            r,
            FailureKindText::WriteFailure,
            "Erreur sérialisation JSON: "@ + why@,
        ),
        WriteOutcome::NotWritten(why) => fails_with(
            r,
            FailureKindText::WriteFailure,
            "Erreur écriture fichier: "@ + why@,
        ),
        WriteOutcome::Written => r is Ok,
    }
}

fn write_file(outcome: WriteOutcome) -> (r: Result<(), Failure>)
    ensures
        writing_of(outcome, r),
{
    match outcome {
        WriteOutcome::NotEncoded(why) => Err(
            Failure {
                kind: FailureKind::WriteFailure,
                message: join2("Erreur sérialisation JSON: ", why.as_str()),
            },
        ),
        WriteOutcome::NotWritten(why) => Err(
            Failure {
                kind: FailureKind::WriteFailure,
                message: join2("Erreur écriture fichier: ", why.as_str()),
            },
        ),
        WriteOutcome::Written => Ok(()),
    }
}

/// Says how persisting the collection of characters ended.
pub fn write_characters_file(outcome: WriteOutcome) -> (r: Result<(), Failure>)
    ensures
        writing_of(outcome, r),
{
    write_file(outcome)
}

/// Says how persisting the collection of personas ended.
pub fn write_personas_file(outcome: WriteOutcome) -> (r: Result<(), Failure>)
    ensures
        writing_of(outcome, r),
{
    write_file(outcome)
}

/// What to do with an image that is to be stored.
#[derive(Debug)]
pub enum AssetPlan {
    /// Write the file into the directory, over any file of that name.
    Write,
    /// Create the directory, then write the file into it.
    CreateDirectoryThenWrite,
    /// Write nothing and fail.
    Refuse(Failure),
}

/// Plans the storing of a character's image: it is written where the
/// directory of character images is there, and refused where it is missing.
pub fn copy_image_file(directory_exists: bool) -> (r: AssetPlan)
    ensures
        directory_exists ==> r is Write,
        !directory_exists ==> (r matches AssetPlan::Refuse(failure) && failure@ == (FailureText {
            kind: FailureKindText::DirectoryMissing,
            message: "Le dossier assets/characters n'existe pas"@,
        })),
{
    if directory_exists {
        AssetPlan::Write
    } else {
        AssetPlan::Refuse(
            Failure {
                kind: FailureKind::DirectoryMissing,
                message: "Le dossier assets/characters n'existe pas".to_string(),
            },
        )
    }
}

/// Plans the storing of a persona's image: it is written in any case, after
/// the directory of persona images was created where it is missing.
pub fn copy_persona_image_file(directory_exists: bool) -> (r: AssetPlan)
    ensures
        directory_exists ==> r is Write,
        !directory_exists ==> r is CreateDirectoryThenWrite,
{
    if directory_exists {
        AssetPlan::Write
    } else {
        AssetPlan::CreateDirectoryThenWrite
    }
}

/// The failure to report where an image could not be written.
pub fn image_not_written(why: &str) -> (r: Failure)
    ensures
        r@ == (FailureText { kind: FailureKindText::WriteFailure, message: "Erreur écriture fichier : "@ + why@ }),
{
    Failure { kind: FailureKind::WriteFailure, message: join2("Erreur écriture fichier : ", why) }
}

/// The failure to report where the directory for an image could not be created.
pub fn directory_not_created(why: &str) -> (r: Failure)
    ensures
        r@ == (FailureText { kind: FailureKindText::WriteFailure, message: "Erreur création dossier: "@ + why@ }),
{
    Failure { kind: FailureKind::WriteFailure, message: join2("Erreur création dossier: ", why) }
}

} // verus!
