//! Conversation histories: how a record is named, when it was last used, and
//! the list of recent chats that is derived from the records.

use crate::failure::{fails_with, Failure, FailureKind, FailureKindText};
use crate::records::{found, position};
use crate::store::FileContent;
use crate::text::{ends_with, find_char, first_index, join3, lemma_first_index, slice, strip_suffix};
use crate::types::{Character, ChatMessage, RecentChat, RecentChatView};
use vstd::prelude::*;
use vstd::string::*;

verus! {

/// The directory that holds one record per conversation.
pub const HISTORY_DIR: &'static str = "data/history";

/// The character that parts the two identifiers in a record's name.
pub const KEY_DELIMITER: char = '_';

/// The stem of a record's file name: what stands before `.json`, if the name
/// ends so and something stands before it.
pub open spec fn record_stem(name: Seq<char>) -> Option<Seq<char>> {
    if ends_with(name, ".json"@) && name.len() > ".json"@.len() {
        Some(name.subrange(0, name.len() - ".json"@.len()))
    } else {
        None
    }
}

/// The key of the conversation that a file of the given name records: the
/// character's identifier is what stands before the first delimiter of the
/// stem, the persona's is all that follows it.
pub open spec fn conversation_key(name: Seq<char>) -> Option<(Seq<char>, Seq<char>)> {
    match record_stem(name) {
        Some(stem) => if stem.contains(KEY_DELIMITER) {
            let at = first_index(stem, KEY_DELIMITER);
            Some((stem.subrange(0, at), stem.subrange(at + 1, stem.len() as int)))
        } else {
            None
        },
        None => None,
    }
}

/// The name of the file that records the conversation between a character
/// and a persona.
pub open spec fn record_name(character_id: Seq<char>, persona_id: Seq<char>) -> Seq<char> {
    character_id + "_"@ + persona_id + ".json"@
}

/// The path of the record of the conversation between a character and a persona.
pub open spec fn record_path(character_id: Seq<char>, persona_id: Seq<char>) -> Seq<char> {
    "data/history/"@ + record_name(character_id, persona_id)
}

/// The name of a conversation's record gives its key back, whatever the
/// persona's identifier holds, as long as the character's identifier holds no
/// delimiter.
pub proof fn lemma_record_name_gives_key(character_id: Seq<char>, persona_id: Seq<char>)
    requires
        !character_id.contains(KEY_DELIMITER),
    ensures
        conversation_key(record_name(character_id, persona_id)) == Some((character_id, persona_id)),
{
    reveal_strlit(".json");
    reveal_strlit("_");
    let name = record_name(character_id, persona_id);
    let stem = character_id + "_"@ + persona_id;
    let at = character_id.len() as int;
    assert(name.subrange(name.len() - 5, name.len() as int) == ".json"@);
    assert(name.subrange(0, name.len() - 5) == stem);
    assert(stem[at] == KEY_DELIMITER);
    assert forall|j: int| 0 <= j < at implies stem[j] != KEY_DELIMITER by {
        assert(stem[j] == character_id[j]);
    }
    crate::text::lemma_first_index_is(stem, KEY_DELIMITER, at);
    assert(stem.subrange(0, at) == character_id);
    assert(stem.subrange(at + 1, stem.len() as int) == persona_id);
}

/// Reads the key of a conversation off the name of its record.
pub fn parse_history_key(file_name: &str) -> (r: Option<(String, String)>)
    ensures
        r is Some == conversation_key(file_name@) is Some,
        r matches Some((character_id, persona_id)) ==> conversation_key(file_name@) == Some(
            (character_id@, persona_id@),
        ),
{
    match strip_suffix(file_name, ".json") {
        None => None,
        Some(stem) => {
            let n = stem.as_str().unicode_len();
            proof {
                assert(stem@ + ".json"@ == file_name@);
                assert(stem@ == file_name@.subrange(0, file_name@.len() - ".json"@.len()));
            }
            if n == 0 {
                return None;
            }
            match find_char(stem.as_str(), KEY_DELIMITER) {
                None => None,
                Some(at) => {
                    proof {
                        lemma_first_index(stem@, KEY_DELIMITER);
                    }
                    let character_id = slice(stem.as_str(), 0, at);
                    let persona_id = slice(stem.as_str(), at + 1, n);
                    Some((character_id, persona_id))
                },
            }
        },
    }
}

/// The path of the record of the conversation between a character and a persona.
pub fn history_file_name(character_id: &str, persona_id: &str) -> (r: String)
    ensures
        r@ == record_path(character_id@, persona_id@),
{
    let mut r = join3(HISTORY_DIR, "/", character_id);
    r.append("_");
    r.append(persona_id);
    r.append(".json");
    proof {
        reveal_strlit("data/history");
        reveal_strlit("data/history/");
        reveal_strlit("/");
        assert("data/history"@ + "/"@ == "data/history/"@);
        assert(r@ == "data/history/"@ + record_name(character_id@, persona_id@));
    }
    r
}

/// What `chrono::DateTime::parse_from_rfc3339` makes of a text: nothing where
/// it rejects the text, else the instant it read, as the whole seconds since
/// the epoch that `timestamp` gives and the milliseconds past them that
/// `timestamp_subsec_millis` gives.
pub uninterp spec fn rfc3339_instant(text: Seq<char>) -> Option<(i64, u32)>;

/// Parses an RFC 3339 date and time with `chrono::DateTime::parse_from_rfc3339`
/// and reads the instant off the result with `timestamp` and
/// `timestamp_subsec_millis`. Nothing is proved of it: the contract only gives
/// the outcome its name.
#[verifier::external_body]
fn parse_rfc3339(text: &str) -> (r: Option<(i64, u32)>)
    ensures
        r == rfc3339_instant(text@),
{
    match chrono::DateTime::parse_from_rfc3339(text) {
        Ok(at) => Some((at.timestamp(), at.timestamp_subsec_millis())),
        Err(_) => None,
    }
}

/// The milliseconds since the epoch of an instant given in seconds and
/// milliseconds past them, as an unsigned number of 64 bits: an instant
/// before the epoch wraps around.
pub open spec fn epoch_millis(seconds: i64, subsec_millis: u32) -> u64 {
    ((seconds * 1000 + subsec_millis) % 0x1_0000_0000_0000_0000) as u64
}

/// When a conversation was last used, from what the parser made of the last
/// message's time stamp: zero where there is no stamp or it was rejected.
pub open spec fn last_used_from(stamp: Option<Option<(i64, u32)>>) -> u64 {
    match stamp {
        Some(Some((seconds, subsec_millis))) => epoch_millis(seconds, subsec_millis),
        _ => 0,
    }
}

/// When a conversation with the given last time stamp was last used.
pub open spec fn last_used_of(stamp: Option<Seq<char>>) -> u64 {
    last_used_from(
        match stamp {
            Some(text) => Some(rfc3339_instant(text)),
            None => None,
        },
    )
}

/// Computes the milliseconds since the epoch of an instant.
pub fn millis_since_epoch(seconds: i64, subsec_millis: u32) -> (r: u64)
    ensures
        r == epoch_millis(seconds, subsec_millis),
{
    let modulus: i128 = 0x1_0000_0000_0000_0000;
    let total: i128 = (seconds as i128) * 1000 + (subsec_millis as i128);
    let lifted: i128 = total + 1000 * modulus;
    let low: i128 = lifted % modulus;
    proof {
        vstd::arithmetic::div_mod::lemma_mod_multiples_vanish(1000, total as int, modulus as int);
    }
    low as u64
}

/// Computes when a conversation was last used from the outcome of parsing its
/// last time stamp, if it has one.
pub fn last_used(stamp: Option<Option<(i64, u32)>>) -> (r: u64)
    ensures
        r == last_used_from(stamp),
{
    match stamp {
        Some(Some((seconds, subsec_millis))) => millis_since_epoch(seconds, subsec_millis),
        _ => 0,
    }
}

/// Computes when a conversation that ends with `message` was last used.
pub fn message_last_used(message: &ChatMessage) -> (r: u64)
    ensures
        r == last_used_of(message@.timestamp),
{
    match &message.timestamp {
        Some(text) => last_used(Some(parse_rfc3339(text.as_str()))),
        None => last_used(None),
    }
}

/// A file of the history directory as a listing found it: its name, and its
/// messages unless it could not be read or decoded.
#[derive(Debug)]
pub struct HistoryFile {
    pub file_name: String,
    pub messages: Option<Vec<ChatMessage>>,
}

/// The name and the image under which a character is shown: its own if the
/// collection could be read and holds it, else its identifier and no image.
pub open spec fn shown_as(characters: Option<Seq<Character>>, id: Seq<char>) -> (Seq<char>, Seq<char>) {
    match characters {
        Some(all) => match found(all, id) {
            Some(character) => (character.name@, character.img@),
            None => (id, Seq::empty()),
        },
        None => (id, Seq::empty()),
    }
}

/// The recent chat that a file of the history directory stands for: none if
/// its name gives no key, if it could not be read or decoded, or if it holds
/// no message.
pub open spec fn recent_chat_of(file: HistoryFile, characters: Option<Seq<Character>>) -> Option<RecentChatView> {
    match (conversation_key(file.file_name@), file.messages) {
        (Some((character_id, persona_id)), Some(messages)) => if messages@.len() > 0 {
            let shown = shown_as(characters, character_id);
            Some(
                RecentChatView {
                    character_id,
                    persona_id,
                    name: shown.0,
                    img: Some(shown.1),
                    last_used: last_used_of(messages@.last()@.timestamp),
                },
            )
        } else {
            None
        },
        _ => None,
    }
}

/// The recent chats that the files of the history directory stand for, in the
/// order of the files.
pub open spec fn recent_chats_of(files: Seq<HistoryFile>, characters: Option<Seq<Character>>) -> Seq<RecentChatView> {
    files.filter_map(|file: HistoryFile| recent_chat_of(file, characters))
}

/// The collection behind an optional reference to it.
pub open spec fn records_of(characters: Option<&Vec<Character>>) -> Option<Seq<Character>> {
    match characters {
        Some(all) => Some(all@),
        None => None,
    }
}

/// The views of the chats of a list.
pub open spec fn chat_views(chats: Seq<RecentChat>) -> Seq<RecentChatView> {
    chats.map_values(|chat: RecentChat| chat@)
}

/// Derives the recent chat that one file stands for.
pub fn recent_chat(file: &HistoryFile, characters: Option<&Vec<Character>>) -> (r: Option<RecentChat>)
    ensures
        r is Some == recent_chat_of(*file, records_of(characters)) is Some,
        r matches Some(chat) ==> recent_chat_of(*file, records_of(characters)) == Some(chat@),
{
    let key = parse_history_key(file.file_name.as_str());
    match (key, &file.messages) {
        (Some((character_id, persona_id)), Some(messages)) => {
            if messages.len() == 0 {
                return None;
            }
            let last_used = message_last_used(&messages[messages.len() - 1]);
            let mut name = character_id.clone();
            let mut img = String::new();
            match characters {
                Some(all) => {
                    match position(all, &character_id) {
                        Some(at) => {
                            name = all[at].name.clone();
                            img = all[at].img.clone();
                        },
                        None => {},
                    }
                },
                None => {},
            }
            Some(RecentChat { character_id, persona_id, name, img: Some(img), last_used })
        },
        _ => None,
    }
}

/// Lists the recent chats: one for each file of the history directory whose
/// name gives a key and which holds at least one message, in the order of the
/// files. It never fails.
pub fn load_recent_chats(files: &Vec<HistoryFile>, characters: Option<&Vec<Character>>) -> (r: Result<
    Vec<RecentChat>,
    Failure,
>)
    ensures
        r matches Ok(chats) && chat_views(chats@) == recent_chats_of(files@, records_of(characters)),
{
    let ghost derive = |file: HistoryFile| recent_chat_of(file, records_of(characters));
    let mut chats: Vec<RecentChat> = Vec::new();
    let mut i: usize = 0;
    assert(files@.take(0).filter_map(derive) == Seq::<RecentChatView>::empty());
    while i < files.len()
        invariant
            i <= files.len(),
            derive == |file: HistoryFile| recent_chat_of(file, records_of(characters)),
            chat_views(chats@) == files@.take(i as int).filter_map(derive),
        decreases files.len() - i,
    {
        proof {
            files@.lemma_filter_map_take_succ(derive, i as int);
        }
        let ghost before = chats@;
        match recent_chat(&files[i], characters) {
            Some(chat) => {
                chats.push(chat);
                assert(chat_views(chats@) == chat_views(before) + seq![chat@]);
            },
            None => {},
        }
        i += 1;
    }
    assert(files@.take(i as int) == files@);
    Ok(chats)
}

/// The names, among `file_names`, of the records of conversations with the
/// character `character_id`.
pub open spec fn records_of_character(file_names: Seq<String>, character_id: Seq<char>) -> Seq<String> {
    file_names.filter(|name: String| is_record_of(name@, character_id))
}

/// Whether a file of the given name records a conversation with the character.
pub open spec fn is_record_of(name: Seq<char>, character_id: Seq<char>) -> bool {
    conversation_key(name) matches Some(key) && key.0 == character_id
}

/// Picks, among the names of the files of the history directory, the records
/// to remove with a character: those whose key names the character.
pub fn remove_character_history(character_id: &str, file_names: &Vec<String>) -> (r: Vec<String>)
    ensures
        r@ == records_of_character(file_names@, character_id@),
{
    let wanted = character_id.to_string();
    let ghost picked = |name: String| is_record_of(name@, character_id@);
    let mut r: Vec<String> = Vec::new();
    let mut i: usize = 0;
    proof {
        reveal(Seq::filter);
        assert(file_names@.take(0).filter(picked) == Seq::<String>::empty());
    }
    while i < file_names.len()
        invariant
            i <= file_names.len(),
            wanted@ == character_id@,
            picked == |name: String| is_record_of(name@, character_id@),
            r@ == file_names@.take(i as int).filter(picked),
        decreases file_names.len() - i,
    {
        proof {
            assert(file_names@.take(i + 1) == file_names@.take(i as int).push(file_names@[i as int]));
            file_names@.take(i as int).lemma_filter_push(file_names@[i as int], picked);
        }
        let is_record = match parse_history_key(file_names[i].as_str()) {
            Some((owner, _)) => owner == wanted,
            None => false,
        };
        if is_record {
            r.push(file_names[i].clone());
        }
        i += 1;
    }
    assert(file_names@.take(i as int) == file_names@);
    r
}

/// Gives the messages of a conversation from what a look at its record found:
/// an empty conversation where there is no record, and a failure where the
/// record could not be read or decoded.
pub fn load_chat_history(record: Option<FileContent<Vec<ChatMessage>>>) -> (r: Result<Vec<ChatMessage>, Failure>)
    ensures
        match record {
            None => r matches Ok(messages) && messages@ == Seq::<ChatMessage>::empty(),
            Some(FileContent::Parsed(found)) => r == Ok::<Vec<ChatMessage>, Failure>(found),
            Some(FileContent::Unreadable(why)) => fails_with(r, FailureKindText::ReadFailure, why@),
            Some(FileContent::Malformed(why)) => fails_with(r, FailureKindText::DecodeFailure, why@),
        },
{
    match record {
        None => Ok(Vec::new()),
        Some(FileContent::Parsed(found)) => Ok(found),
        Some(FileContent::Unreadable(why)) => Err(Failure { kind: FailureKind::ReadFailure, message: why }),
        Some(FileContent::Malformed(why)) => Err(Failure { kind: FailureKind::DecodeFailure, message: why }),
    }
}

/// Says how the removal of a conversation's record ended, from what was done:
/// nothing where there was no record, else the outcome of removing the file.
pub fn delete_chat_history(removal: Option<Result<(), String>>) -> (r: Result<(), Failure>)
    ensures
        match removal {
            None => r is Ok,
            Some(Ok(_)) => r is Ok,
            Some(Err(why)) => fails_with(r, FailureKindText::WriteFailure, why@),
        },
{
    match removal {
        None => Ok(()),
        Some(Ok(_)) => Ok(()),
        Some(Err(why)) => Err(Failure { kind: FailureKind::WriteFailure, message: why }),
    }
}

} // verus!
