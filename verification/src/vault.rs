//! Records and the envelopes that hold them at rest.
//!
//! A record is written as a flat JSON object whose `type` member names the
//! variant. An envelope holds the sealed text of that object and the time
//! of sealing; its JSON text is what a vault entry stores.

use vstd::prelude::*;
use crate::json::{
    field_value, fields_map, fields_view, json_object, json_text, lemma_field_value,
    lemma_field_value_push, map_text,
    map_unsigned, text_field, JsonField, JsonFieldView, JsonValue, JsonValueView,
};
use crate::json::{parse_object, render_object, unsigned_field};
use crate::cloud::client::{
    client_error_text, parsed_reply, CloudClientErrorView, Delivery, RemoteSession,
};
use crate::cloud::types::{CloudResponse, VaultEntry};
use crate::text::same_text;
use crate::security::encryption::{
    decrypt_data, encrypt_data, encrypt_with_nonce, opened_text, sealable, sealed_text,
    DecodeError, EncodeError, NONCE_LEN,
};

verus! {

/// A cleartext record: one of three kinds, each made of text fields.
#[derive(Clone)]
pub enum VaultItem {
    Password { name: String, website: String, email: String, username: String, password: String },
    CreditCard { name: String, number: String, expiration_date: String, cvv: String },
    SecureNote { title: String, note: String },
}

/// A record as mathematics.
pub enum VaultItemView {
    Password {
        name: Seq<char>,
        website: Seq<char>,
        email: Seq<char>,
        username: Seq<char>,
        password: Seq<char>,
    },
    CreditCard { name: Seq<char>, number: Seq<char>, expiration_date: Seq<char>, cvv: Seq<char> },
    SecureNote { title: Seq<char>, note: Seq<char> },
}

impl View for VaultItem {
    type V = VaultItemView;

    open spec fn view(&self) -> VaultItemView {
        match self {
            VaultItem::Password { name, website, email, username, password } => {
                VaultItemView::Password {
                    name: name@,
                    website: website@,
                    email: email@,
                    username: username@,
                    password: password@,
                }
            },
            VaultItem::CreditCard { name, number, expiration_date, cvv } => {
                VaultItemView::CreditCard {
                    name: name@,
                    number: number@,
                    expiration_date: expiration_date@,
                    cvv: cvv@,
                }
            },
            VaultItem::SecureNote { title, note } => {
                VaultItemView::SecureNote { title: title@, note: note@ }
            },
        }
    }
}

/// A sealed record at rest.
pub struct SecureEntry {
    /// The sealed text of the record.
    pub data: String,
    /// Seconds since the Unix epoch at which the record was sealed.
    pub created_at: u64,
}

/// An envelope as mathematics.
pub struct SecureEntryView {
    pub data: Seq<char>,
    pub created_at: u64,
}

impl View for SecureEntry {
    type V = SecureEntryView;

    open spec fn view(&self) -> SecureEntryView {
        SecureEntryView { data: self.data@, created_at: self.created_at }
    }
}

/// A member whose value is text.
pub open spec fn text_member(name: Seq<char>, value: Seq<char>) -> JsonFieldView {
    JsonFieldView { name, value: JsonValueView::Text(value) }
}

/// The members of the JSON object that stands for a record: the
/// discriminant under `type`, then the fields under their own names.
pub open spec fn item_members(item: VaultItemView) -> Seq<JsonFieldView> {
    match item {
        VaultItemView::Password { name, website, email, username, password } => {
            Seq::empty().push(text_member("type"@, "password"@)).push(
                text_member("name"@, name),
            ).push(text_member("website"@, website)).push(text_member("email"@, email)).push(
                text_member("username"@, username),
            ).push(text_member("password"@, password))
        },
        VaultItemView::CreditCard { name, number, expiration_date, cvv } => {
            Seq::empty().push(text_member("type"@, "credit_card"@)).push(
                text_member("name"@, name),
            ).push(text_member("number"@, number)).push(
                text_member("expiration_date"@, expiration_date),
            ).push(text_member("cvv"@, cvv))
        },
        VaultItemView::SecureNote { title, note } => {
            Seq::empty().push(text_member("type"@, "secure_note"@)).push(
                text_member("title"@, title),
            ).push(text_member("note"@, note))
        },
    }
}

/// The record that a JSON object stands for. The discriminant must be one
/// of the three known ones, and each field of that kind must be present as
/// text; members beyond those are ignored.
pub open spec fn item_of_object(object: Map<Seq<char>, JsonValueView>) -> Option<VaultItemView> {
    match map_text(object, "type"@) {
        None => None,
        Some(kind) => if kind == "password"@ {
            match (
                map_text(object, "name"@),
                map_text(object, "website"@),
                map_text(object, "email"@),
                map_text(object, "username"@),
                map_text(object, "password"@),
            ) {
                (Some(name), Some(website), Some(email), Some(username), Some(password)) => Some(
                    VaultItemView::Password { name, website, email, username, password },
                ),
                _ => None,
            }
        } else if kind == "credit_card"@ {
            match (
                map_text(object, "name"@),
                map_text(object, "number"@),
                map_text(object, "expiration_date"@),
                map_text(object, "cvv"@),
            ) {
                (Some(name), Some(number), Some(expiration_date), Some(cvv)) => Some(
                    VaultItemView::CreditCard { name, number, expiration_date, cvv },
                ),
                _ => None,
            }
        } else if kind == "secure_note"@ {
            match (map_text(object, "title"@), map_text(object, "note"@)) {
                (Some(title), Some(note)) => Some(VaultItemView::SecureNote { title, note }),
                _ => None,
            }
        } else {
            None
        },
    }
}

/// The JSON text of a record.
pub open spec fn item_text(item: VaultItemView) -> Seq<char> {
    json_text(item_members(item))
}

/// The record that a JSON text holds.
pub open spec fn record_of_text(text: Seq<char>) -> Option<VaultItemView> {
    match json_object(text) {
        Some(object) => item_of_object(object),
        None => None,
    }
}

/// The members of the JSON object that stands for an envelope.
pub open spec fn entry_members(entry: SecureEntryView) -> Seq<JsonFieldView> {
    Seq::empty().push(text_member("data"@, entry.data)).push(
        JsonFieldView { name: "created_at"@, value: JsonValueView::Unsigned(entry.created_at) },
    )
}

/// The envelope that a JSON object stands for: `data` must be text and
/// `created_at` an unsigned integer.
pub open spec fn entry_of_object(object: Map<Seq<char>, JsonValueView>) -> Option<
    SecureEntryView,
> {
    match (map_text(object, "data"@), map_unsigned(object, "created_at"@)) {
        (Some(data), Some(created_at)) => Some(SecureEntryView { data, created_at }),
        _ => None,
    }
}

/// The envelope that a stored value holds.
pub open spec fn stored_entry(value: Seq<char>) -> Option<SecureEntryView> {
    match json_object(value) {
        Some(object) => entry_of_object(object),
        None => None,
    }
}

/// What opening the sealed text `data` under `key` gives as a record.
pub open spec fn opened_payload(key: Seq<u8>, data: Seq<char>) -> Result<
    VaultItemView,
    DecodeError,
> {
    match opened_text(key, data) {
        Err(e) => Err(e),
        Ok(plain) => match record_of_text(plain) {
            Some(item) => Ok(item),
            None => Err(DecodeError::Record),
        },
    }
}

/// What opening the stored value `value` under `key` gives.
pub open spec fn opened_record(key: Seq<u8>, value: Seq<char>) -> Result<
    VaultItemView,
    DecodeError,
> {
    match stored_entry(value) {
        None => Err(DecodeError::Envelope),
        Some(entry) => opened_payload(key, entry.data),
    }
}

/// Whether a record can be sealed: its JSON text is not too long.
pub open spec fn item_sealable(item: VaultItemView) -> bool {
    sealable(vstd::utf8::encode_utf8(item_text(item)).len())
}

/// A member whose value is a copy of `value`.
fn text_field_of(name: &str, value: &String) -> (field: JsonField)
    ensures
        field@ == text_member(name@, value@),
{
    JsonField { name: name.to_owned(), value: JsonValue::Text(value.clone()) }
}

/// A member whose value is the text `value`.
fn tag_field(name: &str, value: &str) -> (field: JsonField)
    ensures
        field@ == text_member(name@, value@),
{
    JsonField { name: name.to_owned(), value: JsonValue::Text(value.to_owned()) }
}

/// The members that stand for `item`.
pub fn item_fields(item: &VaultItem) -> (fields: Vec<JsonField>)
    ensures
        fields_view(fields@) == item_members(item@),
{
    let mut fields: Vec<JsonField> = Vec::new();
    match item {
        VaultItem::Password { name, website, email, username, password } => {
            fields.push(tag_field("type", "password"));
            fields.push(text_field_of("name", name));
            fields.push(text_field_of("website", website));
            fields.push(text_field_of("email", email));
            fields.push(text_field_of("username", username));
            fields.push(text_field_of("password", password));
        },
        VaultItem::CreditCard { name, number, expiration_date, cvv } => {
            fields.push(tag_field("type", "credit_card"));
            fields.push(text_field_of("name", name));
            fields.push(text_field_of("number", number));
            fields.push(text_field_of("expiration_date", expiration_date));
            fields.push(text_field_of("cvv", cvv));
        },
        VaultItem::SecureNote { title, note } => {
            fields.push(tag_field("type", "secure_note"));
            fields.push(text_field_of("title", title));
            fields.push(text_field_of("note", note));
        },
    }
    assert(fields_view(fields@) =~= item_members(item@));
    fields
}

/// The record that the members stand for, if they stand for one.
pub fn item_from_fields(fields: &Vec<JsonField>) -> (r: Option<VaultItem>)
    ensures
        r is Some <==> item_of_object(fields_map(fields_view(fields@))) is Some,
        r matches Some(item) ==> item_of_object(fields_map(fields_view(fields@))) == Some(item@),
{
    let kind = match text_field(fields, "type") {
        Some(kind) => kind,
        None => {
            return None;
        },
    };
    if same_text(kind.as_str(), "password") {
        match (
            text_field(fields, "name"),
            text_field(fields, "website"),
            text_field(fields, "email"),
            text_field(fields, "username"),
            text_field(fields, "password"),
        ) {
            (Some(name), Some(website), Some(email), Some(username), Some(password)) => Some(
                VaultItem::Password {
                    name: name.clone(),
                    website: website.clone(),
                    email: email.clone(),
                    username: username.clone(),
                    password: password.clone(),
                },
            ),
            _ => None,
        }
    } else if same_text(kind.as_str(), "credit_card") {
        match (
            text_field(fields, "name"),
            text_field(fields, "number"),
            text_field(fields, "expiration_date"),
            text_field(fields, "cvv"),
        ) {
            (Some(name), Some(number), Some(expiration_date), Some(cvv)) => Some(
                VaultItem::CreditCard {
                    name: name.clone(),
                    number: number.clone(),
                    expiration_date: expiration_date.clone(),
                    cvv: cvv.clone(),
                },
            ),
            _ => None,
        }
    } else if same_text(kind.as_str(), "secure_note") {
        match (text_field(fields, "title"), text_field(fields, "note")) {
            (Some(title), Some(note)) => Some(
                VaultItem::SecureNote { title: title.clone(), note: note.clone() },
            ),
            _ => None,
        }
    } else {
        None
    }
}

/// The member names of a record differ from one another, and so do the
/// three discriminants.
proof fn lemma_names_differ()
    ensures
        "type"@ != "name"@,
        "type"@ != "website"@,
        "type"@ != "email"@,
        "type"@ != "username"@,
        "type"@ != "password"@,
        "type"@ != "number"@,
        "type"@ != "expiration_date"@,
        "type"@ != "cvv"@,
        "type"@ != "title"@,
        "type"@ != "note"@,
        "name"@ != "website"@,
        "name"@ != "email"@,
        "name"@ != "username"@,
        "name"@ != "password"@,
        "name"@ != "number"@,
        "name"@ != "expiration_date"@,
        "name"@ != "cvv"@,
        "website"@ != "email"@,
        "website"@ != "username"@,
        "website"@ != "password"@,
        "email"@ != "username"@,
        "email"@ != "password"@,
        "username"@ != "password"@,
        "number"@ != "expiration_date"@,
        "number"@ != "cvv"@,
        "expiration_date"@ != "cvv"@,
        "title"@ != "note"@,
        "password"@ != "credit_card"@,
        "password"@ != "secure_note"@,
        "credit_card"@ != "secure_note"@,
{
    reveal_strlit("type");
    reveal_strlit("password");
    reveal_strlit("credit_card");
    reveal_strlit("secure_note");
    reveal_strlit("name");
    reveal_strlit("website");
    reveal_strlit("email");
    reveal_strlit("username");
    reveal_strlit("number");
    reveal_strlit("expiration_date");
    reveal_strlit("cvv");
    reveal_strlit("title");
    reveal_strlit("note");
    assert("type"@.len() == 4 && "type"@[0] == 't');
    assert("name"@.len() == 4 && "name"@[0] == 'n');
    assert("website"@.len() == 7);
    assert("email"@.len() == 5);
    assert("username"@.len() == 8 && "username"@[0] == 'u');
    assert("password"@.len() == 8 && "password"@[0] == 'p');
    assert("number"@.len() == 6);
    assert("expiration_date"@.len() == 15);
    assert("cvv"@.len() == 3);
    assert("title"@.len() == 5);
    assert("note"@.len() == 4);
    assert("credit_card"@.len() == 11 && "credit_card"@[0] == 'c');
    assert("secure_note"@.len() == 11 && "secure_note"@[0] == 's');
}

/// The members that stand for `entry`.
pub fn entry_fields(entry: &SecureEntry) -> (fields: Vec<JsonField>)
    ensures
        fields_view(fields@) == entry_members(entry@),
{
    let mut fields: Vec<JsonField> = Vec::new();
    fields.push(text_field_of("data", &entry.data));
    fields.push(
        JsonField { name: "created_at".to_owned(), value: JsonValue::Unsigned(entry.created_at) },
    );
    assert(fields_view(fields@) =~= entry_members(entry@));
    fields
}

/// The envelope that the members stand for, if they stand for one.
pub fn entry_from_fields(fields: &Vec<JsonField>) -> (r: Option<SecureEntry>)
    ensures
        r is Some <==> entry_of_object(fields_map(fields_view(fields@))) is Some,
        r matches Some(entry) ==> entry_of_object(fields_map(fields_view(fields@))) == Some(
            entry@,
        ),
{
    match (text_field(fields, "data"), unsigned_field(fields, "created_at")) {
        (Some(data), Some(created_at)) => Some(SecureEntry { data: data.clone(), created_at }),
        _ => None,
    }
}

/// Reading back the members of a record gives the record.
pub proof fn lemma_item_round_trip(item: VaultItemView)
    ensures
        item_of_object(fields_map(item_members(item))) == Some(item),
{
    lemma_names_differ();
    assert forall|fields: Seq<JsonFieldView>, last: JsonFieldView, name: Seq<char>|
        #[trigger] field_value(fields.push(last), name) == if last.name == name {
            Some(last.value)
        } else {
            field_value(fields, name)
        } by {
        lemma_field_value_push(fields, last, name);
    }
    let members = item_members(item);
    lemma_field_value(members, "type"@);
    match item {
        VaultItemView::Password { .. } => {
            lemma_field_value(members, "name"@);
            lemma_field_value(members, "website"@);
            lemma_field_value(members, "email"@);
            lemma_field_value(members, "username"@);
            lemma_field_value(members, "password"@);
        },
        VaultItemView::CreditCard { .. } => {
            lemma_field_value(members, "name"@);
            lemma_field_value(members, "number"@);
            lemma_field_value(members, "expiration_date"@);
            lemma_field_value(members, "cvv"@);
        },
        VaultItemView::SecureNote { .. } => {
            lemma_field_value(members, "title"@);
            lemma_field_value(members, "note"@);
        },
    }
}

/// Reading back the members of an envelope gives the envelope.
pub proof fn lemma_entry_round_trip(entry: SecureEntryView)
    ensures
        entry_of_object(fields_map(entry_members(entry))) == Some(entry),
{
    reveal_strlit("data");
    reveal_strlit("created_at");
    assert("data"@.len() == 4);
    assert("created_at"@.len() == 10);
    assert forall|fields: Seq<JsonFieldView>, last: JsonFieldView, name: Seq<char>|
        #[trigger] field_value(fields.push(last), name) == if last.name == name {
            Some(last.value)
        } else {
            field_value(fields, name)
        } by {
        lemma_field_value_push(fields, last, name);
    }
    let members = entry_members(entry);
    lemma_field_value(members, "data"@);
    lemma_field_value(members, "created_at"@);
}

/// Calls `SystemTime::elapsed` on `UNIX_EPOCH` and takes the whole seconds.
///
/// Trusted: nothing is claimed of the result, which depends on the clock.
/// `None` stands for a clock set before the epoch.
#[verifier::external_body]
fn unix_seconds() -> Option<u64> {
    std::time::UNIX_EPOCH.elapsed().ok().map(|elapsed| elapsed.as_secs())
}

/// Seconds since the Unix epoch by the system clock, or 0 where the clock
/// is set before the epoch. Nothing holds of every reading of a clock, so
/// nothing is promised of the result; what is made of a reading is stated
/// by `stamp_of`.
pub fn timestamp_now() -> u64 {
    stamp_of(unix_seconds())
}

/// The time stamp made of a reading of the clock: the seconds read, or 0
/// where the clock is set before the epoch and there is nothing to read.
pub fn stamp_of(reading: Option<u64>) -> (stamp: u64)
    ensures
        stamp == match reading {
            Some(seconds) => seconds,
            None => 0,
        },
{
    match reading {
        Some(seconds) => seconds,
        None => 0,
    }
}

impl SecureEntry {
    /// Seals `item` under `key` with the nonce and the time given.
    ///
    /// Fails exactly when the record's JSON text is too long to seal.
    pub fn encrypt_with(key: &[u8; 32], item: &VaultItem, nonce: &[u8; 12], created_at: u64) -> (r:
        Result<SecureEntry, EncodeError>)
        ensures
            r is Ok <==> item_sealable(item@),
            r matches Ok(entry) ==> entry@ == (SecureEntryView {
                data: sealed_text(key@, nonce@, item_text(item@)),
                created_at,
            }),
            r matches Ok(entry) ==> opened_payload(key@, entry.data@) == Ok::<
                VaultItemView,
                DecodeError,
            >(item@),
    {
        let fields = item_fields(item);
        let plaintext = render_object(&fields).unwrap();
        proof {
            lemma_item_round_trip(item@);
        }
        match encrypt_with_nonce(key, nonce, plaintext.as_str()) {
            Ok(data) => Ok(SecureEntry { data, created_at }),
            Err(e) => Err(e),
        }
    }

    /// Seals `item` under `key` with a fresh nonce and the current time.
    ///
    /// Fails exactly when the record's JSON text is too long to seal.
    /// Whatever nonce was drawn, the envelope opens under `key` to `item`.
    pub fn encrypt(key: &[u8; 32], item: &VaultItem) -> (r: Result<SecureEntry, EncodeError>)
        ensures
            r is Ok <==> item_sealable(item@),
            r matches Ok(entry) ==> exists|nonce: Seq<u8>|
                nonce.len() == NONCE_LEN && entry.data@ == #[trigger] sealed_text(
                    key@,
                    nonce,
                    item_text(item@),
                ),
            r matches Ok(entry) ==> opened_payload(key@, entry.data@) == Ok::<
                VaultItemView,
                DecodeError,
            >(item@),
    {
        let fields = item_fields(item);
        let plaintext = render_object(&fields).unwrap();
        proof {
            lemma_item_round_trip(item@);
        }
        match encrypt_data(key, plaintext.as_str()) {
            Ok(data) => {
                proof {
                    let nonce = choose|nonce: Seq<u8>|
                        nonce.len() == NONCE_LEN && data@ == #[trigger] sealed_text(
                            key@,
                            nonce,
                            plaintext@,
                        );
                    assert(data@ == sealed_text(key@, nonce, item_text(item@)));
                }
                Ok(SecureEntry { data, created_at: timestamp_now() })
            },
            Err(e) => Err(e),
        }
    }

    /// Opens the stored value `value` under `key`.
    ///
    /// Fails with `Envelope` where the value is not an envelope, with the
    /// cipher's own error where the payload does not open, and with
    /// `Record` where the plaintext is not a record of a known kind.
    pub fn decrypt(key: &[u8; 32], value: &str) -> (r: Result<VaultItem, DecodeError>)
        ensures
            r matches Ok(item) ==> opened_record(key@, value@) == Ok::<VaultItemView, DecodeError>(
                item@,
            ),
            r matches Err(e) ==> opened_record(key@, value@) == Err::<VaultItemView, DecodeError>(
                e,
            ),
    {
        let fields = match parse_object(value) {
            Some(fields) => fields,
            None => {
                return Err(DecodeError::Envelope);
            },
        };
        let envelope = match entry_from_fields(&fields) {
            Some(envelope) => envelope,
            None => {
                return Err(DecodeError::Envelope);
            },
        };
        let plaintext = match decrypt_data(key, envelope.data.as_str()) {
            Ok(plaintext) => plaintext,
            Err(e) => {
                return Err(e);
            },
        };
        let fields = match parse_object(plaintext.as_str()) {
            Some(fields) => fields,
            None => {
                return Err(DecodeError::Record);
            },
        };
        match item_from_fields(&fields) {
            Some(item) => Ok(item),
            None => Err(DecodeError::Record),
        }
    }

    /// The JSON text of the envelope, which is what a vault entry stores.
    /// Always succeeds, and reading the text back gives this envelope.
    pub fn serialize(&self) -> (r: Result<String, EncodeError>)
        ensures
            r matches Ok(text) && text@ == json_text(entry_members(self@)) && stored_entry(text@)
                == Some(self@),
    {
        let fields = entry_fields(self);
        proof {
            lemma_entry_round_trip(self@);
        }
        Ok(render_object(&fields).unwrap())
    }
}

/// Seals `item` under `key` and wraps the envelope's text as the vault
/// entry called `name`.
///
/// Fails exactly when the record is too long to seal. The entry's value
/// opens under `key` to `item`.
pub fn seal_entry(key: &[u8; 32], name: String, item: &VaultItem) -> (r: Result<
    VaultEntry,
    EncodeError,
>)
    ensures
        r is Ok <==> item_sealable(item@),
        r matches Ok(entry) ==> entry.key@ == name@ && opened_record(key@, entry.value@) == Ok::<
            VaultItemView,
            DecodeError,
        >(item@),
{
    let envelope = match SecureEntry::encrypt(key, item) {
        Ok(envelope) => envelope,
        Err(e) => {
            return Err(e);
        },
    };
    match envelope.serialize() {
        Ok(value) => Ok(VaultEntry { key: name, value }),
        Err(e) => Err(e),
    }
}

/// The vault that the host's answer to a read carries, or the text of the
/// failure.
pub fn load_vault(session: &RemoteSession, delivery: Delivery<CloudResponse>) -> (r: Result<
    Vec<VaultEntry>,
    String,
>)
    ensures
        match r {
            Ok(vault) => parsed_reply(delivery) matches Ok(response) && vault@
                == match response.vault {
                Some(entries) => entries@,
                None => Seq::empty(),
            },
            Err(message) => parsed_reply(delivery) matches Err(e) && message@
                == client_error_text(e),
        },
{
    match session.fetch_vault(delivery) {
        Ok(vault) => Ok(vault),
        Err(e) => Err(e.message()),
    }
}

/// What the host's answer to a write means: nothing where the write took
/// place, the text of the failure otherwise.
pub fn save_vault(session: &RemoteSession, delivery: Delivery<CloudResponse>) -> (r: Result<
    (),
    String,
>)
    ensures
        match r {
            Ok(_) => parsed_reply(delivery) matches Ok(response) && response.success,
            Err(message) => match parsed_reply(delivery) {
                Ok(response) => !response.success && message@ == response.message@,
                Err(e) => message@ == client_error_text(e),
            },
        },
{
    match session.save_vault(delivery) {
        Ok(_) => Ok(()),
        Err(e) => Err(e.message()),
    }
}

} // verus!
