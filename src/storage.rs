//! A store holding one record, kept as the text of its backing file.
//!
//! The text is a JSON string whose content is a JSON object with the string
//! fields `username` and `activity`. Writing produces the compact object
//! with the fields in that order; reading takes any JSON that serde_json
//! reads as such an object.
use vstd::prelude::*;

verus! {

#[verifier::external_type_specification]
#[verifier::external_body]
pub struct ExJsonError(serde_json::Error);

/// The one record the store holds.
pub struct User {
    pub username: String,
    pub activity: String,
}

pub struct UserView {
    pub username: Seq<char>,
    pub activity: Seq<char>,
}

impl View for User {
    type V = UserView;

    open spec fn view(&self) -> UserView {
        UserView { username: self.username@, activity: self.activity@ }
    }
}

/// Why a store operation failed.
#[derive(Clone, Copy, Debug, PartialEq, Eq, Structural)]
pub enum StoreError {
    /// The backing file could not be opened, read or written.
    Io,
    /// The record could not be serialized.
    Encode,
    /// The stored text is empty or not an encoded record.
    Decode,
}

/// The digit of `n` in lower-case hexadecimal, for `n < 16`.
pub open spec fn hex_digit(n: u32) -> char {
    seq!['0', '1', '2', '3', '4', '5', '6', '7', '8', '9', 'a', 'b', 'c', 'd', 'e', 'f'][n as int]
}

/// How JSON writes one character inside a string literal.
pub open spec fn escape_char(c: char) -> Seq<char> {
    if c == '"' {
        seq!['\\', '"']
    } else if c == '\\' {
        seq!['\\', '\\']
    } else if c == '\x08' {
        seq!['\\', 'b']
    } else if c == '\x0c' {
        seq!['\\', 'f']
    } else if c == '\n' {
        seq!['\\', 'n']
    } else if c == '\r' {
        seq!['\\', 'r']
    } else if c == '\t' {
        seq!['\\', 't']
    } else if (c as u32) < 0x20 {
        seq!['\\', 'u', '0', '0', hex_digit((c as u32) / 16), hex_digit((c as u32) % 16)]
    } else {
        seq![c]
    }
}

/// The body of the JSON string literal of `s`, without its quotes.
pub open spec fn escaped(s: Seq<char>) -> Seq<char>
    decreases s.len(),
{
    if s.len() == 0 {
        Seq::empty()
    } else {
        escape_char(s[0]) + escaped(s.drop_first())
    }
}

/// The JSON string literal of `s`.
pub open spec fn json_quote(s: Seq<char>) -> Seq<char> {
    seq!['"'] + escaped(s) + seq!['"']
}

/// `{"username":`
pub open spec fn username_key() -> Seq<char> {
    seq!['{', '"', 'u', 's', 'e', 'r', 'n', 'a', 'm', 'e', '"', ':']
}

/// `,"activity":`
pub open spec fn activity_key() -> Seq<char> {
    seq![',', '"', 'a', 'c', 't', 'i', 'v', 'i', 't', 'y', '"', ':']
}

/// The JSON object of a record, fields in declaration order, no spaces.
pub open spec fn object_text(u: UserView) -> Seq<char> {
    username_key() + json_quote(u.username) + activity_key() + json_quote(u.activity) + seq!['}']
}

/// The text of a backing file that holds `u`: its object, as a JSON string.
pub open spec fn file_text(u: UserView) -> Seq<char> {
    json_quote(object_text(u))
}

/// Relies on serde_json::to_string for a `str`: the string literal with
/// `"` and `\` escaped, backspace, form feed, newline, carriage return and
/// tab written as two-character escapes, the other characters below 0x20 as
/// `\u00XX` in lower-case hex, and every other character as it is. The
/// output goes into memory, so no write can fail.
#[verifier::external_body]
fn quote(s: &str) -> (r: Result<String, serde_json::Error>)
    ensures
        r is Ok,
        r->Ok_0@ == json_quote(s@),
{
    serde_json::to_string(s)
}

#[verifier::external_type_specification]
#[verifier::external_body]
pub struct ExJsonValue(serde_json::Value);

/// What serde_json reads from `s` as a `String`; `None` where it fails.
pub uninterp spec fn json_string_value(s: Seq<char>) -> Option<Seq<char>>;

/// What serde_json reads from `s` as a `Value`; `None` where it fails.
pub uninterp spec fn json_value(s: Seq<char>) -> Option<serde_json::Value>;

/// The member of object `o` under `key`, as serde_json's `Value::get` finds
/// it; `None` where `o` is no object or has no such member.
pub uninterp spec fn json_member(o: serde_json::Value, key: Seq<char>) -> Option<serde_json::Value>;

/// The text of `v` where `v` is a JSON string, as `Value::as_str` gives it.
pub uninterp spec fn json_str(v: serde_json::Value) -> Option<Seq<char>>;

/// Relies on serde_json::from_str for a `String`: the result depends on the
/// text alone, empty text is an error, and any string literal that
/// serde_json writes reads back as the string written.
#[verifier::external_body]
fn unquote(s: &str) -> (r: Result<String, serde_json::Error>)
    ensures
        r is Ok <==> json_string_value(s@) is Some,
        r is Ok ==> r->Ok_0@ == json_string_value(s@)->0,
        s@.len() == 0 ==> r is Err,
        forall|v: Seq<char>| #[trigger] json_quote(v) == s@ ==> r is Ok && r->Ok_0@ == v,
{
    serde_json::from_str::<String>(s)
}

/// Relies on serde_json::from_str for a `Value`: the result depends on the
/// text alone, and the object that serde_json writes for a record reads
/// back as an object holding its two fields as strings.
#[verifier::external_body]
fn parse_value(s: &str) -> (r: Result<serde_json::Value, serde_json::Error>)
    ensures
        r is Ok <==> json_value(s@) is Some,
        r is Ok ==> r->Ok_0 == json_value(s@)->0,
        forall|u: UserView| #[trigger] object_text(u) == s@ ==> {
            &&& r is Ok
            &&& json_member(r->Ok_0, "username"@) is Some
            &&& json_str(json_member(r->Ok_0, "username"@)->0) == Some(u.username)
            &&& json_member(r->Ok_0, "activity"@) is Some
            &&& json_str(json_member(r->Ok_0, "activity"@)->0) == Some(u.activity)
        },
{
    serde_json::from_str::<serde_json::Value>(s)
}

/// Relies on serde_json's `Value::get` with a string key: the member under
/// `key` of an object.
#[verifier::external_body]
fn member<'a>(o: &'a serde_json::Value, key: &str) -> (r: Option<&'a serde_json::Value>)
    ensures
        r is Some <==> json_member(*o, key@) is Some,
        r is Some ==> *r->0 == json_member(*o, key@)->0,
{
    o.get(key)
}

/// Relies on serde_json's `Value::as_str`: the text of a JSON string.
#[verifier::external_body]
fn as_text(v: &serde_json::Value) -> (r: Option<&str>)
    ensures
        r is Some <==> json_str(*v) is Some,
        r is Some ==> r->0@ == json_str(*v)->0,
{
    v.as_str()
}

/// The string under `key` in the object `o`, if there is one.
pub open spec fn string_field(o: serde_json::Value, key: Seq<char>) -> Option<Seq<char>> {
    match json_member(o, key) {
        Some(m) => json_str(m),
        None => None,
    }
}

/// The record that the text of a backing file holds: a JSON string whose
/// content is a JSON object with the two fields as strings. Other members,
/// field order, whitespace and escapes are as serde_json reads them.
pub open spec fn read_back(t: Seq<char>) -> Option<UserView> {
    match json_string_value(t) {
        Some(p) => match json_value(p) {
            Some(o) => match (string_field(o, "username"@), string_field(o, "activity"@)) {
                (Some(a), Some(b)) => Some(UserView { username: a, activity: b }),
                _ => None,
            },
            None => None,
        },
        None => None,
    }
}

/// The string under `key` in the object `o`.
fn field(o: &serde_json::Value, key: &str) -> (r: Option<String>)
    ensures
        r is Some <==> string_field(*o, key@) is Some,
        r is Some ==> r->0@ == string_field(*o, key@)->0,
{
    match member(o, key) {
        Some(m) => match as_text(m) {
            Some(t) => Some(String::from_str(t)),
            None => None,
        },
        None => None,
    }
}

/// Reads the record back from the text of a backing file. Fails with
/// `Decode` where the text holds no record; the text that `encode_record`
/// writes for a record reads back as that record.
pub fn decode_record(text: &String) -> (r: Result<User, StoreError>)
    ensures
        r is Ok <==> read_back(text@) is Some,
        r is Ok ==> r->Ok_0@ == read_back(text@)->0,
        r is Err ==> r->Err_0 == StoreError::Decode,
        forall|v: UserView| #[trigger] file_text(v) == text@ ==> r is Ok && r->Ok_0@ == v,
        text@.len() == 0 ==> r == Err::<User, StoreError>(StoreError::Decode),
{
    let ghost written = exists|v: UserView| file_text(v) == text@;
    proof {
        if written {
            let v = choose|v: UserView| file_text(v) == text@;
            assert(json_quote(object_text(v)) == text@);
        }
    }
    let payload = match unquote(text.as_str()) {
        Ok(p) => p,
        Err(_) => return Err(StoreError::Decode),
    };
    let object = match parse_value(payload.as_str()) {
        Ok(o) => o,
        Err(_) => return Err(StoreError::Decode),
    };
    let username = match field(&object, "username") {
        Some(t) => t,
        None => return Err(StoreError::Decode),
    };
    let activity = match field(&object, "activity") {
        Some(t) => t,
        None => return Err(StoreError::Decode),
    };
    let user = User { username, activity };
    proof {
        assert forall|v: UserView| #[trigger] file_text(v) == text@ implies user@ == v by {
            assert(json_quote(object_text(v)) == text@);
            assert(object_text(v) == payload@);
        }
    }
    Ok(user)
}

/// Serializes a record to the text of a backing file.
pub fn encode_record(user: &User) -> (r: Result<String, StoreError>)
    ensures
        r matches Ok(t) && t@ == file_text(user@),
{
    let name = match quote(user.username.as_str()) {
        Ok(t) => t,
        Err(_) => return Err(StoreError::Encode),
    };
    let activity = match quote(user.activity.as_str()) {
        Ok(t) => t,
        Err(_) => return Err(StoreError::Encode),
    };
    let mut object = String::from_str("{\"username\":");
    object.append(name.as_str());
    object.append(",\"activity\":");
    object.append(activity.as_str());
    object.append("}");
    proof {
        reveal_strlit("{\"username\":");
        reveal_strlit(",\"activity\":");
        reveal_strlit("}");
        assert(object@ =~= object_text(user@));
    }
    match quote(object.as_str()) {
        Ok(t) => Ok(t),
        Err(_) => Err(StoreError::Encode),
    }
}

/// A store of one record, as the text of its backing file. The caller
/// moves that text between the file and the store.
pub struct Storage {
    database_url: String,
    contents: String,
}

pub struct StorageView {
    pub database_url: Seq<char>,
    pub contents: Seq<char>,
}

impl View for Storage {
    type V = StorageView;

    closed spec fn view(&self) -> StorageView {
        StorageView { database_url: self.database_url@, contents: self.contents@ }
    }
}

impl Storage {
    /// A store at `database_url` whose file was just created, empty.
    pub fn new(database_url: &str) -> (r: Storage)
        ensures
            r@.database_url == database_url@,
            r@.contents == Seq::<char>::empty(),
    {
        Storage { database_url: String::from_str(database_url), contents: String::new() }
    }

    /// A store at `database_url` whose file holds `contents`.
    pub fn with_contents(database_url: &str, contents: String) -> (r: Storage)
        ensures
            r@.database_url == database_url@,
            r@.contents == contents@,
    {
        Storage { database_url: String::from_str(database_url), contents }
    }

    pub fn database_url(&self) -> (r: &str)
        ensures
            r@ == self@.database_url,
    {
        self.database_url.as_str()
    }

    /// The text the backing file should hold.
    pub fn contents(&self) -> (r: &str)
        ensures
            r@ == self@.contents,
    {
        self.contents.as_str()
    }

    /// Overwrites the stored record with `user`.
    pub fn insert(&mut self, user: &User) -> (r: Result<(), StoreError>)
        ensures
            r is Ok,
            final(self)@.contents == file_text(user@),
            final(self)@.database_url == old(self)@.database_url,
    {
        match encode_record(user) {
            Ok(t) => {
                self.contents = t;
                Ok(())
            },
            Err(e) => Err(e),
        }
    }

    /// Reads the stored record. Fails with `Decode` where the text holds
    /// none; the text that `insert` leaves reads back as the record inserted.
    pub fn get(&self) -> (r: Result<User, StoreError>)
        ensures
            match read_back(self@.contents) {
                Some(v) => r is Ok && r->Ok_0@ == v,
                None => r == Err::<User, StoreError>(StoreError::Decode),
            },
            forall|v: UserView| #[trigger] file_text(v) == self@.contents ==> r is Ok
                && r->Ok_0@ == v,
            self@.contents.len() == 0 ==> r == Err::<User, StoreError>(StoreError::Decode),
    {
        decode_record(&self.contents)
    }

    /// Replaces the stored record with `user`.
    pub fn update(&mut self, user: &User) -> (r: Result<(), StoreError>)
        ensures
            r is Ok,
            final(self)@.contents == file_text(user@),
            final(self)@.database_url == old(self)@.database_url,
    {
        self.insert(user)
    }
}

} // verus!
