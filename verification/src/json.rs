//! The library's own picture of a parsed JSON document, and the lookup of
//! object members that the decoders are built on.
use vstd::prelude::*;

verus! {

/// A JSON number: the value as a `u64` where it is a non-negative integer
/// that fits one, and its text as `serde_json` prints it.
#[derive(Debug)]
pub struct JsonNumber {
    pub unsigned: Option<u64>,
    pub text: String,
}

/// A parsed JSON value. Object members keep the order in which the parser
/// hands them out, which for parsed text is the order of the text.
#[derive(Debug)]
pub enum Json {
    Null,
    Bool(bool),
    Number(JsonNumber),
    Str(String),
    Array(Vec<Json>),
    Object(Vec<(String, Json)>),
}

/// Errors of decoding a notebook document or one of its parts.
#[derive(Debug, Clone, Copy, PartialEq, Eq, Structural)]
pub enum DecodeError {
    /// The text is not a JSON document.
    Syntax,
    /// A required member of an object is absent.
    MissingField,
    /// A struct written as an array has fewer items than it needs.
    InvalidLength,
    /// A value has another JSON type than the field asks for (or a number
    /// is not a non-negative integer of 64 bits where one is asked for).
    WrongType,
    /// A struct written as an array has more items than the struct has
    /// fields (the text goes on where the struct ends).
    TooManyItems,
    /// An object has a second member with the key of one of the struct's
    /// fields.
    DuplicateField,
    /// A value breaks one of the notebook schema's rules.
    Schema(crate::rules::SchemaError),
}

/// The text that describes a decoding error.
pub open spec fn decode_message(e: DecodeError) -> Seq<char> {
    match e {
        DecodeError::Syntax => "invalid JSON"@,
        DecodeError::MissingField => "missing field"@,
        DecodeError::WrongType => "invalid type"@,
        DecodeError::InvalidLength => "invalid length"@,
        DecodeError::TooManyItems => "trailing characters"@,
        DecodeError::DuplicateField => "duplicate field"@,
        DecodeError::Schema(s) => crate::rules::schema_message(s),
    }
}

impl DecodeError {
    /// Describes the error.
    pub fn message(&self) -> (m: String)
        ensures
            m@ == decode_message(*self),
    {
        match self {
            DecodeError::Syntax => String::from_str("invalid JSON"),
            DecodeError::MissingField => String::from_str("missing field"),
            DecodeError::WrongType => String::from_str("invalid type"),
            DecodeError::InvalidLength => String::from_str("invalid length"),
            DecodeError::TooManyItems => String::from_str("trailing characters"),
            DecodeError::DuplicateField => String::from_str("duplicate field"),
            DecodeError::Schema(s) => s.message(),
        }
    }
}

#[verifier::external_type_specification]
#[verifier::external_body]
pub struct ExSerdeJsonValue(serde_json::Value);

/// What `serde_json` makes of `text`: `None` where the text is no JSON
/// document, else the document as the library's `Json`.
pub uninterp spec fn json_document(text: Seq<char>) -> Option<Json>;

/// Converts a `serde_json::Value` into the library's `Json`, one node for
/// one node: numbers keep `Number::as_u64` and their printed text, objects
/// their members in the order in which `serde_json::Map` yields them. With
/// the `preserve_order` feature that is the order of the text; a key
/// written twice keeps the place of its first member and the value of its
/// last, since the parser inserts each member into an `IndexMap`.
/// It is the conversion step of `serde_json_from_str`, which states what
/// the two give together; nothing is claimed of it alone.
#[verifier::external_body]
fn json_of_serde_value(v: serde_json::Value) -> Json {
    match v {
        serde_json::Value::Null => Json::Null,
        serde_json::Value::Bool(b) => Json::Bool(b),
        serde_json::Value::Number(n) => Json::Number(JsonNumber { unsigned: n.as_u64(), text: n.to_string() }),
        serde_json::Value::String(s) => Json::Str(s),
        serde_json::Value::Array(a) => Json::Array(a.into_iter().map(json_of_serde_value).collect()),
        serde_json::Value::Object(m) => Json::Object(m.into_iter().map(|(k, x)| (k, json_of_serde_value(x))).collect()),
    }
}

/// Calls `serde_json::from_str::<serde_json::Value>` on `text`.
/// Claimed: the result is a function of the text alone, named
/// `json_document`; a parse error becomes `None`. Nothing is claimed of
/// which texts parse or of what they parse to.
#[verifier::external_body]
fn serde_json_from_str(text: &str) -> (r: Option<Json>)
    ensures
        r == json_document(text@),
{
    serde_json::from_str::<serde_json::Value>(text).ok().map(json_of_serde_value)
}

/// What `parse_json` gives for a document (or its absence).
pub open spec fn parse_json_result(doc: Option<Json>) -> Result<Json, DecodeError> {
    match doc {
        Some(j) => Ok(j),
        None => Err(DecodeError::Syntax),
    }
}

/// Parses JSON text; `Err(Syntax)` exactly where `serde_json` refuses it.
/// A key written twice in one object is not kept twice: the parsed object
/// has one member for it, at the place of the first and with the value of
/// the last. So text never gives the decoders a repeated key, and a text
/// with a field's key written twice is read with its last value, where a
/// derived `serde` decoder of the text would refuse it.
pub fn parse_json(text: &str) -> (r: Result<Json, DecodeError>)
    ensures
        r == parse_json_result(json_document(text@)),
{
    match serde_json_from_str(text) {
        Some(j) => Ok(j),
        None => Err(DecodeError::Syntax),
    }
}

/// The value of the first member of `fields` whose key is `key`.
pub open spec fn member(fields: Seq<(String, Json)>, key: Seq<char>) -> Option<Json>
    decreases fields.len(),
{
    if fields.len() == 0 {
        None
    } else if fields[0].0@ == key {
        Some(fields[0].1)
    } else {
        member(fields.drop_first(), key)
    }
}

/// The member of a JSON value named `key`: `None` where the value is no
/// object or has no such member.
pub open spec fn field(j: Json, key: Seq<char>) -> Option<Json> {
    match j {
        Json::Object(fields) => member(fields@, key),
        _ => None,
    }
}

/// No member before position `i` has the key `key`.
pub open spec fn no_key_before(fields: Seq<(String, Json)>, i: int, key: Seq<char>) -> bool
    decreases i,
{
    if i <= 0 {
        true
    } else {
        fields[i - 1].0@ != key && no_key_before(fields, i - 1, key)
    }
}

/// The member at position `i` is the one found for its key where no
/// earlier member has that key.
pub proof fn lemma_member_at(fields: Seq<(String, Json)>, i: int, key: Seq<char>)
    requires
        0 <= i < fields.len(),
        fields[i].0@ == key,
        no_key_before(fields, i, key),
    ensures
        member(fields, key) == Some(fields[i].1),
    decreases i,
{
    if i > 0 {
        let rest = fields.drop_first();
        lemma_no_key_before_rest(fields, i, key);
        lemma_member_at(rest, i - 1, key);
    }
}

proof fn lemma_no_key_before_rest(fields: Seq<(String, Json)>, i: int, key: Seq<char>)
    requires
        0 < i <= fields.len(),
        no_key_before(fields, i, key),
    ensures
        no_key_before(fields.drop_first(), i - 1, key),
        fields[0].0@ != key,
    decreases i,
{
    if i > 1 {
        lemma_no_key_before_rest(fields, i - 1, key);
    }
}

/// `member` read from position `i` on, where no key before `i` matches.
proof fn lemma_member_skip(fields: Seq<(String, Json)>, key: Seq<char>, i: int)
    requires
        0 <= i < fields.len(),
        fields[i].0@ != key,
    ensures
        member(fields.skip(i), key) == member(fields.skip(i + 1), key),
{
    assert(fields.skip(i).drop_first() =~= fields.skip(i + 1));
}

/// The position of the first member of `fields` whose key is `key`.
pub fn find_member_index(fields: &Vec<(String, Json)>, key: &str) -> (r: Option<usize>)
    ensures
        match r {
            Some(i) => i < fields@.len() && fields@[i as int].0@ == key@
                && member(fields@, key@) == Some(fields@[i as int].1),
            None => member(fields@, key@) is None,
        },
{
    let k = String::from_str(key);
    let mut i: usize = 0;
    assert(fields@.skip(0) =~= fields@);
    while i < fields.len()
        invariant
            i <= fields@.len(),
            k@ == key@,
            member(fields@, key@) == member(fields@.skip(i as int), key@),
        decreases fields.len() - i,
    {
        if fields[i].0 == k {
            assert(fields@.skip(i as int)[0] == fields@[i as int]);
            return Some(i);
        }
        proof {
            lemma_member_skip(fields@, key@, i as int);
        }
        i = i + 1;
    }
    assert(fields@.skip(i as int).len() == 0);
    None
}

/// Looks up the first member of `fields` whose key is `key`.
pub fn find_member<'a>(fields: &'a Vec<(String, Json)>, key: &str) -> (r: Option<&'a Json>)
    ensures
        match r {
            Some(v) => member(fields@, key@) == Some(*v),
            None => member(fields@, key@) is None,
        },
{
    match find_member_index(fields, key) {
        Some(i) => Some(&fields[i].1),
        None => None,
    }
}

/// Looks up the member `key` of `j` (`None` where `j` is no object).
pub fn find_field<'a>(j: &'a Json, key: &str) -> (r: Option<&'a Json>)
    ensures
        match r {
            Some(v) => field(*j, key@) == Some(*v),
            None => field(*j, key@) is None,
        },
{
    match j {
        Json::Object(fields) => find_member(fields, key),
        _ => None,
    }
}

/// Field number `index`, named `key`, of a struct written as a JSON object
/// (read by key) or as a JSON array (read by position).
pub open spec fn entry(j: Json, index: int, key: Seq<char>) -> Option<Json> {
    match j {
        Json::Object(fields) => member(fields@, key),
        Json::Array(items) => if 0 <= index < items@.len() {
            Some(items@[index])
        } else {
            None
        },
        _ => None,
    }
}

/// A struct written as an array with more than `n` items.
pub open spec fn too_many_items(j: Json, n: int) -> bool {
    j matches Json::Array(items) && items@.len() > n
}

/// Reads field number `index`, named `key`, of a struct written as an
/// object or an array.
pub fn entry_of<'a>(j: &'a Json, index: usize, key: &str) -> (r: Option<&'a Json>)
    ensures
        match r {
            Some(v) => entry(*j, index as int, key@) == Some(*v),
            None => entry(*j, index as int, key@) is None,
        },
{
    match j {
        Json::Object(fields) => find_member(fields, key),
        Json::Array(items) => {
            if index < items.len() {
                Some(&items[index])
            } else {
                None
            }
        },
        _ => None,
    }
}

/// Whether `j` is a struct written as an array with more than `n` items.
pub fn has_too_many_items(j: &Json, n: usize) -> (b: bool)
    ensures
        b == too_many_items(*j, n as int),
{
    match j {
        Json::Array(items) => items.len() > n,
        _ => false,
    }
}

/// The error of a result, if it has one.
pub open spec fn err_of<T>(r: Result<T, DecodeError>) -> Option<DecodeError> {
    match r {
        Ok(_) => None,
        Err(e) => Some(e),
    }
}

/// The first error met when the members of an object are read in their
/// order, from position `i` on, into a struct whose fields `check` knows:
/// `check(key, value)` is `None` for a key that names no field (the member
/// is passed over), else the error of decoding `value` as that field, if
/// any. A field's key met a second time is `DuplicateField`.
pub open spec fn member_error(
    fields: Seq<(String, Json)>,
    check: spec_fn(Seq<char>, Json) -> Option<Option<DecodeError>>,
    i: int,
) -> Option<DecodeError>
    decreases fields.len() - i,
{
    if i < 0 || i >= fields.len() {
        None
    } else {
        match check(fields[i].0@, fields[i].1) {
            None => member_error(fields, check, i + 1),
            Some(r) => if !no_key_before(fields, i, fields[i].0@) {
                Some(DecodeError::DuplicateField)
            } else {
                match r {
                    Some(e) => Some(e),
                    None => member_error(fields, check, i + 1),
                }
            },
        }
    }
}

/// The first error met in the members of an object, in their order (see
/// `member_error`); `None` for any other JSON value.
pub open spec fn object_error(
    j: Json,
    check: spec_fn(Seq<char>, Json) -> Option<Option<DecodeError>>,
) -> Option<DecodeError> {
    match j {
        Json::Object(fields) => member_error(fields@, check, 0),
        _ => None,
    }
}

/// Appending a member leaves the keys before position `i` as they were.
proof fn lemma_no_key_before_push(fields: Seq<(String, Json)>, extra: (String, Json), i: int, key: Seq<char>)
    requires
        0 <= i <= fields.len(),
    ensures
        no_key_before(fields.push(extra), i, key) == no_key_before(fields, i, key),
    decreases i,
{
    if i > 0 {
        lemma_no_key_before_push(fields, extra, i - 1, key);
    }
}

proof fn lemma_member_error_push_from(
    fields: Seq<(String, Json)>,
    extra: (String, Json),
    check: spec_fn(Seq<char>, Json) -> Option<Option<DecodeError>>,
    i: int,
)
    requires
        0 <= i <= fields.len(),
        check(extra.0@, extra.1) is None,
    ensures
        member_error(fields.push(extra), check, i) == member_error(fields, check, i),
    decreases fields.len() - i,
{
    let more = fields.push(extra);
    if i == fields.len() {
        assert(more[i] == extra);
        assert(member_error(more, check, i + 1) is None);
    } else {
        lemma_member_error_push_from(fields, extra, check, i + 1);
        assert(more[i] == fields[i]);
        lemma_no_key_before_push(fields, extra, i, fields[i].0@);
    }
}

/// An appended member whose key names no field of the struct changes
/// nothing in the reading of an object's members.
pub proof fn lemma_member_error_push(
    fields: Seq<(String, Json)>,
    extra: (String, Json),
    check: spec_fn(Seq<char>, Json) -> Option<Option<DecodeError>>,
)
    requires
        check(extra.0@, extra.1) is None,
    ensures
        member_error(fields.push(extra), check, 0) == member_error(fields, check, 0),
{
    lemma_member_error_push_from(fields, extra, check, 0);
}

/// Where reading the members from position `i` on meets no error, every
/// member from there whose key names a field decodes as that field, and
/// its key is met there for the first time.
pub proof fn lemma_member_error_none(
    fields: Seq<(String, Json)>,
    check: spec_fn(Seq<char>, Json) -> Option<Option<DecodeError>>,
    i: int,
    b: int,
)
    requires
        0 <= i <= b < fields.len(),
        member_error(fields, check, i) is None,
        check(fields[b].0@, fields[b].1) is Some,
    ensures
        check(fields[b].0@, fields[b].1) == Some(None::<DecodeError>),
        no_key_before(fields, b, fields[b].0@),
    decreases b - i,
{
    if i < b {
        lemma_member_error_none(fields, check, i + 1, b);
    }
}

/// The member found for `key` stands at some position of `fields`.
pub proof fn lemma_member_position(fields: Seq<(String, Json)>, key: Seq<char>) -> (b: int)
    requires
        member(fields, key) is Some,
    ensures
        0 <= b < fields.len(),
        fields[b].0@ == key,
        fields[b].1 == member(fields, key)->0,
    decreases fields.len(),
{
    if fields[0].0@ == key {
        0
    } else {
        let b = lemma_member_position(fields.drop_first(), key);
        b + 1
    }
}

/// Where reading the members meets no error, the member found for a key
/// that names a field decodes as that field.
pub proof fn lemma_member_decodes(
    fields: Seq<(String, Json)>,
    check: spec_fn(Seq<char>, Json) -> Option<Option<DecodeError>>,
    key: Seq<char>,
)
    requires
        member_error(fields, check, 0) is None,
        member(fields, key) is Some,
        check(key, member(fields, key)->0) is Some,
    ensures
        check(key, member(fields, key)->0) == Some(None::<DecodeError>),
{
    let b = lemma_member_position(fields, key);
    lemma_member_error_none(fields, check, 0, b);
}

/// A key met at position `j` is met again at every later position.
pub proof fn lemma_key_before(fields: Seq<(String, Json)>, j: int, i: int, key: Seq<char>)
    requires
        0 <= j < i <= fields.len(),
        fields[j].0@ == key,
    ensures
        !no_key_before(fields, i, key),
    decreases i,
{
    if j < i - 1 {
        lemma_key_before(fields, j, i - 1, key);
    }
}

/// Whether a member before position `i` has the key of member `i`.
pub(crate) fn key_seen_before(fields: &Vec<(String, Json)>, i: usize) -> (b: bool)
    requires
        i < fields@.len(),
    ensures
        b == !no_key_before(fields@, i as int, fields@[i as int].0@),
{
    let mut j: usize = 0;
    while j < i
        invariant
            j <= i < fields@.len(),
            no_key_before(fields@, j as int, fields@[i as int].0@),
        decreases i - j,
    {
        if fields[j].0 == fields[i].0 {
            proof {
                lemma_key_before(fields@, j as int, i as int, fields@[i as int].0@);
            }
            return true;
        }
        j = j + 1;
    }
    false
}

/// Reads the members of `j`, where it is an object, in their order, and
/// gives the first error met (`object_error`); `check` decides, for one
/// member, as `spec_check` states.
pub(crate) fn object_error_of<F: Fn(&str, &Json) -> Option<Option<DecodeError>>>(
    j: &Json,
    check: F,
    Ghost(spec_check): Ghost<spec_fn(Seq<char>, Json) -> Option<Option<DecodeError>>>,
) -> (r: Option<DecodeError>)
    requires
        forall|k: &str, v: &Json| #[trigger] call_requires(check, (k, v)),
        forall|k: &str, v: &Json, c: Option<Option<DecodeError>>|
            #[trigger] call_ensures(check, (k, v), c) ==> c == spec_check(k@, *v),
    ensures
        r == object_error(*j, spec_check),
{
    match j {
        Json::Object(fields) => {
            let mut i: usize = 0;
            while i < fields.len()
                invariant
                    i <= fields@.len(),
                    forall|k: &str, v: &Json| #[trigger] call_requires(check, (k, v)),
                    forall|k: &str, v: &Json, c: Option<Option<DecodeError>>|
                        #[trigger] call_ensures(check, (k, v), c) ==> c == spec_check(k@, *v),
                    object_error(*j, spec_check) == member_error(fields@, spec_check, i as int),
                    *j == Json::Object(*fields),
                decreases fields.len() - i,
            {
                let c = check(fields[i].0.as_str(), &fields[i].1);
                assert(c == spec_check(fields@[i as int].0@, fields@[i as int].1));
                if let Some(res) = c {
                    if key_seen_before(fields, i) {
                        return Some(DecodeError::DuplicateField);
                    }
                    if let Some(e) = res {
                        return Some(e);
                    }
                }
                i = i + 1;
            }
            None
        },
        _ => None,
    }
}

/// Whether the key `k` is `name`.
pub(crate) fn key_is(k: &str, name: &str) -> (b: bool)
    ensures
        b == (k@ == name@),
{
    String::from_str(k) == String::from_str(name)
}

} // verus!
