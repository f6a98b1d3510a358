//! The game's settings file (JSON): setting the FOV and gamma values.
//!
//! JSON values are described by their compact JSON text, the form that
//! `serde_json::to_string` writes; an object by its entries, from each key to
//! the compact text of its value.
use vstd::prelude::*;

verus! {

/// A JSON value of `serde_json`.
#[verifier::external_type_specification]
#[verifier::external_body]
pub struct ExJsonValue(serde_json::Value);

/// A JSON object's map of `serde_json`.
#[verifier::external_type_specification]
#[verifier::external_body]
#[verifier::reject_recursive_types(K)]
#[verifier::reject_recursive_types(V)]
pub struct ExJsonMap<K, V>(serde_json::Map<K, V>);

/// A serialization error of `serde_json`.
#[verifier::external_type_specification]
#[verifier::external_body]
pub struct ExJsonError(serde_json::Error);

/// The compact JSON text of the value that `text` parses to (`serde_json::from_str`),
/// or `None` when `text` is not JSON.
pub uninterp spec fn json_value_text(text: Seq<char>) -> Option<Seq<char>>;

/// The entries of the JSON object whose compact text is `text`: each key to the
/// compact text of its value.
pub uninterp spec fn json_object_entries(text: Seq<char>) -> Map<Seq<char>, Seq<char>>;

/// The entries that a JSON object's map holds: each key to the compact text of its value.
pub uninterp spec fn json_map_entries(m: serde_json::Map<String, serde_json::Value>) -> Map<Seq<char>, Seq<char>>;

/// The text that `serde_json::to_string` writes for the object with entries `entries`.
pub uninterp spec fn json_object_text(entries: Map<Seq<char>, Seq<char>>) -> Seq<char>;

/// A JSON value together with its compact JSON text.
pub struct JsonValue {
    value: serde_json::Value,
    text: Ghost<Seq<char>>,
}

impl View for JsonValue {
    type V = Seq<char>;

    /// The value's compact JSON text.
    closed spec fn view(&self) -> Seq<char> {
        self.text@
    }
}

/// Key of the field-of-view setting.
pub const FOV_KEY: &'static str = "FOV";

/// Key of the gamma setting.
pub const GAMMA_KEY: &'static str = "gamma";

/// `serde_json::from_str` into a `serde_json::Value`. Trusted: it succeeds
/// exactly when `text` is JSON, and the value is the one `text` parses to.
#[verifier::external_body]
fn parse_json_value(text: &str) -> (r: Option<JsonValue>)
    ensures
        r is Some <==> json_value_text(text@) is Some,
        r matches Some(v) ==> v@ == json_value_text(text@)->Some_0,
{
    match serde_json::from_str::<serde_json::Value>(text) {
        Ok(value) => Some(JsonValue { value, text: Ghost(Seq::empty()) }),
        Err(_) => None,
    }
}

/// The map of `v` when it is `serde_json::Value::Object`. Trusted: a value is an
/// object exactly when its compact text starts with `{` (no other JSON value
/// does), and the map holds that object's entries.
#[verifier::external_body]
fn json_value_object(v: JsonValue) -> (r: Option<serde_json::Map<String, serde_json::Value>>)
    ensures
        r is Some <==> (v@.len() > 0 && v@[0] == '{'),
        r matches Some(m) ==> json_map_entries(m) == json_object_entries(v@),
{
    match v.value {
        serde_json::Value::Object(m) => Some(m),
        _ => None,
    }
}

/// `serde_json::Map::insert`. Trusted: afterwards the map holds its old entries
/// with `key` bound to `value` (an old value under `key` is replaced).
#[verifier::external_body]
fn json_map_insert(m: &mut serde_json::Map<String, serde_json::Value>, key: &str, value: JsonValue)
    ensures
        json_map_entries(*final(m)) == json_map_entries(*old(m)).insert(key@, value@),
{
    m.insert(key.to_string(), value.value);
}

/// `serde_json::to_string` of the object with map `m`. Trusted: it succeeds
/// (its documentation names only a failing `Serialize` impl and non-string map
/// keys as causes of failure, and a `Value` object has neither), and the text
/// is the one written for the object's entries.
#[verifier::external_body]
fn json_object_to_string(m: serde_json::Map<String, serde_json::Value>) -> (r: Result<String, serde_json::Error>)
    ensures
        r is Ok,
        r matches Ok(text) ==> text@ == json_object_text(json_map_entries(m)),
{
    serde_json::to_string(&serde_json::Value::Object(m))
}

/// The compact text of the JSON value in `content` when it is an object.
pub open spec fn stored_object(content: Seq<char>) -> Option<Seq<char>> {
    match json_value_text(content) {
        Some(t) => if t.len() > 0 && t[0] == '{' {
            Some(t)
        } else {
            None
        },
        None => None,
    }
}

/// `entries` with `key` bound to the compact text of the value `text` parses
/// to, where `text` is given.
pub open spec fn set_entry(entries: Map<Seq<char>, Seq<char>>, key: Seq<char>, text: Option<Seq<char>>) -> Map<
    Seq<char>,
    Seq<char>,
> {
    match text {
        Some(t) => entries.insert(key, json_value_text(t)->Some_0),
        None => entries,
    }
}

/// The given value text parses, or none is given.
pub open spec fn value_ok(text: Option<Seq<char>>) -> bool {
    match text {
        Some(t) => json_value_text(t) is Some,
        None => true,
    }
}

/// The entries of the settings object in `content` after the update: the stored
/// entries, with `FOV` set to the value of `fov` and `gamma` to the value of
/// `gamma` where they are given; every other entry is kept.
pub open spec fn updated_entries(content: Seq<char>, fov: Option<Seq<char>>, gamma: Option<Seq<char>>) -> Map<
    Seq<char>,
    Seq<char>,
> {
    set_entry(
        set_entry(json_object_entries(stored_object(content)->Some_0), FOV_KEY@, fov),
        GAMMA_KEY@,
        gamma,
    )
}

/// The JSON value that `text` holds, when given.
fn parse_given(text: Option<&str>) -> (r: Option<Option<JsonValue>>)
    ensures
        r is Some <==> value_ok(match text {
            Some(t) => Some(t@),
            None => None,
        }),
        r matches Some(v) ==> (v is Some <==> text is Some),
        r matches Some(Some(v)) ==> text matches Some(t) && v@ == json_value_text(t@)->Some_0,
{
    match text {
        None => Some(None),
        Some(t) => match parse_json_value(t) {
            Some(v) => Some(Some(v)),
            None => None,
        },
    }
}

/// The text form of an optional `&str`.
pub open spec fn text_of(t: Option<&str>) -> Option<Seq<char>> {
    match t {
        Some(s) => Some(s@),
        None => None,
    }
}

/// The settings object in `content` with the FOV and gamma values set where
/// given (each as JSON text); `None` when `content` is not the JSON text of an
/// object or a given value is not JSON.
pub fn settings_with(content: &str, fov: Option<&str>, gamma: Option<&str>) -> (r: Option<
    serde_json::Map<String, serde_json::Value>,
>)
    ensures
        r is Some <==> (stored_object(content@) is Some && value_ok(text_of(fov)) && value_ok(
            text_of(gamma),
        )),
        r matches Some(m) ==> json_map_entries(m) == updated_entries(
            content@,
            text_of(fov),
            text_of(gamma),
        ),
{
    let fov_value = match parse_given(fov) {
        Some(v) => v,
        None => {
            return None;
        },
    };
    let gamma_value = match parse_given(gamma) {
        Some(v) => v,
        None => {
            return None;
        },
    };
    let stored = match parse_json_value(content) {
        Some(v) => v,
        None => {
            return None;
        },
    };
    let mut m = match json_value_object(stored) {
        Some(m) => m,
        None => {
            return None;
        },
    };
    let ghost base = json_map_entries(m);
    if let Some(v) = fov_value {
        json_map_insert(&mut m, FOV_KEY, v);
    }
    let ghost after_fov = json_map_entries(m);
    assert(after_fov == set_entry(base, FOV_KEY@, text_of(fov)));
    if let Some(v) = gamma_value {
        json_map_insert(&mut m, GAMMA_KEY, v);
    }
    Some(m)
}

/// What updating the settings text gives.
pub enum SettingsUpdate {
    /// The text is not a JSON object: the file is left as it is.
    Unchanged,
    /// A given value text is not JSON: the file is left as it is.
    InvalidValue,
    /// The new text of the settings file.
    Rewritten(String),
}

/// The settings text `content` with the FOV and gamma values set where given
/// (each given as JSON text): the text written for the updated object when
/// `content` is a JSON object, else unchanged.
pub fn update_settings(content: &str, fov: Option<&str>, gamma: Option<&str>) -> (r: SettingsUpdate)
    ensures
        r is Unchanged <==> stored_object(content@) is None,
        r is InvalidValue <==> (stored_object(content@) is Some && !(value_ok(text_of(fov))
            && value_ok(text_of(gamma)))),
        r matches SettingsUpdate::Rewritten(text) ==> text@ == json_object_text(
            updated_entries(content@, text_of(fov), text_of(gamma)),
        ),
{
    let object = match parse_json_value(content) {
        Some(v) => json_value_object(v),
        None => None,
    };
    if object.is_none() {
        return SettingsUpdate::Unchanged;
    }
    match settings_with(content, fov, gamma) {
        None => SettingsUpdate::InvalidValue,
        Some(m) => match json_object_to_string(m) {
            Ok(text) => SettingsUpdate::Rewritten(text),
            Err(_) => SettingsUpdate::InvalidValue,
        },
    }
}

/// Updating settings whose written text reads back as the entries it was written
/// from changes nothing the second time: the same text is written again.
pub proof fn lemma_update_settles(content: Seq<char>, fov: Option<Seq<char>>, gamma: Option<Seq<char>>)
    requires
        stored_object(content) is Some,
        value_ok(fov),
        value_ok(gamma),
        ({
            let written = json_object_text(updated_entries(content, fov, gamma));
            &&& stored_object(written) is Some
            &&& json_object_entries(stored_object(written)->Some_0) == updated_entries(content, fov, gamma)
        }),
    ensures
        ({
            let written = json_object_text(updated_entries(content, fov, gamma));
            &&& json_object_text(updated_entries(written, fov, gamma)) == written
            &&& fov matches Some(f) ==> updated_entries(written, fov, gamma)[FOV_KEY@] == json_value_text(f)->Some_0
            &&& gamma matches Some(g) ==> updated_entries(written, fov, gamma)[GAMMA_KEY@] == json_value_text(g)->Some_0
        }),
{
    let e = updated_entries(content, fov, gamma);
    let written = json_object_text(e);
    reveal_strlit("FOV");
    reveal_strlit("gamma");
    assert(FOV_KEY@ != GAMMA_KEY@) by {
        assert(FOV_KEY@.len() != GAMMA_KEY@.len());
    }
    assert(updated_entries(written, fov, gamma) =~= e);
}

} // verus!
