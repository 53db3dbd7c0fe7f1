use vstd::prelude::*;

verus! {

/// A parsed document of serde_json, or a part of one.
#[verifier::external_type_specification]
#[verifier::external_body]
pub struct ExJsonValue(serde_json::Value);

/// The document that serde_json reads from `text`, or `None` where it
/// refuses the text.
pub uninterp spec fn json_document(text: Seq<char>) -> Option<serde_json::Value>;

/// The member of the object `value` under `key`; `None` where `value` is no
/// object or has no such member.
pub uninterp spec fn json_member(value: serde_json::Value, key: Seq<char>) -> Option<
    serde_json::Value,
>;

/// The elements of the array `value`; `None` where `value` is no array.
pub uninterp spec fn json_elements(value: serde_json::Value) -> Option<Seq<serde_json::Value>>;

/// The text of the string `value`; `None` where `value` is no string.
pub uninterp spec fn json_text(value: serde_json::Value) -> Option<Seq<char>>;

/// The number `value` as an integer of 64 bits; `None` where `value` is no
/// number, or not a whole one, or does not fit.
pub uninterp spec fn json_integer(value: serde_json::Value) -> Option<i64>;

/// Whether `value` is `null`.
pub uninterp spec fn json_is_null(value: serde_json::Value) -> bool;

/// Whether `value` is an object.
pub uninterp spec fn json_is_object(value: serde_json::Value) -> bool;

/// Calls `serde_json::from_str` for a `serde_json::Value`. Where serde_json
/// refuses the text, what it says of the failure comes back as a text: the
/// class of the failure, the line and the column.
#[verifier::external_body]
pub(crate) fn parse_document(text: &str) -> (document: Result<serde_json::Value, String>)
    ensures
        document matches Ok(value) ==> json_document(text@) == Some(value),
        document is Err ==> json_document(text@) is None,
{
    match serde_json::from_str::<serde_json::Value>(text) {
        Ok(value) => Ok(value),
        Err(e) => Err(
            format!(
                "Failed to deserialize json {:#?} at line, col {},{}",
                e.classify(),
                e.line(),
                e.column()
            ),
        ),
    }
}

/// Calls `serde_json::Value::get` with a text as the index: the member of
/// an object under that key.
#[verifier::external_body]
pub(crate) fn member<'a>(value: &'a serde_json::Value, key: &str) -> (found: Option<
    &'a serde_json::Value,
>)
    ensures
        found matches Some(v) ==> json_member(*value, key@) == Some(*v),
        found is None ==> json_member(*value, key@) is None,
{
    value.get(key)
}

/// Calls `serde_json::Value::as_array`: the elements of an array.
#[verifier::external_body]
pub(crate) fn elements<'a>(value: &'a serde_json::Value) -> (found: Option<
    &'a Vec<serde_json::Value>,
>)
    ensures
        found matches Some(v) ==> json_elements(*value) == Some(v@),
        found is None ==> json_elements(*value) is None,
{
    value.as_array()
}

/// Calls `serde_json::Value::as_str`: the text of a string.
#[verifier::external_body]
pub(crate) fn text_of<'a>(value: &'a serde_json::Value) -> (found: Option<&'a str>)
    ensures
        found matches Some(t) ==> json_text(*value) == Some(t@),
        found is None ==> json_text(*value) is None,
{
    value.as_str()
}

/// Calls `serde_json::Value::as_i64`: a whole number that fits 64 bits.
#[verifier::external_body]
pub(crate) fn integer_of(value: &serde_json::Value) -> (found: Option<i64>)
    ensures
        found == json_integer(*value),
{
    value.as_i64()
}

/// Calls `serde_json::Value::is_null`.
#[verifier::external_body]
pub(crate) fn is_null(value: &serde_json::Value) -> (null: bool)
    ensures
        null == json_is_null(*value),
{
    value.is_null()
}

/// Calls `serde_json::Value::is_object`.
#[verifier::external_body]
pub(crate) fn is_object(value: &serde_json::Value) -> (object: bool)
    ensures
        object == json_is_object(*value),
{
    value.is_object()
}

/// The views of `items`, in their order.
pub open spec fn views<T: View>(items: Seq<T>) -> Seq<T::V> {
    items.map_values(|item: T| item@)
}

/// The view of an optional value.
pub open spec fn option_view<T: View>(value: Option<T>) -> Option<T::V> {
    match value {
        Some(v) => Some(v@),
        None => None,
    }
}

/// The views of optional values.
pub open spec fn option_views<T: View>(items: Option<Vec<T>>) -> Option<Seq<T::V>> {
    match items {
        Some(v) => Some(views(v@)),
        None => None,
    }
}

/// A part of a document that is read from the value that stands for it.
pub trait FromJson: View + Sized {
    /// What `value` reads as; `None` where it does not have the form of
    /// this part.
    spec fn from_json_spec(value: serde_json::Value) -> Option<Self::V>;

    /// Reads `value`.
    fn from_json(value: &serde_json::Value) -> (read: Option<Self>)
        ensures
            option_view(read) == Self::from_json_spec(*value),
    ;
}

/// The member under `key`, unless it is missing or `null`.
pub open spec fn present_member(object: serde_json::Value, key: Seq<char>) -> Option<
    serde_json::Value,
> {
    match json_member(object, key) {
        Some(m) => if json_is_null(m) {
            None
        } else {
            Some(m)
        },
        None => None,
    }
}

/// The text under `key`, which must be there.
pub open spec fn required_text(object: serde_json::Value, key: Seq<char>) -> Option<Seq<char>> {
    match json_member(object, key) {
        Some(m) => json_text(m),
        None => None,
    }
}

/// The text under `key`, which may be missing or `null`. `None` where there
/// is something else than a text.
pub open spec fn optional_text(object: serde_json::Value, key: Seq<char>) -> Option<
    Option<Seq<char>>,
> {
    match present_member(object, key) {
        None => Some(None),
        Some(m) => match json_text(m) {
            Some(t) => Some(Some(t)),
            None => None,
        },
    }
}

/// The integer under `key`, which must be there.
pub open spec fn required_integer(object: serde_json::Value, key: Seq<char>) -> Option<i64> {
    match json_member(object, key) {
        Some(m) => json_integer(m),
        None => None,
    }
}

/// The part under `key`, which must be there.
pub open spec fn required_part<T: FromJson>(object: serde_json::Value, key: Seq<char>) -> Option<
    T::V,
> {
    match json_member(object, key) {
        Some(m) => T::from_json_spec(m),
        None => None,
    }
}

/// The part under `key`, which may be missing or `null`. `None` where what
/// is there does not have the form of the part.
pub open spec fn optional_part<T: FromJson>(object: serde_json::Value, key: Seq<char>) -> Option<
    Option<T::V>,
> {
    match present_member(object, key) {
        None => Some(None),
        Some(m) => match T::from_json_spec(m) {
            Some(part) => Some(Some(part)),
            None => None,
        },
    }
}

/// What `items` read as, each as a part; `None` where one of them does not
/// have the form.
pub open spec fn read_all<T: FromJson>(items: Seq<serde_json::Value>) -> Option<Seq<T::V>> {
    if forall|i: int| 0 <= i < items.len() ==> (#[trigger] T::from_json_spec(items[i])) is Some {
        Some(Seq::new(items.len(), |i: int| T::from_json_spec(items[i])->0))
    } else {
        None
    }
}

/// What the array `value` reads as, each element as a part.
pub open spec fn read_array<T: FromJson>(value: serde_json::Value) -> Option<Seq<T::V>> {
    match json_elements(value) {
        Some(items) => read_all::<T>(items),
        None => None,
    }
}

/// The array under `key`, which must be there.
pub open spec fn required_array<T: FromJson>(object: serde_json::Value, key: Seq<char>) -> Option<
    Seq<T::V>,
> {
    match json_member(object, key) {
        Some(m) => read_array::<T>(m),
        None => None,
    }
}

/// Reads the member under `key`, unless it is missing or `null`.
pub fn get_present<'a>(object: &'a serde_json::Value, key: &str) -> (found: Option<
    &'a serde_json::Value,
>)
    ensures
        match found {
            Some(m) => present_member(*object, key@) == Some(*m),
            None => present_member(*object, key@) is None,
        },
{
    match member(object, key) {
        Some(m) => if is_null(m) {
            None
        } else {
            Some(m)
        },
        None => None,
    }
}

/// Reads the text under `key`, which must be there.
pub fn get_text(object: &serde_json::Value, key: &str) -> (found: Option<String>)
    ensures
        option_view(found) == required_text(*object, key@),
{
    match member(object, key) {
        Some(m) => match text_of(m) {
            Some(t) => Some(t.to_owned()),
            None => None,
        },
        None => None,
    }
}

/// Reads the text under `key`, which may be missing or `null`.
pub fn get_optional_text(object: &serde_json::Value, key: &str) -> (found: Option<Option<String>>)
    ensures
        match found {
            Some(t) => optional_text(*object, key@) == Some(option_view(t)),
            None => optional_text(*object, key@) is None,
        },
{
    match get_present(object, key) {
        None => Some(None),
        Some(m) => match text_of(m) {
            Some(t) => Some(Some(t.to_owned())),
            None => None,
        },
    }
}

/// Reads the integer under `key`, which must be there.
pub fn get_integer(object: &serde_json::Value, key: &str) -> (found: Option<i64>)
    ensures
        found == required_integer(*object, key@),
{
    match member(object, key) {
        Some(m) => integer_of(m),
        None => None,
    }
}

/// Reads the part under `key`, which must be there.
pub fn get_part<T: FromJson>(object: &serde_json::Value, key: &str) -> (found: Option<T>)
    ensures
        option_view(found) == required_part::<T>(*object, key@),
{
    match member(object, key) {
        Some(m) => T::from_json(m),
        None => None,
    }
}

/// Reads the part under `key`, which may be missing or `null`.
pub fn get_optional_part<T: FromJson>(object: &serde_json::Value, key: &str) -> (found: Option<
    Option<T>,
>)
    ensures
        match found {
            Some(part) => optional_part::<T>(*object, key@) == Some(option_view(part)),
            None => optional_part::<T>(*object, key@) is None,
        },
{
    match get_present(object, key) {
        None => Some(None),
        Some(m) => match T::from_json(m) {
            Some(part) => Some(Some(part)),
            None => None,
        },
    }
}

/// Reads the elements of the array `value`, each as a part.
pub fn get_elements<T: FromJson>(value: &serde_json::Value) -> (found: Option<Vec<T>>)
    ensures
        option_views(found) == read_array::<T>(*value),
{
    let items = match elements(value) {
        Some(items) => items,
        None => {
            return None;
        },
    };
    let mut parts: Vec<T> = Vec::new();
    let mut i: usize = 0;
    while i < items.len()
        invariant
            i <= items.len(),
            parts.len() == i,
            json_elements(*value) == Some(items@),
            forall|j: int| 0 <= j < i ==> T::from_json_spec(items@[j]) == Some(#[trigger] parts@[j]@),
        decreases items.len() - i,
    {
        match T::from_json(&items[i]) {
            Some(part) => {
                parts.push(part);
            },
            None => {
                return None;
            },
        }
        i = i + 1;
    }
    proof {
        let read = Seq::new(items@.len(), |j: int| T::from_json_spec(items@[j])->0);
        assert forall|j: int| 0 <= j < items@.len() implies (#[trigger] T::from_json_spec(
            items@[j],
        )) is Some by {
            assert(T::from_json_spec(items@[j]) == Some(parts@[j]@));
        }
        assert(views(parts@) =~= read) by {
            assert forall|j: int| 0 <= j < parts@.len() implies views(parts@)[j] == read[j] by {
                assert(T::from_json_spec(items@[j]) == Some(parts@[j]@));
            }
        }
    }
    Some(parts)
}

/// Reads the array under `key`, which must be there.
pub fn get_array<T: FromJson>(object: &serde_json::Value, key: &str) -> (found: Option<Vec<T>>)
    ensures
        option_views(found) == required_array::<T>(*object, key@),
{
    match member(object, key) {
        Some(m) => get_elements::<T>(m),
        None => None,
    }
}

} // verus!
