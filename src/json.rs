//! The OpenRouter key in the auth file of OpenCode.
use vstd::prelude::*;
use crate::chars::str_equals;
use crate::config::{trim, trim_of};

verus! {

broadcast use vstd::std_specs::vec::group_vec_axioms, vstd::seq::group_seq_axioms;

/// A JSON document as far as the search for a stored key reads it; numbers
/// are not read, so they carry no value.
#[derive(Debug)]
pub enum JsonValue {
    Null,
    Bool(bool),
    Number,
    Str(String),
    Array(Vec<JsonValue>),
    /// Members in document order, each name at most once.
    Object(Vec<(String, JsonValue)>),
}

/// Index of the first member named `k` at or after `i`.
pub open spec fn find_from(obj: Seq<(String, JsonValue)>, k: Seq<char>, i: int) -> Option<int>
    decreases obj.len() - i,
{
    if i < 0 || i >= obj.len() {
        None
    } else if obj[i].0@ == k {
        Some(i)
    } else {
        find_from(obj, k, i + 1)
    }
}

pub open spec fn find(obj: Seq<(String, JsonValue)>, k: Seq<char>) -> Option<int> {
    find_from(obj, k, 0)
}

proof fn lemma_find_from_in_range(obj: Seq<(String, JsonValue)>, k: Seq<char>, i: int)
    ensures
        find_from(obj, k, i) matches Some(j) ==> 0 <= j < obj.len() && obj[j].0@ == k,
    decreases obj.len() - i,
{
    if 0 <= i < obj.len() && obj[i].0@ != k {
        lemma_find_from_in_range(obj, k, i + 1);
    }
}

/// Index of the member named `k`, if any.
fn find_member(obj: &Vec<(String, JsonValue)>, k: &str) -> (r: Option<usize>)
    ensures
        r matches Some(i) ==> find(obj@, k@) == Some(i as int),
        r is None ==> find(obj@, k@) is None,
        r matches Some(i) ==> i < obj@.len(),
{
    let mut i: usize = 0;
    while i < obj.len()
        invariant
            i <= obj@.len(),
            find(obj@, k@) == find_from(obj@, k@, i as int),
        decreases obj@.len() - i,
    {
        if str_equals(obj[i].0.as_str(), k) {
            return Some(i);
        }
        i = i + 1;
    }
    None
}

/// The trimmed text of the member named `name` where it is a string that is
/// not blank.
pub open spec fn text_member(obj: Seq<(String, JsonValue)>, name: Seq<char>) -> Option<Seq<char>> {
    match find(obj, name) {
        Some(i) => match obj[i].1 {
            JsonValue::Str(v) => if trim_of(v@).len() > 0 {
                Some(trim_of(v@))
            } else {
                None
            },
            _ => None,
        },
        None => None,
    }
}

pub open spec fn or_else(a: Option<Seq<char>>, b: Option<Seq<char>>) -> Option<Seq<char>> {
    if a is Some {
        a
    } else {
        b
    }
}

/// The key of an object: the first of its members `api_key`, `apiKey`,
/// `key` and `token` that is a string that is not blank, trimmed; else the
/// key of its `credentials` object.
pub open spec fn key_from_object_spec(obj: Seq<(String, JsonValue)>) -> Option<Seq<char>>
    decreases obj,
{
    let direct = or_else(
        or_else(text_member(obj, "api_key"@), text_member(obj, "apiKey"@)),
        or_else(text_member(obj, "key"@), text_member(obj, "token"@)),
    );
    if direct is Some {
        direct
    } else {
        match find(obj, "credentials"@) {
            Some(i) => if 0 <= i < obj.len() {
                match obj[i].1 {
                    JsonValue::Object(c) => key_from_object_spec(c@),
                    _ => None,
                }
            } else {
                None
            },
            None => None,
        }
    }
}

fn text_member_of(obj: &Vec<(String, JsonValue)>, name: &str) -> (r: Option<String>)
    ensures
        r matches Some(s) ==> text_member(obj@, name@) == Some(s@),
        r is None ==> text_member(obj@, name@) is None,
{
    match find_member(obj, name) {
        Some(i) => match &obj[i].1 {
            JsonValue::Str(v) => {
                let t = trim(v.as_str());
                if t.unicode_len() > 0 {
                    Some(String::from_str(t))
                } else {
                    None
                }
            },
            _ => None,
        },
        None => None,
    }
}

pub fn extract_key_from_object(obj: &Vec<(String, JsonValue)>) -> (r: Option<String>)
    ensures
        r matches Some(s) ==> key_from_object_spec(obj@) == Some(s@),
        r is None ==> key_from_object_spec(obj@) is None,
    decreases obj@,
{
    proof {
        reveal_strlit("api_key");
        reveal_strlit("apiKey");
        reveal_strlit("key");
        reveal_strlit("token");
        reveal_strlit("credentials");
    }
    if let Some(k) = text_member_of(obj, "api_key") {
        return Some(k);
    }
    if let Some(k) = text_member_of(obj, "apiKey") {
        return Some(k);
    }
    if let Some(k) = text_member_of(obj, "key") {
        return Some(k);
    }
    if let Some(k) = text_member_of(obj, "token") {
        return Some(k);
    }
    if let Some(i) = find_member(obj, "credentials") {
        if let JsonValue::Object(creds) = &obj[i].1 {
            assert(decreases_to!(obj@ => creds@)) by {
                assert(decreases_to!(obj@ => obj@[i as int]));
                assert(decreases_to!(obj@[i as int] => obj@[i as int].1));
            }
            return extract_key_from_object(creds);
        }
    }
    None
}

/// A character with ASCII capitals folded to lower case.
pub open spec fn ascii_folded(c: char) -> int {
    if 65 <= (c as u32) <= 90 {
        (c as u32) + 32
    } else {
        c as u32 as int
    }
}

/// Equality of two strings up to the case of ASCII letters.
pub open spec fn eq_ignore_ascii_case_spec(a: Seq<char>, b: Seq<char>) -> bool {
    a.len() == b.len() && forall|i: int| 0 <= i < a.len() ==> ascii_folded(a[i]) == ascii_folded(b[i])
}

fn fold_char(c: char) -> (r: u32)
    ensures
        r as int == ascii_folded(c),
{
    let u = c as u32;
    if 65 <= u && u <= 90 {
        u + 32
    } else {
        u
    }
}

pub fn eq_ignore_ascii_case(a: &str, b: &str) -> (r: bool)
    ensures
        r == eq_ignore_ascii_case_spec(a@, b@),
{
    let n = a.unicode_len();
    if n != b.unicode_len() {
        return false;
    }
    let mut i: usize = 0;
    while i < n
        invariant
            n == a@.len(),
            n == b@.len(),
            i <= n,
            forall|k: int| 0 <= k < i ==> ascii_folded(a@[k]) == ascii_folded(b@[k]),
        decreases n - i,
    {
        if fold_char(a.get_char(i)) != fold_char(b.get_char(i)) {
            return false;
        }
        i = i + 1;
    }
    true
}

pub open spec fn member_names_openrouter(obj: Seq<(String, JsonValue)>, name: Seq<char>) -> bool {
    match find(obj, name) {
        Some(i) => match obj[i].1 {
            JsonValue::Str(v) => eq_ignore_ascii_case_spec(v@, "openrouter"@),
            _ => false,
        },
        None => false,
    }
}

/// An entry of a list of providers is that of OpenRouter where its
/// `provider`, `name` or `id` says so, in any case.
pub open spec fn is_openrouter_entry_spec(obj: Seq<(String, JsonValue)>) -> bool {
    member_names_openrouter(obj, "provider"@) || member_names_openrouter(obj, "name"@)
        || member_names_openrouter(obj, "id"@)
}

fn member_names_openrouter_of(obj: &Vec<(String, JsonValue)>, name: &str) -> (r: bool)
    ensures
        r == member_names_openrouter(obj@, name@),
{
    match find_member(obj, name) {
        Some(i) => match &obj[i].1 {
            JsonValue::Str(v) => eq_ignore_ascii_case(v.as_str(), "openrouter"),
            _ => false,
        },
        None => false,
    }
}

pub fn is_openrouter_entry(obj: &Vec<(String, JsonValue)>) -> (r: bool)
    ensures
        r == is_openrouter_entry_spec(obj@),
{
    proof {
        reveal_strlit("provider");
        reveal_strlit("name");
        reveal_strlit("id");
    }
    member_names_openrouter_of(obj, "provider") || member_names_openrouter_of(obj, "name")
        || member_names_openrouter_of(obj, "id")
}

/// The key of a provider entry: that of the entry itself, else that of its
/// `auth` object.
pub open spec fn key_from_provider_spec(v: JsonValue) -> Option<Seq<char>> {
    match v {
        JsonValue::Object(o) => or_else(
            key_from_object_spec(o@),
            match find(o@, "auth"@) {
                Some(i) => match o@[i].1 {
                    JsonValue::Object(a) => key_from_object_spec(a@),
                    _ => None,
                },
                None => None,
            },
        ),
        _ => None,
    }
}

pub fn extract_key_from_provider(value: &JsonValue) -> (r: Option<String>)
    ensures
        r matches Some(s) ==> key_from_provider_spec(*value) == Some(s@),
        r is None ==> key_from_provider_spec(*value) is None,
{
    proof {
        reveal_strlit("auth");
    }
    if let JsonValue::Object(obj) = value {
        if let Some(key) = extract_key_from_object(obj) {
            return Some(key);
        }
        if let Some(i) = find_member(obj, "auth") {
            if let JsonValue::Object(auth) = &obj[i].1 {
                return extract_key_from_object(auth);
            }
        }
    }
    None
}

/// The key of an entry of a list: only an OpenRouter entry has one.
pub open spec fn entry_key_spec(p: JsonValue) -> Option<Seq<char>> {
    match p {
        JsonValue::Object(e) => if is_openrouter_entry_spec(e@) {
            or_else(key_from_object_spec(e@), key_from_provider_spec(p))
        } else {
            None
        },
        _ => None,
    }
}

/// The key of the first entry from index `i` on that has one.
pub open spec fn first_entry_key(list: Seq<JsonValue>, i: int) -> Option<Seq<char>>
    decreases list.len() - i,
{
    if i < 0 || i >= list.len() {
        None
    } else {
        or_else(entry_key_spec(list[i]), first_entry_key(list, i + 1))
    }
}

fn first_entry_key_of(list: &Vec<JsonValue>) -> (r: Option<String>)
    ensures
        r matches Some(s) ==> first_entry_key(list@, 0) == Some(s@),
        r is None ==> first_entry_key(list@, 0) is None,
{
    let mut i: usize = 0;
    while i < list.len()
        invariant
            i <= list@.len(),
            first_entry_key(list@, 0) == first_entry_key(list@, i as int),
        decreases list@.len() - i,
    {
        if let JsonValue::Object(entry) = &list[i] {
            if is_openrouter_entry(entry) {
                if let Some(key) = extract_key_from_object(entry) {
                    return Some(key);
                }
                if let Some(key) = extract_key_from_provider(&list[i]) {
                    return Some(key);
                }
            }
        }
        i = i + 1;
    }
    None
}

/// The OpenRouter key of an auth file: under `providers.openrouter`, else
/// under `openrouter`, else in the first OpenRouter entry of a `providers`
/// list; where the document is itself a list, in its first OpenRouter entry.
pub open spec fn openrouter_key_spec(v: JsonValue) -> Option<Seq<char>> {
    match v {
        JsonValue::Object(obj) => {
            let nested = match find(obj@, "providers"@) {
                Some(i) => match obj@[i].1 {
                    JsonValue::Object(ps) => match find(ps@, "openrouter"@) {
                        Some(j) => key_from_provider_spec(ps@[j].1),
                        None => None,
                    },
                    _ => None,
                },
                None => None,
            };
            let top = match find(obj@, "openrouter"@) {
                Some(i) => key_from_provider_spec(obj@[i].1),
                None => None,
            };
            let listed = match find(obj@, "providers"@) {
                Some(i) => match obj@[i].1 {
                    JsonValue::Array(list) => first_entry_key(list@, 0),
                    _ => None,
                },
                None => None,
            };
            or_else(nested, or_else(top, listed))
        },
        JsonValue::Array(items) => first_entry_key(items@, 0),
        _ => None,
    }
}

pub fn extract_openrouter_key_from_value(value: &JsonValue) -> (r: Option<String>)
    ensures
        r matches Some(s) ==> openrouter_key_spec(*value) == Some(s@),
        r is None ==> openrouter_key_spec(*value) is None,
{
    proof {
        reveal_strlit("providers");
        reveal_strlit("openrouter");
    }
    if let JsonValue::Object(obj) = value {
        if let Some(i) = find_member(obj, "providers") {
            if let JsonValue::Object(providers) = &obj[i].1 {
                if let Some(j) = find_member(providers, "openrouter") {
                    if let Some(key) = extract_key_from_provider(&providers[j].1) {
                        return Some(key);
                    }
                }
            }
        }
        if let Some(i) = find_member(obj, "openrouter") {
            if let Some(key) = extract_key_from_provider(&obj[i].1) {
                return Some(key);
            }
        }
        if let Some(i) = find_member(obj, "providers") {
            if let JsonValue::Array(providers) = &obj[i].1 {
                return first_entry_key_of(providers);
            }
        }
        return None;
    }
    if let JsonValue::Array(items) = value {
        return first_entry_key_of(items);
    }
    None
}

} // verus!
