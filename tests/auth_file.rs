use bpesc_balance::json::{
    eq_ignore_ascii_case, extract_key_from_object, extract_key_from_provider,
    extract_openrouter_key_from_value, is_openrouter_entry, JsonValue,
};

fn s(v: &str) -> JsonValue {
    JsonValue::Str(v.to_string())
}

fn obj(members: Vec<(&str, JsonValue)>) -> JsonValue {
    JsonValue::Object(members.into_iter().map(|(k, v)| (k.to_string(), v)).collect())
}

fn members(v: &JsonValue) -> &Vec<(String, JsonValue)> {
    match v {
        JsonValue::Object(m) => m,
        _ => panic!("not an object"),
    }
}

#[test]
fn key_fields_in_order() {
    let o = obj(vec![("token", s("tok")), ("key", s("  ")), ("apiKey", s(" sk-a "))]);
    assert_eq!(extract_key_from_object(members(&o)).as_deref(), Some("sk-a"));
    let o = obj(vec![("token", s("tok")), ("key", s("  "))]);
    assert_eq!(extract_key_from_object(members(&o)).as_deref(), Some("tok"));
    let o = obj(vec![("credentials", obj(vec![("api_key", s("sk-c"))])), ("key", JsonValue::Number)]);
    assert_eq!(extract_key_from_object(members(&o)).as_deref(), Some("sk-c"));
    let o = obj(vec![("other", s("x"))]);
    assert_eq!(extract_key_from_object(members(&o)), None);
}

#[test]
fn provider_entries() {
    assert!(eq_ignore_ascii_case("OpenRouter", "openrouter"));
    assert!(!eq_ignore_ascii_case("OpenRouters", "openrouter"));
    let e = obj(vec![("name", s("OPENROUTER"))]);
    assert!(is_openrouter_entry(members(&e)));
    let e = obj(vec![("name", s("anthropic")), ("id", JsonValue::Bool(true))]);
    assert!(!is_openrouter_entry(members(&e)));
    let p = obj(vec![("type", s("api")), ("auth", obj(vec![("key", s("sk-auth"))]))]);
    assert_eq!(extract_key_from_provider(&p).as_deref(), Some("sk-auth"));
    assert_eq!(extract_key_from_provider(&JsonValue::Null), None);
}

#[test]
fn auth_file_layouts() {
    let nested = obj(vec![("providers", obj(vec![("openrouter", obj(vec![("key", s("sk-nested"))]))]))]);
    assert_eq!(extract_openrouter_key_from_value(&nested).as_deref(), Some("sk-nested"));
    let top = obj(vec![("openrouter", obj(vec![("type", s("api")), ("key", s("sk-top"))]))]);
    assert_eq!(extract_openrouter_key_from_value(&top).as_deref(), Some("sk-top"));
    let listed = obj(vec![(
        "providers",
        JsonValue::Array(vec![
            obj(vec![("id", s("other")), ("key", s("sk-wrong"))]),
            obj(vec![("provider", s("openrouter")), ("auth", obj(vec![("token", s("sk-list"))]))]),
        ]),
    )]);
    assert_eq!(extract_openrouter_key_from_value(&listed).as_deref(), Some("sk-list"));
    let array = JsonValue::Array(vec![s("x"), obj(vec![("name", s("OpenRouter")), ("apiKey", s("sk-arr"))])]);
    assert_eq!(extract_openrouter_key_from_value(&array).as_deref(), Some("sk-arr"));
    assert_eq!(extract_openrouter_key_from_value(&obj(vec![("anthropic", obj(vec![("key", s("k"))]))])), None);
}
