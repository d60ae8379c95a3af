use ai_tools_lib_rust::json::{JsonNumber, JsonValue};
use ai_tools_lib_rust::pydantic_helper::{
    apply_exclude, build_exclude_dict, gated_serializer, is_field_skipped, SkipJsonSchema,
};

fn text(s: &str) -> JsonValue {
    JsonValue::String(s.to_string())
}

fn object(entries: Vec<(&str, JsonValue)>) -> JsonValue {
    JsonValue::Object(entries.into_iter().map(|(k, v)| (k.to_string(), v)).collect())
}

fn get<'a>(v: &'a JsonValue, k: &str) -> Option<&'a JsonValue> {
    v.get(k)
}

fn has_key(v: &JsonValue, k: &str) -> bool {
    match v {
        JsonValue::Object(entries) => entries.iter().any(|(key, _)| key == k),
        _ => false,
    }
}

struct SecretConfig {
    api_key: String,
    timeout: u32,
}

impl SkipJsonSchema for SecretConfig {
    fn skip_json_schema_fields(&self) -> Option<JsonValue> {
        Some(object(vec![("api_key", JsonValue::Bool(true))]))
    }
}

impl SecretConfig {
    fn serialized(&self) -> JsonValue {
        object(vec![
            ("api_key", text(&self.api_key)),
            ("timeout", JsonValue::Number(JsonNumber::PosInt(self.timeout as u64))),
        ])
    }
}

struct User {
    username: String,
    password_hash: String,
}

impl SkipJsonSchema for User {
    fn skip_json_schema_fields(&self) -> Option<JsonValue> {
        Some(object(vec![("password_hash", JsonValue::Bool(true))]))
    }
}

impl User {
    fn serialized(&self) -> JsonValue {
        object(vec![("username", text(&self.username)), ("password_hash", text(&self.password_hash))])
    }
}

struct Group {
    name: String,
    admin: User,
    members: Vec<User>,
    config: SecretConfig,
}

impl SkipJsonSchema for Group {
    fn skip_json_schema_fields(&self) -> Option<JsonValue> {
        let mut map = Vec::new();
        if let Some(admin_map) = self.admin.skip_json_schema_fields() {
            map.push(("admin".to_string(), admin_map));
        }
        if let Some(members_map) = self.members.skip_json_schema_fields() {
            map.push(("members".to_string(), members_map));
        }
        if let Some(config_map) = self.config.skip_json_schema_fields() {
            map.push(("config".to_string(), config_map));
        }
        if map.is_empty() {
            None
        } else {
            Some(JsonValue::Object(map))
        }
    }
}

impl Group {
    fn serialized(&self) -> JsonValue {
        object(vec![
            ("name", text(&self.name)),
            ("admin", self.admin.serialized()),
            ("members", JsonValue::Array(self.members.iter().map(|m| m.serialized()).collect())),
            ("config", self.config.serialized()),
        ])
    }
}

#[test]
fn gated_serializer_respects_skip_fields() {
    let admin = User { username: "admin".into(), password_hash: "secret".into() };
    let member = User { username: "guest".into(), password_hash: "guest".into() };
    let config = SecretConfig { api_key: "sk-123".into(), timeout: 30 };
    let group = Group { name: "Team".into(), admin, members: vec![member], config };

    let ungated = gated_serializer(&group, group.serialized(), false);
    assert!(get(&ungated, "admin").is_some());
    assert!(get(&ungated, "config").is_some());

    let gated = gated_serializer(&group, group.serialized(), true);
    let admin = get(&gated, "admin").unwrap();
    assert!(!has_key(admin, "password_hash"));
    assert!(has_key(get(&gated, "config").unwrap(), "timeout"));
}

#[test]
fn build_exclude_dict_detects_nested_skips() {
    let user = User { username: "user".into(), password_hash: "hash".into() };
    let exclude = build_exclude_dict(&user).expect("exclude");
    assert!(is_field_skipped(Some(&exclude), "password_hash"));
}

#[test]
fn list_rules_are_keyed_by_index_and_reach_the_elements() {
    let members = vec![
        User { username: "a".into(), password_hash: "x".into() },
        User { username: "b".into(), password_hash: "y".into() },
    ];
    let rules = members.skip_json_schema_fields().expect("rules");
    assert!(get(&rules, "0").is_some());
    assert!(get(&rules, "1").is_some());
    let mut serialized = JsonValue::Array(members.iter().map(|m| m.serialized()).collect());
    apply_exclude(&mut serialized, &rules);
    match &serialized {
        JsonValue::Array(items) => {
            assert_eq!(items.len(), 2);
            for item in items {
                assert!(has_key(item, "username"));
                assert!(!has_key(item, "password_hash"));
            }
        },
        _ => panic!("not an array"),
    }
}

#[test]
fn a_true_rule_on_an_array_element_nulls_it() {
    let mut target = JsonValue::Array(vec![text("a"), text("b")]);
    let rules = object(vec![("1", JsonValue::Bool(true)), ("7", JsonValue::Bool(true)), ("x", JsonValue::Bool(true))]);
    apply_exclude(&mut target, &rules);
    match &target {
        JsonValue::Array(items) => {
            assert!(matches!(items[0], JsonValue::String(ref s) if s == "a"));
            assert!(matches!(items[1], JsonValue::Null));
        },
        _ => panic!("not an array"),
    }
}

#[test]
fn an_object_emptied_by_its_rules_is_removed() {
    let mut target = object(vec![("secret", object(vec![("k", text("v"))])), ("keep", text("x"))]);
    let rules = object(vec![("secret", object(vec![("k", JsonValue::Bool(true))]))]);
    apply_exclude(&mut target, &rules);
    assert!(!has_key(&target, "secret"));
    assert!(has_key(&target, "keep"));
}

#[test]
fn false_and_other_rules_change_nothing() {
    let mut target = object(vec![("a", text("1")), ("b", text("2"))]);
    let rules = object(vec![("a", JsonValue::Bool(false)), ("b", text("yes")), ("c", JsonValue::Bool(true))]);
    apply_exclude(&mut target, &rules);
    assert!(has_key(&target, "a"));
    assert!(has_key(&target, "b"));
    assert!(!has_key(&target, "c"));
}

#[test]
fn an_option_has_the_rules_of_its_value() {
    let none: Option<User> = None;
    assert!(none.skip_json_schema_fields().is_none());
    let some = Some(User { username: "u".into(), password_hash: "p".into() });
    assert!(is_field_skipped(some.skip_json_schema_fields().as_ref(), "password_hash"));
    assert!(!is_field_skipped(None, "password_hash"));
    assert!(!is_field_skipped(Some(&text("x")), "password_hash"));
}

#[test]
fn gated_serializer_removes_top_level_skips() {
    let config = SecretConfig { api_key: "sk-123".into(), timeout: 30 };
    let gated = gated_serializer(&config, config.serialized(), true);
    assert!(!has_key(&gated, "api_key"));
    assert!(has_key(&gated, "timeout"));
    let ungated = gated_serializer(&config, config.serialized(), false);
    assert!(has_key(&ungated, "api_key"));
}
