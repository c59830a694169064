use gcloud_observability::key_sync::{check_keys_and_fields, ensure_keys_and_fields_in_sync, ItemDesc};
use gcloud_observability::macros::{MetaDesc, MetaValue};

fn arg(name: &str, value: &str) -> MetaDesc {
    MetaDesc::NameValue { path: Some(name.to_string()), value: MetaValue::Str(value.to_string()) }
}

fn key(name: &str) -> ItemDesc {
    ItemDesc::Const { name: name.to_string(), is_str: true }
}

fn strukt(name: &str, fields: &[&str]) -> ItemDesc {
    ItemDesc::Struct { name: name.to_string(), fields: fields.iter().map(|f| f.to_string()).collect() }
}

fn err(r: Result<(), String>) -> String {
    r.expect_err("expected a compile error")
}

#[test]
fn ui_ui() {
    // 01: valid usage, with the default and with a custom prefix.
    let m1 = vec![key("KEY_USER_ID"), strukt("MyStruct", &["user_id"])];
    assert_eq!(ensure_keys_and_fields_in_sync(&vec![arg("struct_name", "MyStruct")], &m1), Ok(()));
    let m2 = vec![key("ATTR_ITEM_ID"), strukt("AnotherStruct", &["item_id"])];
    assert_eq!(
        ensure_keys_and_fields_in_sync(&vec![arg("struct_name", "AnotherStruct"), arg("key_prefix", "ATTR")], &m2),
        Ok(())
    );
    let args = vec![arg("struct_name", "MyStruct")];
    // 02: struct not found.
    assert_eq!(
        err(ensure_keys_and_fields_in_sync(&args, &vec![key("KEY_FOO"), strukt("Other", &["foo"])])),
        "Struct `MyStruct` not found in the module"
    );
    // 03: no keys.
    assert_eq!(
        err(ensure_keys_and_fields_in_sync(&args, &vec![strukt("MyStruct", &["foo"])])),
        "No key constants with prefix `KEY_` found in the module"
    );
    // 04: key of the wrong type.
    let wrong = vec![ItemDesc::Const { name: "KEY_FOO".to_string(), is_str: false }, strukt("MyStruct", &["foo"])];
    assert_eq!(err(ensure_keys_and_fields_in_sync(&args, &wrong)), "Key constant `KEY_FOO` must have type `&str`");
    // 05: key without field.
    let extra = vec![key("KEY_FOO"), key("KEY_BAR"), strukt("MyStruct", &["foo"])];
    assert_eq!(
        err(ensure_keys_and_fields_in_sync(&args, &extra)),
        "Key constant `KEY_BAR` has no matching field in struct `MyStruct`"
    );
    // 06: field without key.
    let missing = vec![key("KEY_FOO"), strukt("MyStruct", &["foo", "bar"])];
    assert_eq!(
        err(ensure_keys_and_fields_in_sync(&args, &missing)),
        "Field `bar` of struct `MyStruct` has no key constant `KEY_BAR`"
    );
}

#[test]
fn argument_errors_come_first() {
    let items = vec![key("KEY_FOO"), strukt("MyStruct", &["foo"])];
    assert_eq!(err(ensure_keys_and_fields_in_sync(&vec![], &items)), "Missing required argument: struct_name");
    assert_eq!(err(ensure_keys_and_fields_in_sync(&vec![arg("other", "x")], &items)), "Unknown argument");
}

#[test]
fn other_items_and_other_prefixes_are_ignored() {
    let items = vec![
        ItemDesc::Other,
        ItemDesc::Const { name: "LIMIT".to_string(), is_str: false },
        key("KEY_A_B"),
        strukt("S", &["a_b"]),
        strukt("S", &["ignored"]),
    ];
    assert_eq!(check_keys_and_fields(&items, "S", "KEY"), Ok(()));
}
