use marp_dispatch::dispatch::{handle, Request, Response};
use marp_dispatch::effect::{Effect, ToastLevel};
use marp_dispatch::value::{Object, Value};

fn obj(entries: Vec<(&str, Value)>) -> Object {
    Object { entries: entries.into_iter().map(|(k, v)| (k.to_string(), v)).collect() }
}

fn deck_request(payload: Object) -> Request {
    Request { action: "create-deck".to_string(), payload, ctx: Object::empty() }
}

const TEMPLATE: &str = "---\nmarp: true\ntheme: default\npaginate: true\nclass: lead\n---\n\n# Welcome to Marp\n\nUse the left pane to edit Markdown.\n";

#[test]
fn create_deck_default_title() {
    let res = handle(&deck_request(Object::empty()));
    assert!(res.ok);
    assert_eq!(
        res.effects[0],
        Effect::CreateDocument { title: "Marp Slides".to_string(), doc_type: "document".to_string() }
    );
}

#[test]
fn create_deck_custom_title() {
    let res = handle(&deck_request(obj(vec![("title", Value::Str("My Deck".to_string()))])));
    assert!(res.ok);
    assert_eq!(
        res.effects[0],
        Effect::CreateDocument { title: "My Deck".to_string(), doc_type: "document".to_string() }
    );
}

#[test]
fn create_deck_effect_order() {
    let res = handle(&deck_request(Object::empty()));
    assert_eq!(res.effects.len(), 5);
    assert!(matches!(res.effects[0], Effect::CreateDocument { .. }));
    assert!(matches!(&res.effects[1], Effect::PutKv { key, .. } if key == "meta"));
    assert!(matches!(&res.effects[2], Effect::PutKv { key, .. } if key == "marpState"));
    assert!(matches!(res.effects[3], Effect::ShowToast { .. }));
    assert!(matches!(res.effects[4], Effect::Navigate { .. }));
}

#[test]
fn create_deck_full_response() {
    let res = handle(&Request {
        action: "create-deck".to_string(),
        payload: Object::empty(),
        ctx: Object::empty(),
    });
    let expected = Response {
        ok: true,
        data: None,
        effects: vec![
            Effect::CreateDocument {
                title: "Marp Slides".to_string(),
                doc_type: "document".to_string(),
            },
            Effect::PutKv {
                scope: "doc".to_string(),
                key: "meta".to_string(),
                value: obj(vec![("isMarp", Value::Bool(true))]),
            },
            Effect::PutKv {
                scope: "doc".to_string(),
                key: "marpState".to_string(),
                value: obj(vec![("markdown", Value::Str(TEMPLATE.to_string()))]),
            },
            Effect::ShowToast {
                level: ToastLevel::Success,
                message: "Marp slide deck created".to_string(),
            },
            Effect::Navigate { to: "/marp/:createdDocId".to_string() },
        ],
        error: None,
    };
    assert_eq!(res, expected);
}

#[test]
fn unknown_action() {
    let res = handle(&Request {
        action: "bogus".to_string(),
        payload: Object::empty(),
        ctx: Object::empty(),
    });
    assert!(!res.ok);
    assert!(res.effects.is_empty());
    assert!(res.data.is_none());
    let err = res.error.expect("an unknown action must carry an error");
    assert_eq!(
        err.get(&"code".to_string()),
        Some(&Value::Str("UNKNOWN_ACTION".to_string()))
    );
}

#[test]
fn empty_action_is_unknown() {
    let res = handle(&Request {
        action: String::new(),
        payload: Object::empty(),
        ctx: Object::empty(),
    });
    assert!(!res.ok);
    assert!(res.effects.is_empty());
    let err = res.error.expect("an unknown action must carry an error");
    assert_eq!(
        err.get(&"code".to_string()),
        Some(&Value::Str("UNKNOWN_ACTION".to_string()))
    );
}

#[test]
fn identical_requests_identical_responses() {
    let make = || deck_request(obj(vec![("title", Value::Str("Twice".to_string()))]));
    assert_eq!(handle(&make()), handle(&make()));
}

#[test]
fn context_is_ignored() {
    let busy_ctx = obj(vec![("user", Value::Str("someone".to_string())), ("depth", Value::Int(3))]);
    let with_ctx = Request {
        action: "create-deck".to_string(),
        payload: Object::empty(),
        ctx: busy_ctx,
    };
    assert_eq!(handle(&with_ctx), handle(&deck_request(Object::empty())));
}

#[test]
fn mistyped_title_falls_back() {
    for bad in [Value::Int(7), Value::Bool(false), Value::Null, Value::Nested] {
        let res = handle(&deck_request(obj(vec![("title", bad)])));
        assert_eq!(
            res.effects[0],
            Effect::CreateDocument {
                title: "Marp Slides".to_string(),
                doc_type: "document".to_string(),
            }
        );
    }
}

#[test]
fn unrelated_payload_fields_are_ignored() {
    let res = handle(&deck_request(obj(vec![
        ("theme", Value::Str("gaia".to_string())),
        ("title", Value::Str("Quarterly".to_string())),
    ])));
    assert!(res.ok);
    assert_eq!(
        res.effects[0],
        Effect::CreateDocument { title: "Quarterly".to_string(), doc_type: "document".to_string() }
    );
}

#[test]
fn duplicate_fields_first_wins() {
    let o = obj(vec![
        ("title", Value::Str("First".to_string())),
        ("title", Value::Str("Second".to_string())),
    ]);
    assert_eq!(o.get(&"title".to_string()), Some(&Value::Str("First".to_string())));
    let res = handle(&deck_request(o));
    assert_eq!(
        res.effects[0],
        Effect::CreateDocument { title: "First".to_string(), doc_type: "document".to_string() }
    );
}

#[test]
fn object_get_finds_nothing_when_absent() {
    let o = obj(vec![("a", Value::Int(1))]);
    assert_eq!(o.get(&"b".to_string()), None);
    assert_eq!(Object::empty().get(&"a".to_string()), None);
}
