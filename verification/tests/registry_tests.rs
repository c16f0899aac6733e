use pterodactyl::json::JsonValue;
use pterodactyl::outcome::ProcessResponse;
use pterodactyl::registry::{ProcessUnit, Registry};

#[derive(Debug, PartialEq, Eq, Clone, Copy)]
struct TaggedUnit(u16);

impl ProcessUnit for TaggedUnit {
    fn invoke(&self) -> Result<ProcessResponse, ProcessResponse> {
        Ok(ProcessResponse::new(
            self.0,
            "ok".to_string(),
            JsonValue::Null,
            Vec::new(),
        ))
    }
}

#[test]
fn resolve_after_register_returns_that_unit() {
    let mut r: Registry<TaggedUnit> = Registry::new();
    r.register("alpha", TaggedUnit(1));
    r.register("beta", TaggedUnit(2));
    assert_eq!(r.resolve("alpha"), Some(&TaggedUnit(1)));
    assert_eq!(r.resolve("beta"), Some(&TaggedUnit(2)));
}

#[test]
fn resolve_unregistered_is_none() {
    let mut r: Registry<TaggedUnit> = Registry::new();
    assert_eq!(r.resolve("anything"), None);
    r.register("alpha", TaggedUnit(1));
    assert_eq!(r.resolve("alpho"), None);
    assert_eq!(r.resolve(""), None);
}

#[test]
fn later_registration_replaces_silently() {
    let mut r: Registry<TaggedUnit> = Registry::new();
    r.register("alpha", TaggedUnit(1));
    r.register("alpha", TaggedUnit(9));
    assert_eq!(r.resolve("alpha"), Some(&TaggedUnit(9)));
}
