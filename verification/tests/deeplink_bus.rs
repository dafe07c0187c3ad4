use wraith_shell::bus::{notification_outcome, Delivery, EventBus, NotificationError};
use wraith_shell::deeplink::{DeepLinkDispatcher, DeepLinkError, RegistrationState};
use wraith_shell::sysinfo::SystemInfo;

#[test]
fn register_scheme_twice_is_a_no_op_not_an_error() {
    let mut d = DeepLinkDispatcher::new();
    assert!(d.needs_registration());
    assert_eq!(d.register_scheme("wraith".to_string(), true), Ok(()));
    assert_eq!(d.registration, RegistrationState::Registered("wraith".to_string()));
    assert!(!d.needs_registration());

    // second registration of the same scheme: no-op, success
    assert_eq!(d.register_scheme("wraith".to_string(), true), Ok(()));
    assert_eq!(d.registration, RegistrationState::Registered("wraith".to_string()));

    // the registration is write-once, whatever comes later
    assert_eq!(d.register_scheme("other".to_string(), false), Ok(()));
    assert_eq!(d.registration, RegistrationState::Registered("wraith".to_string()));
}

#[test]
fn refused_registration_is_reported_and_leaves_no_registration() {
    let mut d = DeepLinkDispatcher::new();
    assert_eq!(
        d.register_scheme("wraith".to_string(), false),
        Err(DeepLinkError::RegistrationFailed)
    );
    assert_eq!(d.registration, RegistrationState::Unregistered);
    assert!(d.needs_registration());
}

#[test]
fn links_before_any_subscriber_are_never_observed() {
    let mut d = DeepLinkDispatcher::new();
    d.register_scheme("wraith".to_string(), true).unwrap();
    let mut bus = EventBus::new();

    // activation arrives strictly before the subscriber is attached
    let (event, delivery) = d.on_link(&mut bus, "wraith://open/settings".to_string(), 41);
    assert_eq!(event.raw_uri, "wraith://open/settings");
    assert_eq!(event.received_at, 41);
    assert_eq!(delivery, Delivery::Dropped);

    // a subscriber attached afterwards finds no trace of it
    bus.attach_subscriber();
    assert!(bus.delivered.is_empty());

    // activations from now on are observed exactly once, in order
    let (_, delivery) = d.on_link(&mut bus, "wraith://open/inbox".to_string(), 42);
    assert_eq!(delivery, Delivery::Delivered);
    assert_eq!(bus.delivered.len(), 1);
    assert_eq!(bus.delivered[0].name, "deep-link");
    assert_eq!(bus.delivered[0].payload, "wraith://open/inbox");
}

#[test]
fn emit_without_subscriber_drops_and_with_subscriber_delivers() {
    let mut bus = EventBus::new();
    assert_eq!(
        bus.emit("status".to_string(), "starting".to_string()),
        Delivery::Dropped
    );
    assert!(bus.delivered.is_empty());

    bus.attach_subscriber();
    assert_eq!(
        bus.emit("status".to_string(), "ready".to_string()),
        Delivery::Delivered
    );
    assert_eq!(bus.delivered.len(), 1);
    assert_eq!(bus.delivered[0].name, "status");
    assert_eq!(bus.delivered[0].payload, "ready");
}

#[test]
fn notification_failure_is_returned_with_its_reason() {
    assert_eq!(notification_outcome(Ok(())), Ok(()));
    let r = notification_outcome(Err("dbus unavailable".to_string()));
    assert_eq!(
        r,
        Err(NotificationError::ShowFailed("dbus unavailable".to_string()))
    );
    assert_eq!(r.unwrap_err().message(), "dbus unavailable");
}

#[test]
fn system_info_is_the_same_triple_on_every_call() {
    let info = SystemInfo::new(
        "linux".to_string(),
        "x86_64".to_string(),
        "unix".to_string(),
    );
    let a = info.get_system_info();
    let b = info.get_system_info();
    assert_eq!(a.platform, "linux");
    assert_eq!(a.arch, "x86_64");
    assert_eq!(a.family, "unix");
    assert_eq!(a.platform, b.platform);
    assert_eq!(a.arch, b.arch);
    assert_eq!(a.family, b.family);
}
