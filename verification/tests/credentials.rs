use xmpp_proto::credentials::Credentials;
use xmpp_proto::jid::Jid;

#[test]
fn check_default_values() {
    let c = Credentials { ..Credentials::default() };

    assert_eq!(c.jid, Jid::from_str("guest").unwrap());
    assert_eq!(c.password, "guest");
}

#[test]
fn creation() {
    let c = Credentials { jid: Jid::from_str("guest").unwrap(), password: "guest".into() };
    assert_eq!(c.jid, Jid::from_str("guest").unwrap());
    assert_eq!(c.password, "guest");
}

#[test]
fn equality() {
    let c = Credentials { jid: Jid::from_str("guest").unwrap(), password: "guest".into() };
    let mut d = c.clone();

    assert!(c == d);

    d.jid = Jid::from_str("guest2").unwrap();
    d.password = "guest".into();

    assert!(c != d);
}

#[test]
fn same_as_follows_fields() {
    let c = Credentials { jid: Jid::from_str("guest").unwrap(), password: "guest".into() };
    let d = c.copy();
    assert!(c.same_as(&d));
    let e = Credentials { jid: Jid::from_str("guest").unwrap(), password: "other".into() };
    assert!(!c.same_as(&e));
}
