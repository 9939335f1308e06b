use xmpp_proto::jid::{Jid, ToJid};

#[test]
fn jid_no_node() {
    let jid = Jid::from_full_jid("zz.com/xx");

    assert!(None == jid.node);
    assert!("zz.com".to_string() == jid.domain);
    assert!(Some("xx".to_string()) == jid.resource);
}

#[test]
fn jid_from_full() {
    let jid = Jid::from_full_jid("tt@zz.com/xx");

    assert!(Some("tt".to_string()) == jid.node, "{:?} == {:?}", Some("tt".to_string()), jid.node);
    assert!("zz.com".to_string() == jid.domain, "{:?} == {:?}", "zz.com".to_string(), jid.domain);
    assert!(Some("xx".to_string()) == jid.resource, "{:?} == {:?}", Some("xx".to_string()), jid.resource);
}

#[test]
fn to_jid_fail() {
    let j = "x";

    match j.to_jid() {
        Ok(_) => assert!(true),
        Err(_) => assert!(false),
    }
}

#[test]
fn jid_text_roundtrip() {
    for text in ["tt@zz.com/xx", "zz.com", "zz.com/xx", "tt@zz.com"] {
        let jid = Jid::from_full_jid(text);
        assert_eq!(jid.to_string(), text);
        assert_eq!(Jid::from_full_jid(&jid.to_string()), jid);
    }
}

#[test]
fn jid_domain_only() {
    let jid = Jid::from_full_jid("zz.com");
    assert_eq!(jid.node, None);
    assert_eq!(jid.domain, "zz.com");
    assert_eq!(jid.resource, None);
}

#[test]
fn jid_resource_is_all_after_the_first_slash() {
    let jid = Jid::from_full_jid("juliet@capulet.lit/balcony/2");
    assert_eq!(jid.node, Some("juliet".to_string()));
    assert_eq!(jid.domain, "capulet.lit");
    assert_eq!(jid.resource, Some("balcony/2".to_string()));
    assert_eq!(jid.to_string(), "juliet@capulet.lit/balcony/2");
}

#[test]
fn no_jid_is_refused() {
    use_option(None);
}

fn use_option(o: Option<&Jid>) {
    assert_eq!(xmpp_proto::jid::option_to_jid(o), Err(xmpp_proto::jid::JidError::InvalidInput));
}
