//! The owning handle's lifecycle: declaration, sending, retirement.

use zenoh_publisher::bytes::{z_owned_bytes_t, z_owned_encoding_t};
use zenoh_publisher::errors::{Z_EGENERIC, Z_EINVAL, Z_OK};
use zenoh_publisher::model::SampleKind;
use zenoh_publisher::options::{
    z_congestion_control_t, z_priority_t, z_publisher_delete_options_t,
    z_publisher_delete_options_default, z_publisher_options_default, z_publisher_options_t,
    z_publisher_put_options_default, z_publisher_put_options_t,
};
use zenoh_publisher::publisher::{
    z_declare_publisher, z_owned_publisher_t, z_publisher_check, z_publisher_delete,
    z_publisher_drop, z_publisher_keyexpr, z_publisher_loan, z_publisher_null, z_publisher_put,
    z_undeclare_publisher,
};
use zenoh_publisher::session::Session;

fn gravestone_handle() -> z_owned_publisher_t {
    let mut h = z_owned_publisher_t { slot: None };
    z_publisher_null(&mut h);
    h
}

fn default_put_options() -> z_publisher_put_options_t {
    let mut o = z_publisher_put_options_t {
        encoding: z_owned_encoding_t::null(),
        attachment: z_owned_bytes_t::null(),
    };
    z_publisher_put_options_default(&mut o);
    o
}

#[test]
fn declare_yields_valid_publisher() {
    let session = Session::open();
    let mut h = gravestone_handle();
    assert!(!z_publisher_check(&h));
    let r = z_declare_publisher(&mut h, &session, "demo/test".to_string(), None);
    assert_eq!(r, Z_OK);
    assert!(z_publisher_check(&h));
    let p = z_publisher_loan(&h);
    assert_eq!(z_publisher_keyexpr(p).as_str(), "demo/test");
    assert_eq!(p.congestion_control, z_congestion_control_t::Drop);
    assert_eq!(p.priority, z_priority_t::Data);
    assert_eq!(p.sent.len(), 0);
    assert_eq!(p.matching_subs, 0);
}

#[test]
fn declare_on_closed_session_fails() {
    let mut session = Session::open();
    session.close();
    assert!(!session.is_valid());
    let mut h = gravestone_handle();
    let r = z_declare_publisher(&mut h, &session, "demo/test".to_string(), None);
    assert_eq!(r, Z_EGENERIC);
    assert!(!z_publisher_check(&h));
}

#[test]
fn declare_with_default_options_matches_no_options() {
    let session = Session::open();
    let mut opts = z_publisher_options_t {
        congestion_control: z_congestion_control_t::Block,
        priority: z_priority_t::RealTime,
    };
    z_publisher_options_default(&mut opts);

    let mut with_opts = gravestone_handle();
    let r1 = z_declare_publisher(&mut with_opts, &session, "demo/test".to_string(), Some(&opts));
    let mut without = gravestone_handle();
    let r2 = z_declare_publisher(&mut without, &session, "demo/test".to_string(), None);

    assert_eq!(r1, r2);
    assert_eq!(z_publisher_check(&with_opts), z_publisher_check(&without));
    let a = z_publisher_loan(&with_opts);
    let b = z_publisher_loan(&without);
    assert_eq!(a.congestion_control, b.congestion_control);
    assert_eq!(a.priority, b.priority);
}

#[test]
fn declare_applies_supplied_options() {
    let session = Session::open();
    let opts = z_publisher_options_t {
        congestion_control: z_congestion_control_t::Block,
        priority: z_priority_t::InteractiveHigh,
    };
    let mut h = gravestone_handle();
    let r = z_declare_publisher(&mut h, &session, "demo/opts".to_string(), Some(&opts));
    assert_eq!(r, Z_OK);
    let p = z_publisher_loan(&h);
    assert_eq!(p.congestion_control, z_congestion_control_t::Block);
    assert_eq!(p.priority, z_priority_t::InteractiveHigh);
}

#[test]
fn option_defaults() {
    let mut opts = z_publisher_options_t {
        congestion_control: z_congestion_control_t::Block,
        priority: z_priority_t::RealTime,
    };
    z_publisher_options_default(&mut opts);
    assert_eq!(opts.congestion_control, z_congestion_control_t::Drop);
    assert_eq!(opts.priority, z_priority_t::Data);

    let mut put_opts = z_publisher_put_options_t {
        encoding: z_owned_encoding_t::new("text/plain".to_string()),
        attachment: z_owned_bytes_t::new(vec![1, 2, 3]),
    };
    z_publisher_put_options_default(&mut put_opts);
    assert!(!put_opts.encoding.is_valid());
    assert!(!put_opts.attachment.is_valid());

    let mut del_opts = z_publisher_delete_options_t { reserved: 7 };
    z_publisher_delete_options_default(&mut del_opts);
    assert_eq!(del_opts.reserved, 0);
}

#[test]
fn put_consumes_payload_and_records_sample() {
    let session = Session::open();
    let mut h = gravestone_handle();
    z_declare_publisher(&mut h, &session, "demo/test".to_string(), None);
    let mut payload = z_owned_bytes_t::new(b"hello".to_vec());
    let mut opts = default_put_options();
    let r = z_publisher_put(&mut h, &mut payload, &mut opts);
    assert_eq!(r, Z_OK);
    assert!(!payload.is_valid());
    let p = z_publisher_loan(&h);
    assert_eq!(p.sent.len(), 1);
    assert_eq!(p.sent[0].kind, SampleKind::Put);
    assert_eq!(p.sent[0].payload, b"hello".to_vec());
    assert_eq!(p.sent[0].encoding, None);
    assert_eq!(p.sent[0].attachment, None);
}

#[test]
fn put_moves_present_option_fields() {
    let session = Session::open();
    let mut h = gravestone_handle();
    z_declare_publisher(&mut h, &session, "demo/test".to_string(), None);
    let mut payload = z_owned_bytes_t::new(b"body".to_vec());
    let mut opts = z_publisher_put_options_t {
        encoding: z_owned_encoding_t::new("text/plain".to_string()),
        attachment: z_owned_bytes_t::new(vec![9, 9]),
    };
    let r = z_publisher_put(&mut h, &mut payload, &mut opts);
    assert_eq!(r, Z_OK);
    assert!(!opts.encoding.is_valid());
    assert!(!opts.attachment.is_valid());
    let p = z_publisher_loan(&h);
    assert_eq!(p.sent[0].encoding, Some("text/plain".to_string()));
    assert_eq!(p.sent[0].attachment, Some(vec![9, 9]));
}

#[test]
fn put_with_consumed_payload_is_rejected_and_touches_nothing() {
    let session = Session::open();
    let mut h = gravestone_handle();
    z_declare_publisher(&mut h, &session, "demo/test".to_string(), None);
    let mut payload = z_owned_bytes_t::new(b"hello".to_vec());
    let mut opts = default_put_options();
    assert_eq!(z_publisher_put(&mut h, &mut payload, &mut opts), Z_OK);

    // the payload is now a gravestone; a second attempt is rejected
    let mut opts2 = z_publisher_put_options_t {
        encoding: z_owned_encoding_t::new("text/plain".to_string()),
        attachment: z_owned_bytes_t::new(vec![1]),
    };
    let r = z_publisher_put(&mut h, &mut payload, &mut opts2);
    assert_eq!(r, Z_EINVAL);
    // validity and key expression are unchanged, nothing was sent or consumed
    assert!(z_publisher_check(&h));
    let p = z_publisher_loan(&h);
    assert_eq!(z_publisher_keyexpr(p).as_str(), "demo/test");
    assert_eq!(p.sent.len(), 1);
    assert!(opts2.encoding.is_valid());
    assert!(opts2.attachment.is_valid());
}

#[test]
fn delete_records_tombstone() {
    let session = Session::open();
    let mut h = gravestone_handle();
    z_declare_publisher(&mut h, &session, "demo/test".to_string(), None);
    let r = z_publisher_delete(&mut h, z_publisher_delete_options_t { reserved: 0 });
    assert_eq!(r, Z_OK);
    let p = z_publisher_loan(&h);
    assert_eq!(p.sent.len(), 1);
    assert_eq!(p.sent[0].kind, SampleKind::Delete);
    assert!(p.sent[0].payload.is_empty());
    assert_eq!(p.sent[0].encoding, None);
    assert_eq!(p.sent[0].attachment, None);
}

#[test]
fn retire_is_idempotent() {
    let session = Session::open();
    let mut h = gravestone_handle();
    z_declare_publisher(&mut h, &session, "demo/test".to_string(), None);
    assert!(z_publisher_check(&h));
    assert_eq!(z_undeclare_publisher(&mut h), Z_OK);
    assert!(!z_publisher_check(&h));
    // a second retirement of the gravestone handle still reports success
    assert_eq!(z_undeclare_publisher(&mut h), Z_OK);
    assert!(!z_publisher_check(&h));
}

#[test]
fn drop_retires_best_effort() {
    let session = Session::open();
    let mut h = gravestone_handle();
    z_declare_publisher(&mut h, &session, "demo/test".to_string(), None);
    z_publisher_drop(&mut h);
    assert!(!z_publisher_check(&h));
    // dropping a gravestone handle is safe too
    z_publisher_drop(&mut h);
    assert!(!z_publisher_check(&h));
}

#[test]
fn full_round_on_demo_test() {
    let session = Session::open();
    let mut h = gravestone_handle();
    assert_eq!(z_declare_publisher(&mut h, &session, "demo/test".to_string(), None), Z_OK);
    let mut payload = z_owned_bytes_t::new(b"hello".to_vec());
    let mut opts = default_put_options();
    assert_eq!(z_publisher_put(&mut h, &mut payload, &mut opts), Z_OK);
    assert_eq!(
        z_publisher_delete(&mut h, z_publisher_delete_options_t { reserved: 0 }),
        Z_OK
    );
    assert_eq!(z_undeclare_publisher(&mut h), Z_OK);
    assert!(!z_publisher_check(&h));
}

#[test]
fn bytes_and_encoding_slots() {
    let mut b = z_owned_bytes_t::new(vec![1, 2]);
    assert!(b.is_valid());
    assert_eq!(b.extract(), Some(vec![1, 2]));
    assert!(!b.is_valid());
    assert_eq!(b.extract(), None);

    let mut e = z_owned_encoding_t::new("app/json".to_string());
    assert!(e.is_valid());
    assert_eq!(e.extract(), Some("app/json".to_string()));
    assert!(!e.is_valid());
    assert_eq!(e.extract(), None);

    assert!(!z_owned_bytes_t::null().is_valid());
    assert!(!z_owned_encoding_t::null().is_valid());
}
