use log_tracing_layer::delivery::{classify, Outcome, Verdict};

#[test]
fn every_2xx_is_a_delivery() {
    for status in [200u16, 201, 202, 204, 299] {
        assert_eq!(classify(Outcome::Status(status)), Verdict::Delivered);
    }
}

#[test]
fn bad_payload_and_bad_credentials_are_rejections() {
    for status in [400u16, 401, 403] {
        assert_eq!(classify(Outcome::Status(status)), Verdict::Rejected);
    }
}

#[test]
fn other_4xx_are_rejections() {
    for status in [402u16, 404, 405, 407, 409, 412, 414, 422, 428, 430, 451, 499] {
        assert_eq!(classify(Outcome::Status(status)), Verdict::Rejected);
    }
}

#[test]
fn timeout_and_throttling_are_transient() {
    assert_eq!(classify(Outcome::Status(408)), Verdict::Transient);
    assert_eq!(classify(Outcome::Status(429)), Verdict::Transient);
}

#[test]
fn every_5xx_is_transient() {
    for status in [500u16, 501, 502, 503, 504, 599] {
        assert_eq!(classify(Outcome::Status(status)), Verdict::Transient);
    }
}

#[test]
fn payload_too_large_asks_for_a_split() {
    assert_eq!(classify(Outcome::Status(413)), Verdict::TooLarge);
}

#[test]
fn codes_outside_the_known_classes_are_transient() {
    for status in [0u16, 99, 100, 101, 199, 300, 301, 304, 399, 600, 999, u16::MAX] {
        assert_eq!(classify(Outcome::Status(status)), Verdict::Transient);
    }
}

#[test]
fn transport_error_is_transient() {
    assert_eq!(classify(Outcome::TransportError), Verdict::Transient);
}

#[test]
fn encoding_failure_is_unencodable() {
    assert_eq!(classify(Outcome::EncodingFailed), Verdict::Unencodable);
}

#[test]
fn class_boundaries() {
    assert_eq!(classify(Outcome::Status(199)), Verdict::Transient);
    assert_eq!(classify(Outcome::Status(200)), Verdict::Delivered);
    assert_eq!(classify(Outcome::Status(299)), Verdict::Delivered);
    assert_eq!(classify(Outcome::Status(300)), Verdict::Transient);
    assert_eq!(classify(Outcome::Status(399)), Verdict::Transient);
    assert_eq!(classify(Outcome::Status(400)), Verdict::Rejected);
    assert_eq!(classify(Outcome::Status(499)), Verdict::Rejected);
    assert_eq!(classify(Outcome::Status(500)), Verdict::Transient);
}
