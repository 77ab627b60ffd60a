use ddose::uds::client::{classify, Fault, Verdict};
use ddose::uds::nrc::Nrc;
use ddose::uds::pdus::download::{DownloadRequest, DownloadResponse};
use ddose::uds::pdus::dsc::{SessionRequest, SessionResponse};
use ddose::uds::pdus::security_access::{SeedRequest, SeedResponse};
use ddose::uds::text::{push_decimal, push_hex_byte, push_hex_word};
use ddose::uds::pdus::ecu_reset::{ResetRequest, ResetResponse};
use ddose::uds::pdus::routine::{RoutineRequest, RoutineResponse};
use ddose::uds::{Query, Reply, Step, UdsClient, UdsError};

#[test]
fn classify_positive() {
    assert_eq!(classify(0x10, 0x50, 6, 6, &[0x50, 1, 2, 3, 4, 5]), Verdict::Positive);
    assert_eq!(classify(0x27, 0x67, 2, usize::MAX, &[0x67, 1]), Verdict::Positive);
    assert_eq!(classify(0x37, 0x77, 1, usize::MAX, &[0x77]), Verdict::Positive);
}

#[test]
fn classify_pending_and_negative() {
    assert_eq!(classify(0x11, 0x51, 2, 2, &[0x7F, 0x11, 0x78]), Verdict::Pending);
    assert_eq!(
        classify(0x11, 0x51, 2, 2, &[0x7F, 0x11, 0x22]),
        Verdict::Negative(Nrc::ConditionsNotCorrect)
    );
    assert_eq!(
        classify(0x11, 0x51, 2, 2, &[0x7F, 0x11, 0x00]),
        Verdict::Negative(Nrc::PositiveResponse)
    );
    assert_eq!(
        classify(0x11, 0x51, 2, 2, &[0x7F, 0x11, 0x79]),
        Verdict::Negative(Nrc::Unknown(0x79))
    );
    for byte in 0..=255u8 {
        let expected = if byte == 0x78 {
            Verdict::Pending
        } else {
            Verdict::Negative(Nrc::from(byte))
        };
        assert_eq!(classify(0x3E, 0x7E, 2, 2, &[0x7F, 0x3E, byte]), expected);
    }
}

#[test]
fn classify_faults() {
    assert_eq!(classify(0x11, 0x51, 2, 2, &[]), Verdict::Invalid(Fault::Empty));
    assert_eq!(
        classify(0x11, 0x51, 2, 2, &[0x7F, 0x11]),
        Verdict::Invalid(Fault::NegativeLength(2))
    );
    assert_eq!(
        classify(0x11, 0x51, 2, 2, &[0x7F, 0x11, 0x78, 0x00]),
        Verdict::Invalid(Fault::NegativeLength(4))
    );
    assert_eq!(
        classify(0x11, 0x51, 2, 2, &[0x7F, 0x51, 0x22]),
        Verdict::Invalid(Fault::ForeignSid)
    );
    assert_eq!(
        classify(0x11, 0x51, 2, 2, &[0x7F, 0x10, 0x78]),
        Verdict::Invalid(Fault::ForeignSid)
    );
    assert_eq!(
        classify(0x11, 0x51, 2, 2, &[0x11, 0x01]),
        Verdict::Invalid(Fault::UnexpectedSid { expected: 0x51, received: 0x11 })
    );
    assert_eq!(
        classify(0x11, 0x51, 2, 2, &[0x51]),
        Verdict::Invalid(Fault::Length { min: 2, max: 2, len: 1 })
    );
    assert_eq!(
        classify(0x11, 0x51, 2, 2, &[0x51, 0x01, 0x02]),
        Verdict::Invalid(Fault::Length { min: 2, max: 2, len: 3 })
    );
}

#[test]
fn faults_are_written_in_words() {
    assert_eq!(Fault::Empty.message(), "Received an empty response");
    assert_eq!(
        Fault::NegativeLength(12).message(),
        "Response is negative and has invalid length '12'. Expected length of '3'"
    );
    assert_eq!(Fault::ForeignSid.message(), "Received response for another SID");
    assert_eq!(
        Fault::UnexpectedSid { expected: 0x5A, received: 0x0F }.message(),
        "Expected the SID 5A but received SID 0F"
    );
    assert_eq!(
        Fault::Length { min: 6, max: 6, len: 4096 }.message(),
        "Expected the length of the response to be between 6 and 6 but got length of 4096"
    );
}

#[test]
fn numbers_are_written_out() {
    let mut text = String::from("n=");
    push_decimal(&mut text, 0);
    text.push(' ');
    push_decimal(&mut text, 7);
    text.push(' ');
    push_decimal(&mut text, 10);
    text.push(' ');
    push_decimal(&mut text, 1234567890);
    text.push(' ');
    push_decimal(&mut text, usize::MAX);
    assert_eq!(text, format!("n=0 7 10 1234567890 {}", usize::MAX));
    let mut text = String::new();
    push_hex_byte(&mut text, 0x00);
    push_hex_byte(&mut text, 0x9A);
    push_hex_byte(&mut text, 0xFF);
    text.push(' ');
    push_hex_word(&mut text, 0x0000);
    push_hex_word(&mut text, 0x0A0B);
    push_hex_word(&mut text, 0xFEDC);
    assert_eq!(text, "009AFF 00000A0BFEDC");
    for byte in 0..=255u8 {
        let mut text = String::new();
        push_hex_byte(&mut text, byte);
        assert_eq!(text, format!("{:02X}", byte));
    }
}

#[test]
fn receive_parses_the_response() {
    let message: [u8; 6] = [0x50, 0x03, 0x00, 0x32, 0x01, 0xF4];
    match UdsClient::receive::<SessionRequest, SessionResponse>(&message) {
        Reply::Done(Ok(response)) => {
            assert_eq!(response.session_type, 0x03);
            assert_eq!(response.p2, 50);
            assert_eq!(response.p2_extended, 500);
        }
        _ => panic!("expected the response"),
    }
    match UdsClient::receive::<SeedRequest, SeedResponse>(&[0x67, 0x05, 0x01, 0x02, 0x03]) {
        Reply::Done(Ok(response)) => {
            assert_eq!(response.sec_level, 0x05);
            assert_eq!(response.seed, vec![0x01, 0x02, 0x03]);
        }
        _ => panic!("expected the response"),
    }
}

#[test]
fn receive_keeps_reading_on_pending_only() {
    assert!(matches!(
        UdsClient::receive::<SessionRequest, SessionResponse>(&[0x7F, 0x10, 0x78]),
        Reply::Pending
    ));
    assert!(matches!(
        UdsClient::receive::<SessionRequest, SessionResponse>(&[0x7F, 0x10, 0x21]),
        Reply::Done(Err(UdsError::NegativeResponse(Nrc::BusyRepeatRequest)))
    ));
    assert!(matches!(
        UdsClient::receive::<SessionRequest, SessionResponse>(&[0x7F, 0x50, 0x78]),
        Reply::Done(Err(UdsError::InvalidResponse(_)))
    ));
}

#[test]
fn receive_reports_faults() {
    let fault = |data: &[u8]| match UdsClient::receive::<SessionRequest, SessionResponse>(data) {
        Reply::Done(Err(UdsError::InvalidResponse(message))) => message,
        _ => panic!("expected a fault"),
    };
    assert_eq!(fault(&[]), "Received an empty response");
    assert_eq!(
        fault(&[0x7F, 0x10]),
        "Response is negative and has invalid length '2'. Expected length of '3'"
    );
    assert_eq!(fault(&[0x7F, 0x11, 0x22]), "Received response for another SID");
    assert_eq!(fault(&[0x51, 0x01]), "Expected the SID 50 but received SID 51");
    assert_eq!(
        fault(&[0x50, 0x01, 0x00, 0x32, 0x01]),
        "Expected the length of the response to be between 6 and 6 but got length of 5"
    );
}

#[test]
fn readable_tells_what_the_parser_reads() {
    assert!(UdsClient::readable::<DownloadRequest, DownloadResponse>(&[0x74, 0x20, 0x00, 0x20]));
    assert!(!UdsClient::readable::<DownloadRequest, DownloadResponse>(&[0x74, 0x10, 0x00, 0x20]));
    assert!(UdsClient::readable::<DownloadRequest, DownloadResponse>(&[0x74, 0x10, 0x00]));
    assert!(UdsClient::readable::<DownloadRequest, DownloadResponse>(&[0x7F, 0x34, 0x10]));
    assert!(UdsClient::readable::<DownloadRequest, DownloadResponse>(&[]));
    assert!(UdsClient::readable::<SessionRequest, SessionResponse>(&[0x50, 0, 0, 0, 0, 0]));
}

#[test]
fn transport_failure_is_a_transport_error() {
    let failure = std::io::Error::new(std::io::ErrorKind::BrokenPipe, "gone");
    match UdsError::from(failure) {
        UdsError::TransportError(error) => {
            assert_eq!(error.kind(), std::io::ErrorKind::BrokenPipe)
        }
        _ => panic!("expected a transport error"),
    }
}

#[test]
fn query_sends_the_request_once_and_reads_until_the_response() {
    let request = RoutineRequest::new(0x01, 0x0203, &[0x04]);
    let exchange = match UdsClient::query::<RoutineRequest, RoutineResponse>(request) {
        Step::Send(exchange, message) => {
            assert_eq!(message, vec![0x31, 0x01, 0x02, 0x03, 0x04]);
            exchange
        }
        _ => panic!("expected the request"),
    };
    let exchange = match exchange.step(&[0x7F, 0x31, 0x78]) {
        Step::Wait(exchange) => exchange,
        _ => panic!("expected to keep reading"),
    };
    let exchange = match exchange.step(&[0x7F, 0x31, 0x78]) {
        Step::Wait(exchange) => exchange,
        _ => panic!("expected to keep reading"),
    };
    match exchange.step(&[0x71, 0x01, 0x02, 0x03, 0x10, 0xAA]) {
        Step::Done(Ok(response)) => {
            assert_eq!(response.control, 0x01);
            assert_eq!(response.routine_id, 0x0203);
            assert_eq!(response.info, 0x10);
            assert_eq!(response.params, vec![0xAA]);
        }
        _ => panic!("expected the response"),
    }
}

#[test]
fn query_ends_on_refusals_and_faults() {
    let open = || match UdsClient::query::<ResetRequest, ResetResponse>(ResetRequest::new(0x01)) {
        Step::Send(exchange, message) => {
            assert_eq!(message, vec![0x11, 0x01]);
            exchange
        }
        _ => panic!("expected the request"),
    };
    let step = |exchange: Query<ResetRequest, ResetResponse>, data: &[u8]| exchange.step(data);
    assert!(matches!(
        step(open(), &[0x7F, 0x11, 0x33]),
        Step::Done(Err(UdsError::NegativeResponse(Nrc::SecurityAccessDenied)))
    ));
    assert!(matches!(
        step(open(), &[0x7F, 0x11, 0x7F]),
        Step::Done(Err(UdsError::NegativeResponse(Nrc::ServiceNotSupportedInActiveSession)))
    ));
    assert!(matches!(
        step(open(), &[0x7F, 0x51, 0x33]),
        Step::Done(Err(UdsError::InvalidResponse(_)))
    ));
    assert!(matches!(
        step(open(), &[0x7F, 0x11, 0x78, 0x00]),
        Step::Done(Err(UdsError::InvalidResponse(_)))
    ));
    assert!(matches!(step(open(), &[]), Step::Done(Err(UdsError::InvalidResponse(_)))));
    assert!(matches!(
        step(open(), &[0x50, 0x01]),
        Step::Done(Err(UdsError::InvalidResponse(_)))
    ));
    assert!(matches!(
        step(open(), &[0x51, 0x01, 0x00]),
        Step::Done(Err(UdsError::InvalidResponse(_)))
    ));
    match step(open(), &[0x51, 0x04]) {
        Step::Done(Ok(response)) => assert_eq!(response.reset_type, 0x04),
        _ => panic!("expected the response"),
    }
}
