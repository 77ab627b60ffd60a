use std::time::Duration;

use ddose::uds::nrc::Nrc;
use ddose::uds::services::download::Download;
use ddose::uds::services::dsc::{SessionType, StartSession};
use ddose::uds::services::ecu_reset::{Reset, ResetType};
use ddose::uds::services::routine::{ControlRoutine, RoutineAction};
use ddose::uds::services::security_access::Unlock;
use ddose::uds::services::tester::TesterPresent;
use ddose::uds::{Step, UdsClient, UdsError};

/// Plays the server: hands the messages of `script` to the exchange one by
/// one, and keeps what the exchange has transmitted.
fn converse<M, T>(
    first: Step<M, T>,
    script: &[&[u8]],
    advance: impl Fn(M, &[u8]) -> Step<M, T>,
) -> (Vec<Vec<u8>>, Option<Result<T, UdsError>>) {
    let mut sent: Vec<Vec<u8>> = Vec::new();
    let mut step = first;
    let mut at: usize = 0;
    loop {
        let exchange = match step {
            Step::Done(result) => return (sent, Some(result)),
            Step::Send(exchange, message) => {
                sent.push(message);
                exchange
            }
            Step::Wait(exchange) => exchange,
        };
        if at == script.len() {
            return (sent, None);
        }
        step = advance(exchange, script[at]);
        at += 1;
    }
}

fn identity_key(seed: &[u8]) -> Result<Vec<u8>, String> {
    Ok(seed.to_vec())
}

fn download_step<'a>(exchange: Download<'a>, message: &[u8]) -> Step<Download<'a>, ()> {
    assert!(exchange.accepts(message));
    exchange.step(message)
}

#[test]
fn session_transition() {
    let first = UdsClient::start_session(SessionType::Extended.into());
    let (sent, result) = converse(
        first,
        &[&[0x50, 0x03, 0x00, 0x32, 0x01, 0xF4]],
        StartSession::step,
    );
    assert_eq!(sent, vec![vec![0x10, 0x03]]);
    let (p2, p2_extended) = result.unwrap().unwrap();
    assert_eq!(p2, Duration::from_millis(50));
    assert_eq!(p2_extended, Duration::from_millis(5000));
}

#[test]
fn session_times_are_scaled() {
    let first = UdsClient::start_session(0x01);
    let (_, result) = converse(
        first,
        &[&[0x50, 0x01, 0xFF, 0xFF, 0xFF, 0xFF]],
        StartSession::step,
    );
    let (p2, p2_extended) = result.unwrap().unwrap();
    assert_eq!(p2, Duration::from_millis(65535));
    assert_eq!(p2_extended, Duration::from_millis(655350));
}

#[test]
fn session_mismatch_is_other() {
    let first = UdsClient::start_session(0x03);
    let (_, result) = converse(
        first,
        &[&[0x50, 0x02, 0x00, 0x32, 0x01, 0xF4]],
        StartSession::step,
    );
    match result.unwrap() {
        Err(UdsError::Other(message)) => assert_eq!(
            message,
            "Requested session id 0x03 but received response for session id 0x02"
        ),
        _ => panic!("expected a mismatch"),
    }
}

#[test]
fn nrc_with_wait() {
    let first = UdsClient::reset(ResetType::Hard.into());
    let (sent, result) = converse(
        first,
        &[&[0x7F, 0x11, 0x78], &[0x7F, 0x11, 0x78], &[0x51, 0x01]],
        Reset::step,
    );
    assert_eq!(sent, vec![vec![0x11, 0x01]]);
    assert!(matches!(result, Some(Ok(()))));
}

#[test]
fn pending_keeps_the_exchange_waiting() {
    let first = UdsClient::reset(0x01);
    let (sent, result) = converse(first, &[&[0x7F, 0x11, 0x78], &[0x7F, 0x11, 0x78]], Reset::step);
    assert_eq!(sent, vec![vec![0x11, 0x01]]);
    assert!(result.is_none());
}

#[test]
fn reset_mismatch_is_invalid_response() {
    let first = UdsClient::reset(0x01);
    let (_, result) = converse(first, &[&[0x51, 0x0C]], Reset::step);
    match result.unwrap() {
        Err(UdsError::InvalidResponse(message)) => {
            assert_eq!(message, "Expected response for reset type 1 but got for 12")
        }
        _ => panic!("expected a mismatch"),
    }
}

#[test]
fn negative_response() {
    let first = UdsClient::tester_present();
    let (sent, result) = converse(first, &[&[0x7F, 0x3E, 0x22]], TesterPresent::step);
    assert_eq!(sent, vec![vec![0x3E, 0x00]]);
    match result.unwrap() {
        Err(UdsError::NegativeResponse(nrc)) => assert_eq!(nrc, Nrc::ConditionsNotCorrect),
        _ => panic!("expected a negative response"),
    }
}

#[test]
fn tester_present_looks_at_sid_and_length_only() {
    let (_, result) = converse(UdsClient::tester_present(), &[&[0x7E, 0x00]], TesterPresent::step);
    assert!(matches!(result, Some(Ok(()))));
    let (_, result) = converse(UdsClient::tester_present(), &[&[0x7E, 0x55]], TesterPresent::step);
    assert!(matches!(result, Some(Ok(()))));
    let (_, result) = converse(UdsClient::tester_present(), &[&[0x7E]], TesterPresent::step);
    assert!(matches!(result, Some(Err(UdsError::InvalidResponse(_)))));
    let (_, result) = converse(UdsClient::tester_present(), &[&[0x7D, 0x00]], TesterPresent::step);
    assert!(matches!(result, Some(Err(UdsError::InvalidResponse(_)))));
}

#[test]
fn seed_key_unlock() {
    let first = UdsClient::unlock(1, &[], identity_key);
    let (sent, result) = converse(
        first,
        &[&[0x67, 0x01, 0xDE, 0xAD, 0xBE, 0xEF], &[0x67, 0x02]],
        Unlock::step,
    );
    assert_eq!(
        sent,
        vec![vec![0x27, 0x01], vec![0x27, 0x02, 0xDE, 0xAD, 0xBE, 0xEF]]
    );
    assert!(matches!(result, Some(Ok(()))));
}

#[test]
fn unlock_sends_seed_data_and_derived_key() {
    let first = UdsClient::unlock(0x11, &[0xA0, 0xA1], |seed: &[u8]| {
        Ok(seed.iter().map(|byte| byte ^ 0xFF).collect())
    });
    let (sent, result) = converse(
        first,
        &[&[0x7F, 0x27, 0x78], &[0x67, 0x11, 0x01, 0x02], &[0x7F, 0x27, 0x78], &[0x67, 0x12]],
        Unlock::step,
    );
    assert_eq!(
        sent,
        vec![vec![0x27, 0x11, 0xA0, 0xA1], vec![0x27, 0x12, 0xFE, 0xFD]]
    );
    assert!(matches!(result, Some(Ok(()))));
}

#[test]
fn unlock_with_even_level_sends_nothing() {
    let first = UdsClient::unlock(2, &[], identity_key);
    let (sent, result) = converse(first, &[&[0x67, 0x02]], Unlock::step);
    assert!(sent.is_empty());
    match result.unwrap() {
        Err(UdsError::InvalidRequest(message)) => {
            assert_eq!(message, "The security level must be an odd number but is 2")
        }
        _ => panic!("expected a refusal"),
    }
    let (sent, result) = converse(UdsClient::unlock(0, &[], identity_key), &[], Unlock::step);
    assert!(sent.is_empty());
    assert!(matches!(result, Some(Err(UdsError::InvalidRequest(_)))));
}

#[test]
fn unlock_key_failure_is_other() {
    let first = UdsClient::unlock(1, &[], |_seed: &[u8]| Err("no key".to_string()));
    let (sent, result) = converse(first, &[&[0x67, 0x01, 0xDE, 0xAD]], Unlock::step);
    assert_eq!(sent, vec![vec![0x27, 0x01]]);
    match result.unwrap() {
        Err(UdsError::Other(message)) => assert_eq!(message, "Failed to generate key: no key"),
        _ => panic!("expected a failure"),
    }
}

#[test]
fn unlock_level_mismatch_is_invalid_response() {
    let first = UdsClient::unlock(1, &[], identity_key);
    let (sent, result) = converse(first, &[&[0x67, 0x03, 0xDE]], Unlock::step);
    assert_eq!(sent, vec![vec![0x27, 0x01]]);
    match result.unwrap() {
        Err(UdsError::InvalidResponse(message)) => {
            assert_eq!(message, "Expected response for security level 1 but got for 3")
        }
        _ => panic!("expected a mismatch"),
    }
    let first = UdsClient::unlock(1, &[], identity_key);
    let (sent, result) = converse(first, &[&[0x67, 0x01, 0xDE], &[0x67, 0x01]], Unlock::step);
    assert_eq!(sent, vec![vec![0x27, 0x01], vec![0x27, 0x02, 0xDE]]);
    match result.unwrap() {
        Err(UdsError::InvalidResponse(message)) => {
            assert_eq!(message, "Expected response for security level 2 but got for 1")
        }
        _ => panic!("expected a mismatch"),
    }
}

#[test]
fn send_key_takes_the_key_algorithms_answer() {
    type Algo = fn(&[u8]) -> Result<Vec<u8>, String>;
    match Unlock::<Algo>::send_key(0x04, Ok(vec![0x01, 0x02])) {
        Step::Send(_, message) => assert_eq!(message, vec![0x27, 0x04, 0x01, 0x02]),
        _ => panic!("expected the key request"),
    }
    match Unlock::<Algo>::send_key(0x04, Err("broken".to_string())) {
        Step::Done(Err(UdsError::Other(message))) => {
            assert_eq!(message, "Failed to generate key: broken")
        }
        _ => panic!("expected a failure"),
    }
}

#[test]
fn download_of_ten_bytes() {
    let data: [u8; 10] = [0, 1, 2, 3, 4, 5, 6, 7, 8, 9];
    let first = UdsClient::download(0, &data);
    let (sent, result) = converse(
        first,
        &[&[0x74, 0x20, 0x00, 0x20], &[0x76, 0x01], &[0x77]],
        download_step,
    );
    assert_eq!(
        sent,
        vec![
            vec![0x34, 0x00, 0x44, 0x00, 0x00, 0x00, 0x00, 0x00, 0x00, 0x00, 0x0A],
            vec![0x36, 0x01, 0, 1, 2, 3, 4, 5, 6, 7, 8, 9],
            vec![0x37],
        ]
    );
    assert!(matches!(result, Some(Ok(()))));
}

#[test]
fn download_of_nothing_sends_no_block() {
    let first = UdsClient::download(0x1000, &[]);
    let (sent, result) = converse(first, &[&[0x74, 0x20, 0x00, 0x20], &[0x77]], download_step);
    assert_eq!(
        sent,
        vec![
            vec![0x34, 0x00, 0x44, 0x00, 0x00, 0x10, 0x00, 0x00, 0x00, 0x00, 0x00],
            vec![0x37],
        ]
    );
    assert!(matches!(result, Some(Ok(()))));
}

#[test]
fn download_splits_into_blocks() {
    let data: Vec<u8> = (0u8..40).collect();
    let first = UdsClient::download(0xAABBCCDD, &data);
    let (sent, result) = converse(
        first,
        &[
            &[0x74, 0x20, 0x00, 0x20],
            &[0x76, 0x01],
            &[0x7F, 0x36, 0x78],
            &[0x76, 0x02],
            &[0x76, 0x03],
            &[0x77],
        ],
        download_step,
    );
    assert_eq!(sent.len(), 5);
    assert_eq!(
        sent[0],
        vec![0x34, 0x00, 0x44, 0xAA, 0xBB, 0xCC, 0xDD, 0x00, 0x00, 0x00, 0x28]
    );
    assert_eq!(sent[1][..2], [0x36, 0x01]);
    assert_eq!(sent[1][2..], data[0..17]);
    assert_eq!(sent[2][..2], [0x36, 0x02]);
    assert_eq!(sent[2][2..], data[17..34]);
    assert_eq!(sent[3][..2], [0x36, 0x03]);
    assert_eq!(sent[3][2..], data[34..40]);
    assert_eq!(sent[4], vec![0x37]);
    assert!(matches!(result, Some(Ok(()))));
}

#[test]
fn download_counter_wraps() {
    // One byte more than 256 blocks of 16 - 15 = 1 byte.
    let data: Vec<u8> = (0..257).map(|i: u32| (i % 251) as u8).collect();
    let mut script: Vec<Vec<u8>> = vec![vec![0x74, 0x20, 0x00, 0x10]];
    for block in 0..257u32 {
        script.push(vec![0x76, ((block + 1) % 256) as u8]);
    }
    script.push(vec![0x77]);
    let script: Vec<&[u8]> = script.iter().map(|message| message.as_slice()).collect();
    let (sent, result) = converse(UdsClient::download(0, &data), &script, download_step);
    assert!(matches!(result, Some(Ok(()))));
    assert_eq!(sent.len(), 259);
    let counters: Vec<u8> = sent[1..258].iter().map(|message| message[1]).collect();
    let mut expected: Vec<u8> = (1..=255).collect();
    expected.push(0);
    expected.push(1);
    assert_eq!(counters, expected);
    for (block, message) in sent[1..258].iter().enumerate() {
        assert_eq!(message[0], 0x36);
        assert_eq!(message[2..], data[block..block + 1]);
    }
    assert_eq!(sent[258], vec![0x37]);
}

#[test]
fn download_does_not_compare_the_echoed_counter() {
    let data: [u8; 3] = [1, 2, 3];
    let (sent, result) = converse(
        UdsClient::download(0, &data),
        &[&[0x74, 0x20, 0x00, 0x11], &[0x76, 0x09], &[0x76, 0x00, 0xFF], &[0x77, 0x01]],
        download_step,
    );
    assert_eq!(sent[1], vec![0x36, 0x01, 1, 2]);
    assert_eq!(sent[2], vec![0x36, 0x02, 3]);
    assert_eq!(sent[3], vec![0x37]);
    assert!(matches!(result, Some(Ok(()))));
}

#[test]
fn download_ends_on_the_first_error() {
    let data: [u8; 40] = [0x5A; 40];
    let (sent, result) = converse(
        UdsClient::download(0, &data),
        &[&[0x74, 0x20, 0x00, 0x20], &[0x7F, 0x36, 0x73], &[0x76, 0x02]],
        download_step,
    );
    assert_eq!(sent.len(), 2);
    match result.unwrap() {
        Err(UdsError::NegativeResponse(nrc)) => assert_eq!(nrc, Nrc::WrongBlockSequenceCounter),
        _ => panic!("expected a negative response"),
    }
    let (sent, result) = converse(
        UdsClient::download(0, &data),
        &[&[0x7F, 0x34, 0x70]],
        download_step,
    );
    assert_eq!(sent.len(), 1);
    match result.unwrap() {
        Err(UdsError::NegativeResponse(nrc)) => assert_eq!(nrc, Nrc::UploadDownloadNotAccepted),
        _ => panic!("expected a negative response"),
    }
}

#[test]
fn download_accepts_only_what_it_reads() {
    let data: [u8; 4] = [1, 2, 3, 4];
    let announced = |data| match UdsClient::download(0, data) {
        Step::Send(exchange, _) => exchange,
        _ => panic!("expected the announcement"),
    };
    assert!(announced(&data).accepts(&[0x74, 0x20, 0x00, 0x10]));
    assert!(!announced(&data).accepts(&[0x74, 0x20, 0x00, 0x0F]));
    assert!(!announced(&data).accepts(&[0x74, 0x10, 0x00, 0x20]));
    assert!(announced(&data).accepts(&[0x74, 0x10, 0x00]));
    assert!(announced(&data).accepts(&[0x7F, 0x34, 0x78]));
    assert!(announced(&data).accepts(&[]));
    match announced(&data).step(&[0x74, 0x20, 0x00, 0x10]) {
        Step::Send(exchange, message) => {
            assert_eq!(message, vec![0x36, 0x01, 1]);
            assert!(exchange.accepts(&[0x74, 0x10, 0x00, 0x20]));
        }
        _ => panic!("expected the first block"),
    }
}

#[test]
fn routine_control() {
    let first = UdsClient::control_routine(RoutineAction::Start, 0x0202, &[]);
    let (sent, result) = converse(
        first,
        &[&[0x71, 0x01, 0x02, 0x02, 0x00, 0xAA, 0xBB]],
        ControlRoutine::step,
    );
    assert_eq!(sent, vec![vec![0x31, 0x01, 0x02, 0x02]]);
    assert_eq!(result.unwrap().unwrap(), vec![0xAA, 0xBB]);
}

#[test]
fn routine_mismatch_is_invalid_response() {
    let first = UdsClient::control_routine(RoutineAction::Other(0x1A), 0x0BCD, &[0x01]);
    let (sent, result) = converse(
        first,
        &[&[0x71, 0x02, 0x0B, 0xCD, 0x00]],
        ControlRoutine::step,
    );
    assert_eq!(sent, vec![vec![0x31, 0x1A, 0x0B, 0xCD, 0x01]]);
    match result.unwrap() {
        Err(UdsError::InvalidResponse(message)) => {
            assert_eq!(message, "Expected response for control action 0x1A but got 02")
        }
        _ => panic!("expected a mismatch"),
    }
    let first = UdsClient::control_routine(RoutineAction::Stop, 0x0BCD, &[]);
    let (_, result) = converse(first, &[&[0x71, 0x02, 0xFF, 0x0E, 0x00]], ControlRoutine::step);
    match result.unwrap() {
        Err(UdsError::InvalidResponse(message)) => {
            assert_eq!(message, "Expected response for routine 0x0BCD but got FF0E")
        }
        _ => panic!("expected a mismatch"),
    }
}

#[test]
fn routine_response_of_four_bytes_is_too_short() {
    let first = UdsClient::control_routine(RoutineAction::Result, 0x0001, &[]);
    let (_, result) = converse(first, &[&[0x71, 0x03, 0x00, 0x01]], ControlRoutine::step);
    match result.unwrap() {
        Err(UdsError::InvalidResponse(message)) => assert_eq!(
            message,
            format!(
                "Expected the length of the response to be between 5 and {} but got length of 4",
                usize::MAX
            )
        ),
        _ => panic!("expected a fault"),
    }
}

#[test]
fn named_types_convert_to_their_bytes_and_back() {
    for byte in 0..=255u8 {
        assert_eq!(u8::from(SessionType::from(byte)), byte);
        assert_eq!(u8::from(ResetType::from(byte)), byte);
        assert_eq!(u8::from(RoutineAction::from(byte)), byte);
    }
    assert_eq!(SessionType::from(0x01), SessionType::Default);
    assert_eq!(SessionType::from(0x02), SessionType::Programming);
    assert_eq!(SessionType::from(0x03), SessionType::Extended);
    assert_eq!(SessionType::from(0x04), SessionType::SafetySystem);
    assert_eq!(SessionType::from(0x05), SessionType::Other(0x05));
    assert_eq!(ResetType::from(0x01), ResetType::Hard);
    assert_eq!(ResetType::from(0x02), ResetType::KeyOffOn);
    assert_eq!(ResetType::from(0x03), ResetType::EnableRapidPowerShutdown);
    assert_eq!(ResetType::from(0x04), ResetType::DisableRapidPowerShutdown);
    assert_eq!(ResetType::from(0x00), ResetType::Other(0x00));
    assert_eq!(RoutineAction::from(0x01), RoutineAction::Start);
    assert_eq!(RoutineAction::from(0x02), RoutineAction::Stop);
    assert_eq!(RoutineAction::from(0x03), RoutineAction::Result);
    assert_eq!(RoutineAction::from(0x04), RoutineAction::Other(0x04));
}
