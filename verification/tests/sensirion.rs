use sensirion_i2c::debug_utils::{DummyBus, DummyError};
use sensirion_i2c::sensirion::{acknowledge, receive, serial_number, Sensor};
use sensirion_i2c::Error;

#[test]
fn test_crc() {
    assert_eq!(
        Sensor::<DummyBus>::check_crc::<DummyError>(&[0xbe, 0xef, 0x92]),
        Ok(())
    );
    assert_eq!(
        Sensor::<DummyBus>::check_crc::<DummyError>(&[0xbe, 0x01, 0x92]),
        Err(Error::InvalidCrc)
    );
}

#[test]
fn crc_of_two_bytes() {
    assert_eq!(Sensor::<DummyBus>::crc(&[0xbe, 0xef]), 0x92);
    assert_eq!(Sensor::<DummyBus>::crc(&[0x00, 0x00]), 0x81);
}

#[test]
fn query_three_words() {
    let bus = DummyBus {
        response: &[0x01, 0xf4, 0x33, 0x66, 0x67, 0xa2, 0x5e, 0xb9, 0x3c],
    };
    let mut sensor = Sensor::new(bus, 0x62);

    assert_eq!(sensor.query(&[0xec, 0x05], 3), Ok(vec![0x01f4, 0x6667, 0x5eb9]));
}

#[test]
fn query_with_damaged_word() {
    let bus = DummyBus {
        response: &[0x01, 0xf4, 0x33, 0x66, 0x67, 0xa2, 0x5e, 0xb9, 0x3d],
    };
    let mut sensor = Sensor::new(bus, 0x62);

    assert_eq!(sensor.query(&[0xec, 0x05], 3), Err(Error::InvalidCrc));
}

#[test]
fn query_that_the_bus_refuses() {
    let bus = DummyBus {
        response: &[0x01, 0xf4, 0x33],
    };
    let mut sensor = Sensor::new(bus, 0x62);

    assert_eq!(
        sensor.query(&[0xec, 0x05], 3),
        Err(Error::Transport(DummyError::InvalidTest))
    );
}

#[test]
fn read_word_and_three_words() {
    let bus = DummyBus {
        response: &[0xbe, 0xef, 0x92],
    };
    let mut sensor = Sensor::new(bus, 0x62);
    assert_eq!(sensor.read_word(&[0x23, 0x22]), Ok(0xbeef));
    assert_eq!(sensor.read_response_word(), Ok(0xbeef));
    assert_eq!(
        sensor.read_three_words(&[0x36, 0x82]),
        Err(Error::Transport(DummyError::InvalidTest))
    );

    let bus = DummyBus {
        response: &[0xf8, 0x96, 0x31, 0x9f, 0x07, 0xc2, 0x3b, 0xbe, 0x89],
    };
    let mut sensor = Sensor::new(bus, 0x62);
    assert_eq!(sensor.read_three_words(&[0x36, 0x82]), Ok([0xf896, 0x9f07, 0x3bbe]));
    assert_eq!(sensor.read_pending(3), Ok(vec![0xf896, 0x9f07, 0x3bbe]));
}

#[test]
fn writes_to_the_stand_in_succeed() {
    let bus = DummyBus { response: &[] };
    let mut sensor = Sensor::new(bus, 0x62);
    assert_eq!(sensor.send(&[0x21, 0xb1]), Ok(()));
    assert_eq!(sensor.send_with_arg(&[0x24, 0x1d], 7), Ok(()));
    assert_eq!(sensor.send_with_two_args(&[0x26, 0x0f], 7, 8), Ok(()));
}

#[test]
fn serial_number_from_words() {
    assert_eq!(serial_number(&[0xf896, 0x9f07, 0x3bbe]), 273325796834238);
    assert_eq!(serial_number(&[0, 0, 0]), 0);
    assert_eq!(serial_number(&[0, 0, 1]), 1);
    assert_eq!(serial_number(&[0, 1, 0]), 0x1_0000);
    assert_eq!(serial_number(&[1, 0, 0]), 0x1_0000_0000);
    assert_eq!(serial_number(&[0xffff, 0xffff, 0xffff]), 0xffff_ffff_ffff);
    assert_eq!(
        serial_number(&[0x1234, 0x5678, 0x9abc]),
        (0x1234u64 << 32) | (0x5678u64 << 16) | 0x9abcu64
    );
}

#[test]
fn acknowledge_maps_the_outcome_of_a_write() {
    assert_eq!(acknowledge::<DummyError>(Ok(())), Ok(()));
    assert_eq!(
        acknowledge(Err(DummyError::InvalidTest)),
        Err(Error::Transport(DummyError::InvalidTest))
    );
}

#[test]
fn receive_maps_the_outcome_of_a_read() {
    assert_eq!(receive::<DummyError>(Ok(vec![0xbe, 0xef, 0x92])), Ok(vec![0xbeef]));
    assert_eq!(receive::<DummyError>(Ok(vec![0xbe, 0xef, 0x93])), Err(Error::InvalidCrc));
    assert_eq!(
        receive(Err(DummyError::InvalidTest)),
        Err(Error::Transport(DummyError::InvalidTest))
    );
}

#[test]
fn transport_error_converts_into_error() {
    let error: Error<DummyError> = DummyError::InvalidTest.into();
    assert_eq!(error, Error::Transport(DummyError::InvalidTest));
    assert_eq!(Error::from(7u8), Error::Transport(7u8));
}

#[test]
fn error_kinds_are_distinct() {
    let kinds: [Error<DummyError>; 4] = [
        Error::InvalidResponse,
        Error::InvalidCrc,
        Error::CommandFailed,
        Error::Transport(DummyError::InvalidTest),
    ];
    for (i, a) in kinds.iter().enumerate() {
        for (j, b) in kinds.iter().enumerate() {
            assert_eq!(a == b, i == j);
        }
    }
}
