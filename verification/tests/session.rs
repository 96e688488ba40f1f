use lis2mdl::{Error, History, Lis2mdl, OutputDataRate, Transport, DEFAULT_I2C_ADDRESS};

/// A scripted bus: records every transaction, answers write-then-reads from
/// a queue of canned responses, and starts failing once `ok_ops_remaining`
/// operations have completed.
struct MockBus {
    transactions: Vec<(u8, Vec<u8>)>,
    responses: Vec<Vec<u8>>,
    ok_ops_remaining: usize,
}

impl MockBus {
    fn reliable(responses: Vec<Vec<u8>>) -> MockBus {
        MockBus { transactions: Vec::new(), responses, ok_ops_remaining: usize::MAX }
    }

    fn failing_after(ok_ops_remaining: usize, responses: Vec<Vec<u8>>) -> MockBus {
        MockBus { transactions: Vec::new(), responses, ok_ops_remaining }
    }
}

impl Transport for MockBus {
    type BusError = ();

    // Ghost history: present only for verification, never called at run time.
    fn history(&self) -> History {
        panic!("the ghost transaction history is not computed at run time")
    }

    fn bus_write(&mut self, addr: u8, data: &[u8]) -> Result<(), ()> {
        if self.ok_ops_remaining == 0 {
            return Err(());
        }
        self.ok_ops_remaining -= 1;
        self.transactions.push((addr, data.to_vec()));
        Ok(())
    }

    fn bus_write_read(&mut self, addr: u8, sent: &[u8], read_len: usize) -> Result<Vec<u8>, ()> {
        if self.ok_ops_remaining == 0 {
            return Err(());
        }
        self.ok_ops_remaining -= 1;
        self.transactions.push((addr, sent.to_vec()));
        let response = self.responses.remove(0);
        assert_eq!(response.len(), read_len);
        Ok(response)
    }
}

#[test]
fn initialize_issues_three_ordered_writes() {
    let mock = MockBus::reliable(Vec::new());
    let session = Lis2mdl::new(mock, DEFAULT_I2C_ADDRESS, OutputDataRate::Hz10).unwrap();
    let bus = session.release();
    assert_eq!(
        bus.transactions,
        vec![
            (0x1E, vec![0x60, 0b1000_0000]),
            (0x1E, vec![0x61, 0b0000_0001]),
            (0x1E, vec![0x62, 0b0001_1001]),
        ]
    );
}

#[test]
fn initialize_encodes_the_requested_rate() {
    let cases = [
        (OutputDataRate::Hz10, 0b1000_0000u8),
        (OutputDataRate::Hz20, 0b1000_0100u8),
        (OutputDataRate::Hz50, 0b1000_1000u8),
        (OutputDataRate::Hz100, 0b1000_1100u8),
    ];
    for (rate, cfg_a) in cases {
        let mock = MockBus::reliable(Vec::new());
        let session = Lis2mdl::new(mock, DEFAULT_I2C_ADDRESS, rate).unwrap();
        let bus = session.release();
        assert_eq!(bus.transactions[0], (0x1E, vec![0x60, cfg_a]));
    }
}

#[test]
fn chip_id_reads_identity_register() {
    let mock = MockBus::reliable(vec![vec![0x40]]);
    let mut session = Lis2mdl::new(mock, DEFAULT_I2C_ADDRESS, OutputDataRate::Hz100).unwrap();
    assert_eq!(session.get_chip_id(), Ok(0x40));
    let bus = session.release();
    assert_eq!(bus.transactions[3], (0x1E, vec![0x4F]));
}

#[test]
fn temperature_decodes_little_endian_signed() {
    let mock = MockBus::reliable(vec![vec![0x10, 0x00], vec![0xFF, 0xFF]]);
    let mut session = Lis2mdl::new(mock, DEFAULT_I2C_ADDRESS, OutputDataRate::Hz100).unwrap();
    assert_eq!(session.read_temperature(), Ok(16));
    assert_eq!(session.read_temperature(), Ok(-1));
    let bus = session.release();
    assert_eq!(bus.transactions[3], (0x1E, vec![0x6E]));
    assert_eq!(bus.transactions[4], (0x1E, vec![0x6E]));
}

#[test]
fn magnetometer_decodes_three_axes() {
    let mock = MockBus::reliable(vec![vec![0x01, 0x00, 0xFF, 0xFF, 0x00, 0x80]]);
    let mut session = Lis2mdl::new(mock, DEFAULT_I2C_ADDRESS, OutputDataRate::Hz100).unwrap();
    assert_eq!(session.read_magnetometer_data(), Ok((1, -1, -32768)));
    let bus = session.release();
    assert_eq!(bus.transactions[3], (0x1E, vec![0x68]));
}

#[test]
fn decode_i16_le_matches_two_s_complement() {
    assert_eq!(lis2mdl::decode_i16_le(0x00, 0x00), 0);
    assert_eq!(lis2mdl::decode_i16_le(0x01, 0x00), 1);
    assert_eq!(lis2mdl::decode_i16_le(0xFF, 0x7F), 32767);
    assert_eq!(lis2mdl::decode_i16_le(0xFF, 0xFF), -1);
    assert_eq!(lis2mdl::decode_i16_le(0x00, 0x80), -32768);
    assert_eq!(lis2mdl::decode_i16_le(0x34, 0x12), 0x1234);
}

#[test]
fn initialize_failure_surfaces_communication_error() {
    for ok_writes in 0..3usize {
        let mock = MockBus::failing_after(ok_writes, Vec::new());
        let result = Lis2mdl::new(mock, DEFAULT_I2C_ADDRESS, OutputDataRate::Hz10);
        assert!(matches!(result, Err(Error::I2cError)));
    }
}

#[test]
fn read_failures_surface_communication_error() {
    let mock = MockBus::failing_after(3, Vec::new());
    let mut session = Lis2mdl::new(mock, DEFAULT_I2C_ADDRESS, OutputDataRate::Hz50).unwrap();
    assert_eq!(session.get_chip_id(), Err(Error::I2cError));
    assert_eq!(session.read_temperature(), Err(Error::I2cError));
    assert_eq!(session.read_magnetometer_data(), Err(Error::I2cError));
    // The session stays usable after a failure and still owns the transport.
    let bus = session.release();
    assert_eq!(bus.transactions.len(), 3);
}

#[test]
fn release_returns_the_transport() {
    let mock = MockBus::reliable(Vec::new());
    let session = Lis2mdl::new(mock, 0x42, OutputDataRate::Hz20).unwrap();
    let bus = session.release();
    assert_eq!(bus.transactions[0].0, 0x42);
}

#[test]
fn default_device_address() {
    assert_eq!(DEFAULT_I2C_ADDRESS, 0x1E);
}
