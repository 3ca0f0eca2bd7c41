use comm_util::address::{classify_read, classify_write, RegisterLocation, RegisterSpace};
use comm_util::modbus::{
    Client, ClientError, ReadRequest, RequestOutcome, WriteRequest, REQUEST_TIMEOUT_MS,
};
use comm_util::transport::{select_transport, IpAddress, ModbusClientType, MODBUS_TCP_PORT};

fn tcp_client() -> Client<u8> {
    Client::new(&String::new(), 0, Some(IpAddress::V4([192, 0, 2, 1])))
}

fn connected() -> Client<u8> {
    let mut c = tcp_client();
    assert_eq!(c.open(Ok(7)), Ok(()));
    c
}

#[test]
fn empty_port_with_parsed_host_selects_tcp() {
    let c = tcp_client();
    assert_eq!(
        c.client_type(),
        &ModbusClientType::Tcp { ip: IpAddress::V4([192, 0, 2, 1]), port: 502 }
    );
    assert_eq!(MODBUS_TCP_PORT, 502);
    assert!(!c.is_open());
}

#[test]
fn unparsed_host_falls_back_to_wildcard() {
    let c: Client<u8> = Client::new(&String::new(), 0, None);
    assert_eq!(
        c.client_type(),
        &ModbusClientType::Tcp { ip: IpAddress::V4([0, 0, 0, 0]), port: 502 }
    );
}

#[test]
fn port_name_selects_serial_and_ignores_host() {
    let t = select_transport(&"/dev/ttyUSB0".to_string(), 9600, Some(IpAddress::V4([10, 0, 0, 1])));
    assert_eq!(
        t,
        ModbusClientType::Rtu { port_name: "/dev/ttyUSB0".to_string(), baud_rate: 9600 }
    );
}

#[test]
fn ipv6_host_is_kept() {
    let ip = IpAddress::V6([0x2001, 0xdb8, 0, 0, 0, 0, 0, 1]);
    let c: Client<u8> = Client::new(&String::new(), 115200, Some(ip));
    assert_eq!(c.client_type(), &ModbusClientType::Tcp { ip, port: 502 });
}

#[test]
fn read_holding_first_register() {
    let c = connected();
    assert_eq!(
        c.read(40001, 1),
        Ok(ReadRequest {
            location: RegisterLocation { space: RegisterSpace::Holding, offset: 0 },
            count: 1
        })
    );
}

#[test]
fn read_input_registers() {
    let c = connected();
    assert_eq!(
        c.read(30001, 4),
        Ok(ReadRequest {
            location: RegisterLocation { space: RegisterSpace::Input, offset: 0 },
            count: 4
        })
    );
    assert_eq!(
        c.read(39999, 1),
        Ok(ReadRequest {
            location: RegisterLocation { space: RegisterSpace::Input, offset: 9998 },
            count: 1
        })
    );
    assert_eq!(
        c.read(49999, 2),
        Ok(ReadRequest {
            location: RegisterLocation { space: RegisterSpace::Holding, offset: 9998 },
            count: 2
        })
    );
}

#[test]
fn read_first_number_of_a_space_wraps() {
    assert_eq!(
        classify_read(30000),
        Some(RegisterLocation { space: RegisterSpace::Input, offset: 65535 })
    );
    assert_eq!(
        classify_read(40000),
        Some(RegisterLocation { space: RegisterSpace::Holding, offset: 65535 })
    );
}

#[test]
fn read_outside_range_is_invalid() {
    let c = connected();
    assert_eq!(c.read(29999, 1), Err(ClientError::InvalidAddress));
    assert_eq!(c.read(50000, 1), Err(ClientError::InvalidAddress));
    assert_eq!(c.read(0, 1), Err(ClientError::InvalidAddress));
    assert_eq!(c.read(65535, 1), Err(ClientError::InvalidAddress));
}

#[test]
fn write_boundaries() {
    let c = connected();
    assert_eq!(c.write(40001, vec![5]), Err(ClientError::InvalidAddress));
    assert_eq!(c.write(40002, vec![5]), Ok(WriteRequest { offset: 1, values: vec![5] }));
    assert_eq!(c.write(49999, vec![1, 2]), Ok(WriteRequest { offset: 9998, values: vec![1, 2] }));
    assert_eq!(c.write(50000, vec![5]), Err(ClientError::InvalidAddress));
    assert_eq!(c.write(40000, vec![5]), Err(ClientError::InvalidAddress));
    assert_eq!(c.write(30005, vec![5]), Err(ClientError::InvalidAddress));
    assert_eq!(c.write(29999, vec![5]), Err(ClientError::InvalidAddress));
    assert_eq!(classify_write(40001), None);
    assert_eq!(classify_write(40002), Some(1));
}

#[test]
fn requests_need_a_connection() {
    let c = tcp_client();
    assert_eq!(c.read(40001, 1), Err(ClientError::NotConnected));
    assert_eq!(c.write(40002, vec![1]), Err(ClientError::NotConnected));
    assert_eq!(c.read(29999, 1), Err(ClientError::NotConnected));
}

#[test]
fn close_is_idempotent() {
    let mut c = connected();
    assert!(c.is_open());
    c.close();
    assert!(!c.is_open());
    c.close();
    c.close();
    assert!(!c.is_open());
    assert_eq!(
        c.client_type(),
        &ModbusClientType::Tcp { ip: IpAddress::V4([192, 0, 2, 1]), port: 502 }
    );
    assert_eq!(c.read(40001, 1), Err(ClientError::NotConnected));
}

#[test]
fn failed_open_stays_disconnected() {
    let mut c = tcp_client();
    let r = c.open(Err("connection refused".to_string()));
    assert_eq!(r, Err(ClientError::ConnectionError("connection refused".to_string())));
    assert!(!c.is_open());
    assert_eq!(c.read(40001, 1), Err(ClientError::NotConnected));
}

#[test]
fn open_stores_the_handle() {
    let mut c = tcp_client();
    assert_eq!(c.open(Ok(3)), Ok(()));
    assert!(c.is_open());
    assert_eq!(c.context_mut().map(|h| *h), Some(3));
}

#[test]
fn timeout_outcome_fails_with_timeout() {
    let c = connected();
    assert_eq!(c.read_result(RequestOutcome::TimedOut), Err(ClientError::Timeout));
    assert_eq!(
        c.write_result(RequestOutcome::<()>::TimedOut),
        Err(ClientError::Timeout)
    );
}

#[test]
fn outcomes_are_classified() {
    let c = connected();
    assert_eq!(c.read_result(RequestOutcome::Done(vec![3, 1, 2])), Ok(vec![3, 1, 2]));
    assert_eq!(
        c.read_result(RequestOutcome::Exception(2)),
        Err(ClientError::ProtocolError(2))
    );
    assert_eq!(
        c.read_result(RequestOutcome::Failed("broken pipe".to_string())),
        Err(ClientError::TransportError("broken pipe".to_string()))
    );
    assert_eq!(c.write_result(RequestOutcome::Done(vec![9u16])), Ok(()));
    assert_eq!(
        c.write_result(RequestOutcome::<()>::Exception(4)),
        Err(ClientError::ProtocolError(4))
    );
}

#[test]
fn request_deadline_is_configurable() {
    let mut c = tcp_client();
    assert_eq!(c.timeout_ms(), REQUEST_TIMEOUT_MS);
    assert_eq!(REQUEST_TIMEOUT_MS, 250);
    c.set_timeout_ms(10);
    assert_eq!(c.timeout_ms(), 10);
    assert!(!c.is_open());
}
