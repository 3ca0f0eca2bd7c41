//! Choice between the serial (RTU) and network (TCP) transport.
use vstd::prelude::*;

verus! {

/// Port on which a Modbus TCP server listens.
pub const MODBUS_TCP_PORT: u16 = 502;

/// An IP address held as its numeric parts.
#[derive(Clone, Copy, Debug, PartialEq, Eq)]
pub enum IpAddress {
    V4([u8; 4]),
    V6([u16; 8]),
}

/// The IPv4 wildcard address `0.0.0.0`.
pub open spec fn spec_unspecified() -> IpAddress {
    IpAddress::V4([0u8, 0u8, 0u8, 0u8])
}

impl IpAddress {
    /// The IPv4 wildcard address `0.0.0.0`.
    pub fn unspecified() -> (r: IpAddress)
        ensures
            r == spec_unspecified(),
    {
        IpAddress::V4([0u8, 0u8, 0u8, 0u8])
    }
}

/// How a client reaches its device.
#[derive(Clone, Debug, PartialEq, Eq)]
pub enum ModbusClientType {
    /// A serial line, by device name and baud rate.
    Rtu { port_name: String, baud_rate: u32 },
    /// A TCP server, by address and port.
    Tcp { ip: IpAddress, port: u16 },
}

/// The host address used for a TCP client: the parsed one, or `0.0.0.0`
/// when the host did not parse.
pub open spec fn host_or_unspecified(ip: Option<IpAddress>) -> IpAddress {
    match ip {
        Some(a) => a,
        None => spec_unspecified(),
    }
}

/// `r` is the descriptor chosen for a serial port name, a baud rate and a
/// host that parsed (`Some`) or did not (`None`): a non-empty port name
/// selects the serial line and ignores the host; an empty one selects TCP
/// on port 502.
pub open spec fn is_selected(
    com_port: Seq<char>,
    baudrate: u32,
    ip: Option<IpAddress>,
    r: ModbusClientType,
) -> bool {
    if com_port.len() > 0 {
        match r {
            ModbusClientType::Rtu { port_name, baud_rate } => port_name@ == com_port && baud_rate == baudrate,
            ModbusClientType::Tcp { .. } => false,
        }
    } else {
        r == (ModbusClientType::Tcp { ip: host_or_unspecified(ip), port: 502 })
    }
}

/// Chooses the transport. Never fails: a host that did not parse becomes
/// the wildcard address.
pub fn select_transport(com_port: &String, baudrate: u32, ip: Option<IpAddress>) -> (r:
    ModbusClientType)
    ensures
        is_selected(com_port@, baudrate, ip, r),
{
    if !com_port.as_str().is_empty() {
        ModbusClientType::Rtu { port_name: com_port.clone(), baud_rate: baudrate }
    } else {
        let addr = match ip {
            Some(a) => a,
            None => IpAddress::unspecified(),
        };
        ModbusClientType::Tcp { ip: addr, port: MODBUS_TCP_PORT }
    }
}

} // verus!
