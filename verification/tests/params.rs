use portlink::error::ConnError;
use portlink::error::Field;
use portlink::params::ConnectionParams;
use portlink::ports::describe_port;
use portlink::ports::list_ports;
use portlink::ports::PortInfo;
use portlink::ports::UsbInfo;
use portlink::registry::Registry;
use portlink::registry::WorkerHandle;
use portlink::serial;
use portlink::serial::DataBits;
use portlink::serial::FlowControl;
use portlink::serial::Parity;
use portlink::serial::SerialConfig;
use portlink::serial::SerialOpenArgs;
use portlink::serial::StopBits;
use portlink::socket;
use portlink::socket::Protocol;
use portlink::socket::SocketConfig;
use portlink::socket::SocketOpenArgs;
use portlink::telemetry::Origin;
use portlink::worker::worker_queues;
use portlink::worker::Inbox;
use portlink::worker::TransportKind;

fn serial_args(data_bits: u8, parity: &str, stop_bits: u8, flow: &str) -> SerialOpenArgs {
    SerialOpenArgs {
        port: "/dev/ttyUSB0".to_string(),
        baud: 115200,
        data_bits,
        parity: parity.to_string(),
        stop_bits,
        flow: flow.to_string(),
        conn_id: serial::default_conn_id(),
    }
}

fn socket_args(proto: &str) -> SocketOpenArgs {
    SocketOpenArgs {
        host: "10.0.0.7".to_string(),
        port: 5000,
        proto: proto.to_string(),
        conn_id: socket::default_conn_id(),
    }
}

fn connect(registry: &mut Registry<u32>, id: &str, token: u32) -> Inbox {
    let (controls, inbox) = worker_queues();
    registry.install(WorkerHandle::assemble(id.to_string(), controls, token));
    inbox
}

#[test]
fn the_default_connection_id_is_main() {
    assert_eq!(serial::default_conn_id(), "main");
    assert_eq!(socket::default_conn_id(), "main");
}

#[test]
fn data_bits_accept_five_to_eight() {
    assert_eq!(serial::to_data_bits(5), Ok(DataBits::Five));
    assert_eq!(serial::to_data_bits(6), Ok(DataBits::Six));
    assert_eq!(serial::to_data_bits(7), Ok(DataBits::Seven));
    assert_eq!(serial::to_data_bits(8), Ok(DataBits::Eight));
    for n in [0u8, 4, 9, 255] {
        assert_eq!(serial::to_data_bits(n), Err(ConnError::Validation(Field::DataBits)));
    }
}

#[test]
fn parity_accepts_its_three_names() {
    assert_eq!(serial::to_parity("none"), Ok(Parity::Off));
    assert_eq!(serial::to_parity("even"), Ok(Parity::Even));
    assert_eq!(serial::to_parity("odd"), Ok(Parity::Odd));
    for name in ["", "None", "EVEN", "mark", "odd "] {
        assert_eq!(serial::to_parity(name), Err(ConnError::Validation(Field::Parity)));
    }
}

#[test]
fn stop_bits_accept_one_and_two() {
    assert_eq!(serial::to_stop_bits(1), Ok(StopBits::One));
    assert_eq!(serial::to_stop_bits(2), Ok(StopBits::Two));
    for n in [0u8, 3, 255] {
        assert_eq!(serial::to_stop_bits(n), Err(ConnError::Validation(Field::StopBits)));
    }
}

#[test]
fn flow_accepts_its_three_names() {
    assert_eq!(serial::to_flow("none"), Ok(FlowControl::Off));
    assert_eq!(serial::to_flow("software"), Ok(FlowControl::Software));
    assert_eq!(serial::to_flow("hardware"), Ok(FlowControl::Hardware));
    for name in ["", "Hardware", "rtscts", "xonxoff"] {
        assert_eq!(serial::to_flow(name), Err(ConnError::Validation(Field::Flow)));
    }
}

#[test]
fn a_valid_serial_request_becomes_a_configuration() {
    let config = serial::validate(&serial_args(8, "none", 1, "none"));
    assert_eq!(
        config,
        Ok(SerialConfig {
            port: "/dev/ttyUSB0".to_string(),
            baud: 115200,
            data_bits: DataBits::Eight,
            parity: Parity::Off,
            stop_bits: StopBits::One,
            flow: FlowControl::Off,
            timeout_ms: 100,
        })
    );
    let other = serial::validate(&serial_args(7, "even", 2, "hardware")).unwrap();
    assert_eq!(other.data_bits, DataBits::Seven);
    assert_eq!(other.parity, Parity::Even);
    assert_eq!(other.stop_bits, StopBits::Two);
    assert_eq!(other.flow, FlowControl::Hardware);
}

#[test]
fn the_first_invalid_serial_field_is_reported() {
    assert_eq!(
        serial::validate(&serial_args(9, "bad", 3, "bad")),
        Err(ConnError::Validation(Field::DataBits))
    );
    assert_eq!(
        serial::validate(&serial_args(8, "bad", 3, "bad")),
        Err(ConnError::Validation(Field::Parity))
    );
    assert_eq!(
        serial::validate(&serial_args(8, "odd", 3, "bad")),
        Err(ConnError::Validation(Field::StopBits))
    );
    assert_eq!(
        serial::validate(&serial_args(8, "odd", 2, "bad")),
        Err(ConnError::Validation(Field::Flow))
    );
}

#[test]
fn protocol_names_are_read_in_any_case() {
    for name in ["tcp", "TCP", "Tcp", "tCP"] {
        assert_eq!(socket::to_protocol(name), Ok(Protocol::Tcp));
    }
    for name in ["udp", "UDP", "uDp"] {
        assert_eq!(socket::to_protocol(name), Ok(Protocol::Udp));
    }
    for name in ["", "tcp4", " tcp", "tcp ", "tc", "sctp", "ud", "t\u{441}p", "tc\u{3c1}", "\u{ff54}cp"] {
        assert_eq!(socket::to_protocol(name), Err(ConnError::Validation(Field::Protocol)));
    }
}

#[test]
fn a_valid_socket_request_becomes_a_configuration() {
    assert_eq!(
        socket::validate(&socket_args("UDP")),
        Ok(SocketConfig {
            host: "10.0.0.7".to_string(),
            port: 5000,
            protocol: Protocol::Udp,
            timeout_ms: 100,
        })
    );
    assert_eq!(
        socket::validate(&socket_args("http")),
        Err(ConnError::Validation(Field::Protocol))
    );
}

#[test]
fn peer_address_joins_host_and_port() {
    let config = socket::validate(&socket_args("tcp")).unwrap();
    assert_eq!(socket::peer_address(&config), "10.0.0.7:5000");
    let edge = SocketConfig { host: String::new(), port: 0, protocol: Protocol::Tcp, timeout_ms: 100 };
    assert_eq!(socket::peer_address(&edge), ":0");
    let top = SocketConfig {
        host: "::1".to_string(),
        port: 65535,
        protocol: Protocol::Udp,
        timeout_ms: 100,
    };
    assert_eq!(socket::peer_address(&top), "::1:65535");
}

#[test]
fn opening_serial_retires_the_previous_worker_even_when_the_request_is_bad() {
    let mut registry: Registry<u32> = Registry::new();
    let main = connect(&mut registry, "main", 1);
    let _aux = connect(&mut registry, "aux", 2);
    let result = serial::open_and_spawn(&mut registry, &serial_args(3, "none", 1, "none"), &vec![false, false]);
    assert_eq!(result, Err(ConnError::Validation(Field::DataBits)));
    assert!(!registry.contains("main"));
    assert!(registry.contains("aux"));
    assert_eq!(main.stop.try_recv(), Ok(()));
    let retired = registry.take_retired();
    assert_eq!(retired.len(), 1);
    assert_eq!(retired[0].join, 1);
}

#[test]
fn opening_serial_prunes_then_evicts_then_validates() {
    let mut registry: Registry<u32> = Registry::new();
    let _dead = connect(&mut registry, "dead", 1);
    let _main = connect(&mut registry, "main", 2);
    let _aux = connect(&mut registry, "aux", 3);
    let result = serial::open_and_spawn(
        &mut registry,
        &serial_args(8, "none", 1, "software"),
        &vec![true, false, false],
    );
    assert_eq!(result.unwrap().flow, FlowControl::Software);
    assert_eq!(registry.len(), 1);
    assert!(registry.contains("aux"));
    let retired = registry.take_retired();
    assert_eq!(retired.len(), 2);
    assert_eq!(retired[0].conn_id, "dead");
    assert_eq!(retired[1].conn_id, "main");
}

#[test]
fn opening_a_socket_retires_the_previous_worker() {
    let mut registry: Registry<u32> = Registry::new();
    let main = connect(&mut registry, "main", 1);
    let result = socket::open_and_spawn(&mut registry, &socket_args("Tcp"), &vec![false]);
    assert_eq!(result.unwrap().protocol, Protocol::Tcp);
    assert!(!registry.contains("main"));
    assert_eq!(main.stop.try_recv(), Ok(()));
    let fresh = connect(&mut registry, "main", 2);
    assert!(registry.contains("main"));
    assert_eq!(registry.len(), 1);
    assert!(fresh.stop.try_recv().is_err());
    let bad = socket::open_and_spawn(&mut registry, &socket_args("ftp"), &vec![false]);
    assert_eq!(bad, Err(ConnError::Validation(Field::Protocol)));
    assert!(!registry.contains("main"));
}

#[test]
fn serial_close_and_tx_act_on_the_registry() {
    let mut registry: Registry<u32> = Registry::new();
    let main = connect(&mut registry, "main", 1);
    let _aux = connect(&mut registry, "aux", 2);
    assert_eq!(
        serial::tx(&registry, "AT".to_string(), "lf".to_string(), "main".to_string()),
        Ok(())
    );
    assert_eq!(main.outbound.try_recv(), Ok(b"AT\n".to_vec()));
    assert_eq!(
        serial::tx(&registry, "AT".to_string(), "lf".to_string(), "ghost".to_string()),
        Err(ConnError::NotFound)
    );
    assert_eq!(serial::close(&mut registry, Some("main".to_string()), &vec![false, false]), Ok(()));
    assert!(!registry.contains("main"));
    assert!(registry.contains("aux"));
    assert_eq!(serial::close(&mut registry, Some("ghost".to_string()), &vec![false]), Ok(()));
    assert_eq!(registry.len(), 1);
    assert_eq!(serial::close(&mut registry, None, &vec![false]), Ok(()));
    assert_eq!(registry.len(), 0);
    assert_eq!(
        serial::tx(&registry, "AT".to_string(), "lf".to_string(), "aux".to_string()),
        Err(ConnError::NotFound)
    );
}

#[test]
fn socket_close_and_tx_act_on_the_registry() {
    let mut registry: Registry<u32> = Registry::new();
    let main = connect(&mut registry, "main", 1);
    assert_eq!(
        socket::tx(&registry, "ping".to_string(), "crlf".to_string(), "main".to_string()),
        Ok(())
    );
    assert_eq!(main.outbound.try_recv(), Ok(b"ping\r\n".to_vec()));
    drop(main);
    assert_eq!(
        socket::tx(&registry, "ping".to_string(), "crlf".to_string(), "main".to_string()),
        Err(ConnError::QueueFullOrClosed)
    );
    assert_eq!(socket::close(&mut registry, None, &vec![true]), Ok(()));
    assert_eq!(registry.len(), 0);
    assert_eq!(registry.take_retired().len(), 1);
}

#[test]
fn connection_params_name_kind_origin_and_timeout() {
    let serial_params = ConnectionParams::Serial(serial::validate(&serial_args(8, "none", 1, "none")).unwrap());
    assert_eq!(serial_params.transport_kind(), TransportKind::Serial);
    assert_eq!(serial_params.origin(), Origin::Serial);
    assert_eq!(serial_params.read_timeout_ms(), 100);
    let tcp = ConnectionParams::Socket(socket::validate(&socket_args("tcp")).unwrap());
    assert_eq!(tcp.transport_kind(), TransportKind::Tcp);
    assert_eq!(tcp.origin(), Origin::Socket);
    let udp = ConnectionParams::Socket(socket::validate(&socket_args("udp")).unwrap());
    assert_eq!(udp.transport_kind(), TransportKind::Udp);
    assert_eq!(udp.read_timeout_ms(), 100);
}

#[test]
fn error_messages_describe_the_failure() {
    assert_eq!(ConnError::Validation(Field::DataBits).message(), "invalid databits");
    assert_eq!(ConnError::Validation(Field::Parity).message(), "invalid parity");
    assert_eq!(ConnError::Validation(Field::StopBits).message(), "invalid stopbits");
    assert_eq!(ConnError::Validation(Field::Flow).message(), "invalid flow");
    assert_eq!(ConnError::Validation(Field::Protocol).message(), "unsupported protocol");
    assert_eq!(
        ConnError::TransportOpen("permission denied".to_string()).message(),
        "transport open failed: permission denied"
    );
    assert_eq!(ConnError::NotFound.message(), "connection not found");
    assert_eq!(ConnError::QueueFullOrClosed.message(), "outbound queue full or closed");
    assert_eq!(ConnError::FatalIo("reset".to_string()).message(), "i/o failed: reset");
}

#[test]
fn usb_ports_are_labelled_with_their_device() {
    let port = PortInfo {
        port_name: "/dev/ttyUSB0".to_string(),
        usb: Some(UsbInfo {
            manufacturer: Some("FTDI".to_string()),
            product: Some("FT232R".to_string()),
            vid: 1027,
            pid: 24577,
        }),
    };
    assert_eq!(describe_port(&port), "/dev/ttyUSB0 (USB: FTDI FT232R 1027:24577)");
    let bare = PortInfo {
        port_name: "COM3".to_string(),
        usb: Some(UsbInfo { manufacturer: None, product: None, vid: 0, pid: 65535 }),
    };
    assert_eq!(describe_port(&bare), "COM3 (USB:   0:65535)");
}

#[test]
fn other_ports_are_labelled_with_their_name() {
    let port = PortInfo { port_name: "/dev/ttyS0".to_string(), usb: None };
    assert_eq!(describe_port(&port), "/dev/ttyS0");
}

#[test]
fn list_ports_labels_each_port_in_order() {
    let ports = vec![
        PortInfo { port_name: "/dev/ttyS0".to_string(), usb: None },
        PortInfo {
            port_name: "/dev/ttyACM0".to_string(),
            usb: Some(UsbInfo {
                manufacturer: Some("Arduino".to_string()),
                product: None,
                vid: 9025,
                pid: 67,
            }),
        },
    ];
    assert_eq!(
        list_ports(ports),
        vec!["/dev/ttyS0".to_string(), "/dev/ttyACM0 (USB: Arduino  9025:67)".to_string()]
    );
    assert!(list_ports(Vec::new()).is_empty());
}

#[test]
fn open_failures_name_what_could_not_be_opened() {
    let config = serial::validate(&serial_args(8, "none", 1, "none")).unwrap();
    assert_eq!(
        serial::open_failure(&config, "No such file or directory"),
        ConnError::TransportOpen("/dev/ttyUSB0: No such file or directory".to_string())
    );
    let tcp = socket::validate(&socket_args("tcp")).unwrap();
    assert_eq!(
        socket::open_failure(&tcp, "connection refused"),
        ConnError::TransportOpen("TCP connect 10.0.0.7:5000: connection refused".to_string())
    );
    let udp = socket::validate(&socket_args("udp")).unwrap();
    assert_eq!(
        socket::open_failure(&udp, "address in use"),
        ConnError::TransportOpen("UDP bind 0.0.0.0:0: address in use".to_string())
    );
    assert_eq!(socket::udp_local_address(), "0.0.0.0:0");
}
