//! Socket connections over TCP and UDP: the parameters of an open
//! request, their validation, and the commands that act on the registry
//! of socket workers.

use crate::error::ConnError;
use crate::error::Field;
use crate::marks::casualties;
use crate::marks::survivors;
use crate::registry::Registry;
use crate::registry::after_close;
use crate::registry::closed_by;
use crate::serial::opt_id;
use crate::text::decimal;
use crate::text::folded;
use crate::text::render_decimal;
use crate::text::same_text_ignoring_case;
use vstd::prelude::*;
use vstd::string::StringExecFns;

verus! {

/// How long one read on a socket may wait, in milliseconds.
pub const READ_TIMEOUT_MS: u64 = 100;

/// The transport protocol of a socket connection.
#[derive(Clone, Copy, Debug, PartialEq, Eq, Structural)]
pub enum Protocol {
    Tcp,
    Udp,
}

/// A request to open a socket, as it arrives from the command boundary.
pub struct SocketOpenArgs {
    pub host: String,
    pub port: u16,
    pub proto: String,
    pub conn_id: String,
}

/// A checked socket configuration, ready to connect or bind.
#[derive(Debug, PartialEq, Eq)]
pub struct SocketConfig {
    pub host: String,
    pub port: u16,
    pub protocol: Protocol,
    pub timeout_ms: u64,
}

/// The protocol that a name stands for, whatever the case of its letters.
pub open spec fn protocol_named(name: Seq<char>) -> Option<Protocol> {
    if folded(name) == "tcp"@ {
        Some(Protocol::Tcp)
    } else if folded(name) == "udp"@ {
        Some(Protocol::Udp)
    } else {
        None
    }
}

/// The outcome of checking a socket open request.
pub open spec fn socket_verdict(args: SocketOpenArgs) -> Result<SocketConfig, ConnError> {
    match protocol_named(args.proto@) {
        Some(protocol) => Ok(
            SocketConfig {
                host: args.host,
                port: args.port,
                protocol,
                timeout_ms: READ_TIMEOUT_MS,
            },
        ),
        None => Err(ConnError::Validation(Field::Protocol)),
    }
}

/// The address of the peer, as `host:port`.
pub open spec fn peer_text(host: Seq<char>, port: u16) -> Seq<char> {
    host + seq![':'] + decimal(port as nat)
}

/// The connection id used when a request names none.
pub fn default_conn_id() -> (id: String)
    ensures
        id@ == "main"@,
{
    String::from_str("main")
}

/// Maps the name of a protocol to the protocol; `tcp` and `udp` are
/// accepted in any mix of upper and lower case, and nothing else.
pub fn to_protocol(s: &str) -> (result: Result<Protocol, ConnError>)
    ensures
        result == match protocol_named(s@) {
            Some(protocol) => Ok::<Protocol, ConnError>(protocol),
            None => Err::<Protocol, ConnError>(ConnError::Validation(Field::Protocol)),
        },
{
    proof {
        reveal_strlit("tcp");
        reveal_strlit("udp");
        assert(folded("tcp"@) =~= "tcp"@);
        assert(folded("udp"@) =~= "udp"@);
    }
    if same_text_ignoring_case(s, "tcp") {
        Ok(Protocol::Tcp)
    } else if same_text_ignoring_case(s, "udp") {
        Ok(Protocol::Udp)
    } else {
        Err(ConnError::Validation(Field::Protocol))
    }
}

/// Checks a socket open request, before any socket is made.
pub fn validate(args: &SocketOpenArgs) -> (result: Result<SocketConfig, ConnError>)
    ensures
        result == socket_verdict(*args),
{
    match to_protocol(args.proto.as_str()) {
        Ok(protocol) => Ok(
            SocketConfig {
                host: args.host.clone(),
                port: args.port,
                protocol,
                timeout_ms: READ_TIMEOUT_MS,
            },
        ),
        Err(e) => Err(e),
    }
}

/// The address to dial or to send to, as `host:port`.
pub fn peer_address(config: &SocketConfig) -> (address: String)
    ensures
        address@ == peer_text(config.host@, config.port),
{
    proof {
        reveal_strlit(":");
    }
    let mut address = config.host.clone();
    address.append(":");
    let port = render_decimal(config.port as u128);
    address.append(port.as_str());
    assert(address@ =~= peer_text(config.host@, config.port));
    address
}

/// The local address that a UDP socket binds: any interface, a port of
/// the system's choosing.
pub open spec fn udp_local_text() -> Seq<char> {
    "0.0.0.0:0"@
}

/// The failure to report when a socket cannot be made: for TCP
/// `TCP connect <host:port>: <cause>`, for UDP
/// `UDP bind 0.0.0.0:0: <cause>`.
pub open spec fn open_failure_text(config: SocketConfig, cause: Seq<char>) -> Seq<char> {
    match config.protocol {
        Protocol::Tcp => "TCP connect "@ + peer_text(config.host@, config.port) + ": "@ + cause,
        Protocol::Udp => "UDP bind "@ + udp_local_text() + ": "@ + cause,
    }
}

/// The local address for a UDP socket to bind.
pub fn udp_local_address() -> (address: &'static str)
    ensures
        address@ == udp_local_text(),
{
    "0.0.0.0:0"
}

/// The error for a socket that could not be connected or bound.
pub fn open_failure(config: &SocketConfig, cause: &str) -> (error: ConnError)
    ensures
        error matches ConnError::TransportOpen(detail) && detail@ == open_failure_text(
            *config,
            cause@,
        ),
{
    let mut detail = match config.protocol {
        Protocol::Tcp => {
            let mut text = String::from_str("TCP connect ");
            let peer = peer_address(config);
            text.append(peer.as_str());
            text
        },
        Protocol::Udp => {
            let mut text = String::from_str("UDP bind ");
            text.append(udp_local_address());
            text
        },
    };
    detail.append(": ");
    detail.append(cause);
    ConnError::TransportOpen(detail)
}

/// The first half of opening a socket connection, up to the point where
/// the socket is made. Workers whose threads have finished are pruned,
/// the worker that serves the request's id is stopped and retired, and
/// only then is the request checked. The caller joins the retired
/// threads, connects or binds with the configuration returned, spawns
/// the new worker and installs its handle; on an error nothing is left
/// to install.
pub fn open_and_spawn<J>(
    registry: &mut Registry<J>,
    args: &SocketOpenArgs,
    finished: &Vec<bool>,
) -> (result: Result<SocketConfig, ConnError>)
    requires
        old(registry).wf(),
    ensures
        final(registry).wf(),
        !final(registry).has(args.conn_id@),
        final(registry).live() == after_close(
            survivors(old(registry).live(), finished@),
            Some(args.conn_id@),
        ),
        final(registry).retired() == old(registry).retired() + casualties(
            old(registry).live(),
            finished@,
        ) + closed_by(survivors(old(registry).live(), finished@), Some(args.conn_id@)),
        result == socket_verdict(*args),
{
    registry.prune(finished);
    registry.evict(args.conn_id.as_str());
    validate(args)
}

/// Closes the socket connection `conn_id`, or all of them when no id is
/// given, after pruning the workers whose threads have finished. Closing
/// an id that is not connected succeeds and changes nothing.
pub fn close<J>(registry: &mut Registry<J>, conn_id: Option<String>, finished: &Vec<bool>) -> (result:
    Result<(), ConnError>)
    requires
        old(registry).wf(),
    ensures
        result is Ok,
        final(registry).wf(),
        final(registry).live() == after_close(
            survivors(old(registry).live(), finished@),
            opt_id(conn_id),
        ),
        final(registry).retired() == old(registry).retired() + casualties(
            old(registry).live(),
            finished@,
        ) + closed_by(survivors(old(registry).live(), finished@), opt_id(conn_id)),
{
    registry.prune(finished);
    match conn_id {
        Some(id) => registry.close(Some(id.as_str())),
        None => registry.close(None),
    }
    Ok(())
}

/// Queues `payload` for the socket connection `conn_id`, framed by the
/// line ending that `append` names. Never blocks.
pub fn tx<J>(registry: &Registry<J>, payload: String, append: String, conn_id: String) -> (result:
    Result<(), ConnError>)
    ensures
        !registry.has(conn_id@) ==> result == Err::<(), ConnError>(ConnError::NotFound),
        registry.has(conn_id@) ==> result == Ok::<(), ConnError>(()) || result == Err::<
            (),
            ConnError,
        >(ConnError::QueueFullOrClosed),
{
    registry.transmit(conn_id.as_str(), payload, append.as_str())
}

} // verus!
