//! Serial connections: the parameters of an open request, their
//! validation, and the commands that act on the registry of serial
//! workers.

use crate::error::ConnError;
use crate::error::Field;
use crate::marks::casualties;
use crate::marks::survivors;
use crate::registry::Registry;
use crate::registry::after_close;
use crate::registry::closed_by;
use crate::text::same_text;
use vstd::prelude::*;
use vstd::string::StringExecFns;

verus! {

/// How long one read on a serial port may wait, in milliseconds. The
/// worker looks at its stop signal once per read, so this is also the
/// longest that an idle worker takes to notice a stop request.
pub const READ_TIMEOUT_MS: u64 = 100;

/// The number of data bits per character.
#[derive(Clone, Copy, Debug, PartialEq, Eq, Structural)]
pub enum DataBits {
    Five,
    Six,
    Seven,
    Eight,
}

/// The parity checking mode.
#[derive(Clone, Copy, Debug, PartialEq, Eq, Structural)]
pub enum Parity {
    Off,
    Even,
    Odd,
}

/// The number of stop bits after each character.
#[derive(Clone, Copy, Debug, PartialEq, Eq, Structural)]
pub enum StopBits {
    One,
    Two,
}

/// The flow control mode.
#[derive(Clone, Copy, Debug, PartialEq, Eq, Structural)]
pub enum FlowControl {
    Off,
    Software,
    Hardware,
}

/// A request to open a serial port, as it arrives from the command
/// boundary: numbers and names not yet checked.
pub struct SerialOpenArgs {
    pub port: String,
    pub baud: u32,
    pub data_bits: u8,
    pub parity: String,
    pub stop_bits: u8,
    pub flow: String,
    pub conn_id: String,
}

/// A checked serial configuration, ready for the device to be opened.
#[derive(Debug, PartialEq, Eq)]
pub struct SerialConfig {
    pub port: String,
    pub baud: u32,
    pub data_bits: DataBits,
    pub parity: Parity,
    pub stop_bits: StopBits,
    pub flow: FlowControl,
    pub timeout_ms: u64,
}

/// The data-bits setting that a number names, if any.
pub open spec fn data_bits_of(n: u8) -> Option<DataBits> {
    if n == 5 {
        Some(DataBits::Five)
    } else if n == 6 {
        Some(DataBits::Six)
    } else if n == 7 {
        Some(DataBits::Seven)
    } else if n == 8 {
        Some(DataBits::Eight)
    } else {
        None
    }
}

/// The parity mode that a name stands for, if any.
pub open spec fn parity_named(name: Seq<char>) -> Option<Parity> {
    if name == "none"@ {
        Some(Parity::Off)
    } else if name == "even"@ {
        Some(Parity::Even)
    } else if name == "odd"@ {
        Some(Parity::Odd)
    } else {
        None
    }
}

/// The stop-bits setting that a number names, if any.
pub open spec fn stop_bits_of(n: u8) -> Option<StopBits> {
    if n == 1 {
        Some(StopBits::One)
    } else if n == 2 {
        Some(StopBits::Two)
    } else {
        None
    }
}

/// The flow control mode that a name stands for, if any.
pub open spec fn flow_named(name: Seq<char>) -> Option<FlowControl> {
    if name == "none"@ {
        Some(FlowControl::Off)
    } else if name == "software"@ {
        Some(FlowControl::Software)
    } else if name == "hardware"@ {
        Some(FlowControl::Hardware)
    } else {
        None
    }
}

/// A setting if there is one, and otherwise the rejection of its field.
pub open spec fn or_invalid<T>(setting: Option<T>, field: Field) -> Result<T, ConnError> {
    match setting {
        Some(value) => Ok(value),
        None => Err(ConnError::Validation(field)),
    }
}

/// The outcome of checking a serial open request: the configuration, or
/// the first field, in the order data bits, parity, stop bits, flow, that
/// holds no valid setting.
pub open spec fn serial_verdict(args: SerialOpenArgs) -> Result<SerialConfig, ConnError> {
    if data_bits_of(args.data_bits) is None {
        Err(ConnError::Validation(Field::DataBits))
    } else if parity_named(args.parity@) is None {
        Err(ConnError::Validation(Field::Parity))
    } else if stop_bits_of(args.stop_bits) is None {
        Err(ConnError::Validation(Field::StopBits))
    } else if flow_named(args.flow@) is None {
        Err(ConnError::Validation(Field::Flow))
    } else {
        Ok(
            SerialConfig {
                port: args.port,
                baud: args.baud,
                data_bits: data_bits_of(args.data_bits).unwrap(),
                parity: parity_named(args.parity@).unwrap(),
                stop_bits: stop_bits_of(args.stop_bits).unwrap(),
                flow: flow_named(args.flow@).unwrap(),
                timeout_ms: READ_TIMEOUT_MS,
            },
        )
    }
}

/// The connection id used when a request names none.
pub fn default_conn_id() -> (id: String)
    ensures
        id@ == "main"@,
{
    String::from_str("main")
}

/// Maps a number of data bits to its setting; only 5, 6, 7 and 8 are
/// accepted.
pub fn to_data_bits(n: u8) -> (result: Result<DataBits, ConnError>)
    ensures
        result == or_invalid(data_bits_of(n), Field::DataBits),
{
    if n == 5 {
        Ok(DataBits::Five)
    } else if n == 6 {
        Ok(DataBits::Six)
    } else if n == 7 {
        Ok(DataBits::Seven)
    } else if n == 8 {
        Ok(DataBits::Eight)
    } else {
        Err(ConnError::Validation(Field::DataBits))
    }
}

/// Maps the name of a parity mode to the mode; only `none`, `even` and
/// `odd` are accepted.
pub fn to_parity(s: &str) -> (result: Result<Parity, ConnError>)
    ensures
        result == or_invalid(parity_named(s@), Field::Parity),
{
    if same_text(s, "none") {
        Ok(Parity::Off)
    } else if same_text(s, "even") {
        Ok(Parity::Even)
    } else if same_text(s, "odd") {
        Ok(Parity::Odd)
    } else {
        Err(ConnError::Validation(Field::Parity))
    }
}

/// Maps a number of stop bits to its setting; only 1 and 2 are accepted.
pub fn to_stop_bits(n: u8) -> (result: Result<StopBits, ConnError>)
    ensures
        result == or_invalid(stop_bits_of(n), Field::StopBits),
{
    if n == 1 {
        Ok(StopBits::One)
    } else if n == 2 {
        Ok(StopBits::Two)
    } else {
        Err(ConnError::Validation(Field::StopBits))
    }
}

/// Maps the name of a flow control mode to the mode; only `none`,
/// `software` and `hardware` are accepted.
pub fn to_flow(s: &str) -> (result: Result<FlowControl, ConnError>)
    ensures
        result == or_invalid(flow_named(s@), Field::Flow),
{
    if same_text(s, "none") {
        Ok(FlowControl::Off)
    } else if same_text(s, "software") {
        Ok(FlowControl::Software)
    } else if same_text(s, "hardware") {
        Ok(FlowControl::Hardware)
    } else {
        Err(ConnError::Validation(Field::Flow))
    }
}

/// Checks a serial open request and maps it to a configuration, before
/// the device is touched.
pub fn validate(args: &SerialOpenArgs) -> (result: Result<SerialConfig, ConnError>)
    ensures
        result == serial_verdict(*args),
{
    let data_bits = match to_data_bits(args.data_bits) {
        Ok(v) => v,
        Err(e) => {
            return Err(e);
        },
    };
    let parity = match to_parity(args.parity.as_str()) {
        Ok(v) => v,
        Err(e) => {
            return Err(e);
        },
    };
    let stop_bits = match to_stop_bits(args.stop_bits) {
        Ok(v) => v,
        Err(e) => {
            return Err(e);
        },
    };
    let flow = match to_flow(args.flow.as_str()) {
        Ok(v) => v,
        Err(e) => {
            return Err(e);
        },
    };
    Ok(
        SerialConfig {
            port: args.port.clone(),
            baud: args.baud,
            data_bits,
            parity,
            stop_bits,
            flow,
            timeout_ms: READ_TIMEOUT_MS,
        },
    )
}

/// The failure to report when the operating system refuses to open the
/// device: `<port>: <cause>`.
pub open spec fn open_failure_text(port: Seq<char>, cause: Seq<char>) -> Seq<char> {
    port + ": "@ + cause
}

/// The error for a device that could not be opened.
pub fn open_failure(config: &SerialConfig, cause: &str) -> (error: ConnError)
    ensures
        error matches ConnError::TransportOpen(detail) && detail@ == open_failure_text(
            config.port@,
            cause@,
        ),
{
    let mut detail = config.port.clone();
    detail.append(": ");
    detail.append(cause);
    ConnError::TransportOpen(detail)
}

/// The first half of opening a serial connection, up to the point where
/// the device is opened. Workers whose threads have finished are pruned,
/// the worker that serves the request's id is stopped and retired, and
/// only then is the request checked. The caller joins the retired
/// threads, opens the device with the configuration returned, spawns
/// the new worker and installs its handle; on an error nothing is left
/// to install.
pub fn open_and_spawn<J>(
    registry: &mut Registry<J>,
    args: &SerialOpenArgs,
    finished: &Vec<bool>,
) -> (result: Result<SerialConfig, ConnError>)
    requires
        old(registry).wf(),
    ensures
        final(registry).wf(),
        !final(registry).has(args.conn_id@),
        final(registry).live() == after_close(
            survivors(old(registry).live(), finished@),
            Some(args.conn_id@),
        ),
        final(registry).retired() == old(registry).retired() + casualties(
            old(registry).live(),
            finished@,
        ) + closed_by(survivors(old(registry).live(), finished@), Some(args.conn_id@)),
        result == serial_verdict(*args),
{
    registry.prune(finished);
    registry.evict(args.conn_id.as_str());
    validate(args)
}

/// Closes the serial connection `conn_id`, or all of them when no id is
/// given, after pruning the workers whose threads have finished. Closing
/// an id that is not connected succeeds and changes nothing.
pub fn close<J>(registry: &mut Registry<J>, conn_id: Option<String>, finished: &Vec<bool>) -> (result:
    Result<(), ConnError>)
    requires
        old(registry).wf(),
    ensures
        result is Ok,
        final(registry).wf(),
        final(registry).live() == after_close(
            survivors(old(registry).live(), finished@),
            opt_id(conn_id),
        ),
        final(registry).retired() == old(registry).retired() + casualties(
            old(registry).live(),
            finished@,
        ) + closed_by(survivors(old(registry).live(), finished@), opt_id(conn_id)),
{
    registry.prune(finished);
    match conn_id {
        Some(id) => registry.close(Some(id.as_str())),
        None => registry.close(None),
    }
    Ok(())
}

/// Queues `payload` for the serial connection `conn_id`, framed by the
/// line ending that `append` names. Never blocks.
pub fn tx<J>(registry: &Registry<J>, payload: String, append: String, conn_id: String) -> (result:
    Result<(), ConnError>)
    ensures
        !registry.has(conn_id@) ==> result == Err::<(), ConnError>(ConnError::NotFound),
        registry.has(conn_id@) ==> result == Ok::<(), ConnError>(()) || result == Err::<
            (),
            ConnError,
        >(ConnError::QueueFullOrClosed),
{
    registry.transmit(conn_id.as_str(), payload, append.as_str())
}

/// The text of an optional connection id.
pub open spec fn opt_id(id: Option<String>) -> Option<Seq<char>> {
    match id {
        Some(text) => Some(text@),
        None => None,
    }
}

} // verus!
