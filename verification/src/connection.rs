//! The serial connection shared by every panel: it opens the device lazily
//! before the first write, silently skips writes while the wire is away,
//! and drops the handle on a failed write so the next write reopens it.
//! The installation must keep running with or without the hardware, so no
//! transmission error is ever fatal and nothing is buffered or retried:
//! the next tick's session supersedes anything that was lost.

use vstd::prelude::*;

verus! {

#[verifier::external_type_specification]
#[verifier::external_body]
pub struct ExSerialPort(serial2::SerialPort);

/// Relies on `serial2::SerialPort::open`: opens and configures the serial
/// device at `name` with the given baud rate. Whether it succeeds depends
/// on the machine, so nothing is promised of the outcome.
#[verifier::external_body]
fn open_serial(name: &str, baud: u32) -> (port: Option<serial2::SerialPort>) {
    match serial2::SerialPort::open(name, baud) {
        Ok(p) => Some(p),
        Err(_) => None,
    }
}

/// Relies on `serial2::SerialPort::write_all`: writes the whole buffer to
/// the wire, reporting whether it succeeded. The outcome depends on the
/// device, so nothing is promised of it.
#[verifier::external_body]
fn write_serial(port: &serial2::SerialPort, data: &Vec<u8>) -> (ok: bool) {
    match port.write_all(data.as_slice()) {
        Ok(()) => true,
        Err(_) => false,
    }
}

/// Owner of the serial device handle for the shared panel bus.
pub struct Connection {
    port_name: String,
    baud: u32,
    port: Option<serial2::SerialPort>,
    connected: bool,
    print_activity: bool,
}

impl Connection {
    /// The connected flag mirrors whether a handle is held.
    pub closed spec fn wf(self) -> bool {
        self.connected <==> self.port is Some
    }

    /// Whether a handle is currently held.
    pub closed spec fn spec_connected(self) -> bool {
        self.connected
    }

    pub closed spec fn spec_port_name(self) -> Seq<char> {
        self.port_name@
    }

    /// Baud rate the connection opens the device with.
    pub closed spec fn spec_baud(self) -> u32 {
        self.baud
    }

    /// Whether the owner asked for connection activity to be logged.
    pub closed spec fn spec_print_activity(self) -> bool {
        self.print_activity
    }

    /// A closed connection for the named device; nothing is opened yet.
    pub fn new(port_name: &str, baud: u32, print_activity: bool) -> (c: Connection)
        ensures
            c.wf(),
            !c.spec_connected(),
            c.spec_port_name() == port_name@,
            c.spec_baud() == baud,
            c.spec_print_activity() == print_activity,
    {
        Connection {
            port_name: port_name.to_owned(),
            baud,
            port: None,
            connected: false,
            print_activity,
        }
    }

    pub fn is_connected(&self) -> (b: bool)
        ensures
            b == self.spec_connected(),
    {
        self.connected
    }

    /// Whether the owner asked for connection activity to be logged; the
    /// caller does the logging, since this library performs no output.
    pub fn print_activity(&self) -> (b: bool)
        ensures
            b == self.spec_print_activity(),
    {
        self.print_activity
    }

    /// Tries to open the device unless a handle is already held. Success
    /// depends on the machine: afterwards the connection is either open or
    /// closed, with the flag mirroring the handle either way, and an
    /// already-open connection is left alone.
    pub fn open_port(&mut self)
        requires
            old(self).wf(),
        ensures
            final(self).wf(),
            final(self).spec_port_name() == old(self).spec_port_name(),
            final(self).spec_baud() == old(self).spec_baud(),
            final(self).spec_print_activity() == old(self).spec_print_activity(),
            old(self).spec_connected() ==> *final(self) == *old(self),
    {
        if self.connected {
            return;
        }
        match open_serial(self.port_name.as_str(), self.baud) {
            Some(p) => {
                self.port = Some(p);
                self.connected = true;
            },
            None => {
                self.port = None;
                self.connected = false;
            },
        }
    }

    /// Best-effort write of one buffer. Opens the device lazily if no
    /// handle is held; if none can be had, the data is dropped silently.
    /// On a failed write the handle is dropped and the connection marked
    /// closed, so the next write reopens. Returns whether the buffer went
    /// out; the connection state always stays well-formed and never makes
    /// the caller fail or wait.
    pub fn write(&mut self, data: &Vec<u8>) -> (sent: bool)
        requires
            old(self).wf(),
        ensures
            final(self).wf(),
            final(self).spec_port_name() == old(self).spec_port_name(),
            final(self).spec_baud() == old(self).spec_baud(),
            final(self).spec_print_activity() == old(self).spec_print_activity(),
            sent == final(self).spec_connected(),
            old(self).spec_connected() && sent ==> *final(self) == *old(self),
    {
        self.open_port();
        let sent: bool = match &self.port {
            Some(p) => write_serial(p, data),
            None => false,
        };
        if !sent {
            self.port = None;
            self.connected = false;
        }
        sent
    }
}

} // verus!
