//! The device session: the connection to the remote control server and the
//! one device that is driven.
//!
//! Nothing here touches the network. The caller makes each request and tells
//! the session how it ended; the session says what state that leaves and
//! what is to be sent.

use crate::intensity::Intensity;
use vstd::prelude::*;

verus! {

/// A remote actuator, as the server announced it.
#[derive(Clone, Copy, Debug, PartialEq, Eq)]
pub struct Device {
    /// The identity under which the server knows the device.
    pub id: u32,
    /// Whether the device takes vibration commands.
    pub vibrates: bool,
}

/// The state of a session. A device is bound only while the session is
/// active, and at most one at a time.
#[derive(Clone, Copy, Debug, PartialEq, Eq)]
pub enum Session {
    /// Nothing has been asked of the server yet.
    Disconnected,
    /// The connection has been asked for.
    Connecting,
    /// The server has accepted the connection.
    Connected,
    /// Device discovery has been asked for.
    Scanning,
    /// Events and commands flow; `bound` is the device that is driven.
    Active { bound: Option<Device> },
    /// The session is over for good.
    Terminated,
}

/// What the caller is to do after a transition.
#[derive(Clone, Copy, Debug, PartialEq, Eq)]
pub enum Action {
    /// Nothing.
    Idle,
    /// Send a vibration command of this level to this device.
    Vibrate { device: Device, level: Intensity },
    /// Leave the event loop.
    Stop,
}

/// Why a connection was not established.
#[derive(Clone, Copy, Debug, PartialEq, Eq)]
pub enum ConnectError {
    /// The server refused; the session is terminated.
    Refused,
    /// No connection was being established; the session is as it was.
    NotConnecting,
}

/// Why device discovery did not start.
#[derive(Clone, Copy, Debug, PartialEq, Eq)]
pub enum ScanError {
    /// The server refused; the session is terminated.
    Refused,
    /// No discovery had been asked for; the session is as it was.
    NotScanning,
}

impl Session {
    /// The device that is driven, if any.
    pub open spec fn bound(self) -> Option<Device> {
        match self {
            Session::Active { bound } => bound,
            _ => None,
        }
    }

    /// A bound device takes vibration commands.
    pub open spec fn wf(self) -> bool {
        self.bound() matches Some(device) ==> device.vibrates
    }

    /// After a connection is asked for.
    pub open spec fn connect_begun(self) -> Session {
        if self is Disconnected {
            Session::Connecting
        } else {
            self
        }
    }

    /// After the server answered the request to connect.
    pub open spec fn connect_answered(self, accepted: bool) -> Session {
        if self is Connecting {
            if accepted {
                Session::Connected
            } else {
                Session::Terminated
            }
        } else {
            self
        }
    }

    /// After device discovery is asked for.
    pub open spec fn scan_begun(self) -> Session {
        if self is Connected {
            Session::Scanning
        } else {
            self
        }
    }

    /// After the server answered the request to scan.
    pub open spec fn scan_answered(self, accepted: bool) -> Session {
        if self is Scanning {
            if accepted {
                Session::Active { bound: None }
            } else {
                Session::Terminated
            }
        } else {
            self
        }
    }

    /// After a device is announced: an active session binds it if it
    /// vibrates, whatever was bound before.
    pub open spec fn device_added(self, device: Device) -> Session {
        if self is Active && device.vibrates {
            Session::Active { bound: Some(device) }
        } else {
            self
        }
    }

    /// After a device is withdrawn: the session lets go of it if it is the
    /// one that was bound.
    pub open spec fn device_removed(self, device: Device) -> Session {
        match self.bound() {
            Some(held) if held.id == device.id => Session::Active { bound: None },
            _ => self,
        }
    }

    /// After each of the devices that the server already knows is announced
    /// in turn.
    pub open spec fn adopted(self, known: Seq<Device>) -> Session
        decreases known.len(),
    {
        if known.len() == 0 {
            self
        } else {
            self.adopted(known.drop_last()).device_added(known.last())
        }
    }

    /// What is to be sent for an intensity: a command to the bound device,
    /// or nothing where none is bound.
    pub open spec fn driven(self, level: Intensity) -> Action {
        match self.bound() {
            Some(device) => Action::Vibrate { device, level },
            None => Action::Idle,
        }
    }

    /// A session that has not been asked anything yet.
    pub fn new() -> (r: Session)
        ensures
            r == Session::Disconnected,
    {
        Session::Disconnected
    }

    /// Whether the session is over.
    pub fn is_terminated(&self) -> (r: bool)
        ensures
            r == (*self is Terminated),
    {
        match self {
            Session::Terminated => true,
            _ => false,
        }
    }

    /// The device that is driven, if any.
    pub fn bound_device(&self) -> (r: Option<Device>)
        ensures
            r == self.bound(),
    {
        match self {
            Session::Active { bound } => *bound,
            _ => None,
        }
    }

    /// Notes that the connection is being asked for. Says whether the
    /// session was in the state to ask.
    pub fn begin_connect(&mut self) -> (r: bool)
        ensures
            *final(self) == old(self).connect_begun(),
            r == (*old(self) is Disconnected),
    {
        match self {
            Session::Disconnected => {
                *self = Session::Connecting;
                true
            },
            _ => false,
        }
    }

    /// Takes the server's answer to the request to connect. A refusal
    /// terminates the session.
    pub fn connect(&mut self, accepted: bool) -> (r: Result<(), ConnectError>)
        ensures
            *final(self) == old(self).connect_answered(accepted),
            r is Ok <==> *old(self) is Connecting && accepted,
            r == Err::<(), ConnectError>(ConnectError::Refused) <==> *old(self) is Connecting
                && !accepted,
            r == Err::<(), ConnectError>(ConnectError::NotConnecting) <==> !(*old(self)
                is Connecting),
    {
        match self {
            Session::Connecting => {
                if accepted {
                    *self = Session::Connected;
                    Ok(())
                } else {
                    *self = Session::Terminated;
                    Err(ConnectError::Refused)
                }
            },
            _ => Err(ConnectError::NotConnecting),
        }
    }

    /// Notes that device discovery is being asked for. Says whether the
    /// session was in the state to ask.
    pub fn begin_scan(&mut self) -> (r: bool)
        ensures
            *final(self) == old(self).scan_begun(),
            r == (*old(self) is Connected),
    {
        match self {
            Session::Connected => {
                *self = Session::Scanning;
                true
            },
            _ => false,
        }
    }

    /// Takes the server's answer to the request to scan. A refusal
    /// terminates the session; an acceptance makes it active, with no
    /// device bound.
    pub fn start_scan(&mut self, accepted: bool) -> (r: Result<(), ScanError>)
        ensures
            *final(self) == old(self).scan_answered(accepted),
            r is Ok <==> *old(self) is Scanning && accepted,
            r == Err::<(), ScanError>(ScanError::Refused) <==> *old(self) is Scanning && !accepted,
            r == Err::<(), ScanError>(ScanError::NotScanning) <==> !(*old(self) is Scanning),
    {
        match self {
            Session::Scanning => {
                if accepted {
                    *self = Session::Active { bound: None };
                    Ok(())
                } else {
                    *self = Session::Terminated;
                    Err(ScanError::Refused)
                }
            },
            _ => Err(ScanError::NotScanning),
        }
    }

    /// Takes the announcement of a device.
    pub fn on_device_added(&mut self, device: Device)
        ensures
            *final(self) == old(self).device_added(device),
    {
        match self {
            Session::Active { .. } => {
                if device.vibrates {
                    *self = Session::Active { bound: Some(device) };
                }
            },
            _ => {},
        }
    }

    /// Takes the withdrawal of a device.
    pub fn on_device_removed(&mut self, device: Device)
        ensures
            *final(self) == old(self).device_removed(device),
    {
        match self {
            Session::Active { bound: Some(held) } => {
                if held.id == device.id {
                    *self = Session::Active { bound: None };
                }
            },
            _ => {},
        }
    }

    /// Takes the devices that the server knew before the session listened
    /// for events, oldest first.
    pub fn adopt(&mut self, known: &[Device])
        ensures
            *final(self) == old(self).adopted(known@),
    {
        let mut i: usize = 0;
        while i < known.len()
            invariant
                i <= known@.len(),
                *self == old(self).adopted(known@.take(i as int)),
            decreases known@.len() - i,
        {
            proof {
                assert(known@.take(i + 1).drop_last() =~= known@.take(i as int));
            }
            self.on_device_added(known[i]);
            i = i + 1;
        }
        proof {
            assert(known@.take(i as int) =~= known@);
        }
    }

    /// Takes the server's farewell: the session is over.
    pub fn on_server_disconnect(&mut self)
        ensures
            *final(self) == Session::Terminated,
    {
        *self = Session::Terminated;
    }

    /// Says what is to be sent for an intensity. The session is not
    /// changed, and stays as it is where the command later fails.
    pub fn drive(&self, level: Intensity) -> (r: Action)
        ensures
            r == self.driven(level),
    {
        match self {
            Session::Active { bound: Some(device) } => Action::Vibrate { device: *device, level },
            _ => Action::Idle,
        }
    }
}

/// Announcing devices keeps a session in its state, and a bound device
/// vibrating.
pub proof fn lemma_adopted_keeps_state(session: Session, known: Seq<Device>)
    requires
        session.wf(),
    ensures
        session.adopted(known).wf(),
        session is Active <==> session.adopted(known) is Active,
        !(session is Active) ==> session.adopted(known) == session,
    decreases known.len(),
{
    if known.len() > 0 {
        lemma_adopted_keeps_state(session, known.drop_last());
    }
}

} // verus!
