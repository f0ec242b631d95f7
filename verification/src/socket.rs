//! IPv4 addresses, their wire form, and the TCP listener and stream.
use vstd::prelude::*;

verus! {

/// The value the system hands back in place of a socket when it has none.
pub const INVALID_SOCKET: u64 = 0xFFFF_FFFF_FFFF_FFFF;

/// The backlog that asks for the longest queue the system allows.
pub const SOMAXCONN: i32 = 0x7fff_ffff;

/// The address family of IPv4.
pub const AF_INET: i32 = 2;

/// The socket type of a byte stream.
pub const SOCK_STREAM: i32 = 1;

/// The protocol number of TCP.
pub const IPPROTO_TCP: i32 = 6;

/// The size in bytes of a [`sockaddr_in`] as the system lays it out.
pub const SOCKADDR_IN_LEN: i32 = 16;

/// The version of the network subsystem to ask for at start-up: 2.2.
pub const WINSOCK_VERSION: u16 = 0x0202;

/// The record that the network subsystem fills in at start-up.
pub struct WSAData {
    pub wVersion: u16,
    pub wHighVersion: u16,
    pub szDescription: [u8; 257],
    pub szSystemStatus: [u8; 129],
    pub iMaxSockets: u16,
    pub iMaxUdpDg: u16,
    /// An address, or zero for none.
    pub lpVendorInfo: usize,
}

impl WSAData {
    /// Every field is zero and both texts hold only zero bytes.
    pub open spec fn is_blank(&self) -> bool {
        &&& self.wVersion == 0
        &&& self.wHighVersion == 0
        &&& forall|i: int| 0 <= i < 257 ==> self.szDescription@[i] == 0
        &&& forall|i: int| 0 <= i < 129 ==> self.szSystemStatus@[i] == 0
        &&& self.iMaxSockets == 0
        &&& self.iMaxUdpDg == 0
        &&& self.lpVendorInfo == 0
    }

    /// A blank record, ready to be handed to the start-up call.
    pub fn new() -> (data: WSAData)
        ensures
            data.is_blank(),
    {
        WSAData {
            wVersion: 0,
            wHighVersion: 0,
            szDescription: [0u8; 257],
            szSystemStatus: [0u8; 129],
            iMaxSockets: 0,
            iMaxUdpDg: 0,
            lpVendorInfo: 0,
        }
    }
}

/// Whether a status code returned by the system reports success.
///
/// Start-up, shutdown, bind, listen and close all answer with zero on
/// success and with something else on failure.
pub fn succeeded(code: i32) -> (ok: bool)
    ensures
        ok == (code == 0),
{
    code == 0
}

/// An IPv4 address: four octets, first octet first.
#[derive(Clone, Copy, Debug, PartialEq, Eq)]
pub struct IpAddrV4 {
    octets: [u8; 4],
}

impl View for IpAddrV4 {
    type V = Seq<u8>;

    closed spec fn view(&self) -> Seq<u8> {
        self.octets@
    }
}

impl IpAddrV4 {
    /// The address `o1.o2.o3.o4`. Every combination of octets is an address.
    pub fn new_from_octets(o1: u8, o2: u8, o3: u8, o4: u8) -> (ip: IpAddrV4)
        ensures
            ip@ == seq![o1, o2, o3, o4],
    {
        let ip = IpAddrV4 { octets: [o1, o2, o3, o4] };
        assert(ip@ =~= seq![o1, o2, o3, o4]);
        ip
    }

    /// The four octets, first octet first.
    pub fn octets(&self) -> (octets: [u8; 4])
        ensures
            octets@ == self@,
    {
        self.octets
    }

    /// An address always has exactly four octets.
    pub proof fn lemma_four_octets(self)
        ensures
            self@.len() == 4,
    {
    }
}

/// An IPv4 address and a port. The port is in host byte order.
#[derive(Clone, Copy, Debug, PartialEq, Eq)]
pub struct SocketAddrV4 {
    pub ip: IpAddrV4,
    pub port: u16,
}

impl SocketAddrV4 {
    /// The pair of `ip` and `port`, both stored as given.
    pub fn new(ip: IpAddrV4, port: u16) -> (addr: SocketAddrV4)
        ensures
            addr.ip == ip,
            addr.port == port,
    {
        SocketAddrV4 { ip, port }
    }
}

/// A socket address of some family. IPv4 is the only family so far.
#[derive(Clone, Copy, Debug, PartialEq, Eq)]
pub enum SocketAddr {
    V4(SocketAddrV4),
}

impl SocketAddr {
    /// The four octets of the address.
    pub open spec fn ip_octets(self) -> Seq<u8> {
        match self {
            SocketAddr::V4(v4) => v4.ip@,
        }
    }

    /// The port, in host byte order.
    pub open spec fn port(self) -> u16 {
        match self {
            SocketAddr::V4(v4) => v4.port,
        }
    }
}

/// Building an address from four octets and reading the octets back gives
/// the same four octets, whatever they are.
pub proof fn lemma_octets_round_trip(o1: u8, o2: u8, o3: u8, o4: u8, ip: IpAddrV4, read: [u8; 4])
    requires
        ip@ == seq![o1, o2, o3, o4],
        read@ == ip@,
    ensures
        read@.len() == 4,
        read@[0] == o1,
        read@[1] == o2,
        read@[2] == o3,
        read@[3] == o4,
{
}

/// A port number with its two bytes exchanged: the low byte of `port`
/// becomes the high byte and the high byte the low one.
///
/// On a little-endian host this is the number whose bytes in memory are the
/// port in network byte order.
pub open spec fn network_order(port: u16) -> u16 {
    ((port as int % 256) * 256 + port as int / 256) as u16
}

/// Exchanges the two bytes of `port`.
pub fn to_network_order(port: u16) -> (wire: u16)
    ensures
        wire == network_order(port),
{
    assert(((port & 0xff) << 8) == (port % 256) * 256) by (bit_vector);
    assert(((port & 0xff00) >> 8) == port / 256) by (bit_vector);
    ((port & 0xff) << 8) + ((port & 0xff00) >> 8)
}

/// Exchanging the bytes twice gives the port back, and the exchanged number
/// has the port's high byte as its low byte and the port's low byte as its
/// high byte.
pub proof fn lemma_network_order(port: u16)
    ensures
        network_order(network_order(port)) == port,
        network_order(port) as int % 256 == port as int / 256,
        network_order(port) as int / 256 == port as int % 256,
{
}

/// The four bytes of an IPv4 address as the system wants them.
#[derive(Clone, Copy, Debug, PartialEq, Eq)]
pub struct in_addr {
    pub s_b1: u8,
    pub s_b2: u8,
    pub s_b3: u8,
    pub s_b4: u8,
}

/// The address structure that the system's bind call reads.
#[derive(Clone, Copy, Debug, PartialEq, Eq)]
pub struct sockaddr_in {
    pub sin_family: i16,
    pub sin_port: u16,
    pub sin_addr: in_addr,
    pub sa_zero: [u8; 8],
}

impl sockaddr_in {
    /// The wire form of `addr`: the IPv4 family tag, the port with its bytes
    /// exchanged, the four octets in order, and eight zero bytes of padding.
    pub open spec fn of(addr: SocketAddr) -> sockaddr_in {
        sockaddr_in {
            sin_family: 2i16,
            sin_port: network_order(addr.port()),
            sin_addr: in_addr {
                s_b1: addr.ip_octets()[0],
                s_b2: addr.ip_octets()[1],
                s_b3: addr.ip_octets()[2],
                s_b4: addr.ip_octets()[3],
            },
            sa_zero: vstd::array::spec_array_fill_for_copy_type::<u8, 8>(0u8),
        }
    }

    /// Builds the wire form of `addr`. This is the one place where the port
    /// changes byte order.
    pub fn new(addr: &SocketAddr) -> (name: sockaddr_in)
        ensures
            name == sockaddr_in::of(*addr),
            name.sin_family == AF_INET,
            forall|i: int| 0 <= i < 8 ==> name.sa_zero@[i] == 0,
    {
        match addr {
            SocketAddr::V4(v4) => {
                let octets = v4.ip.octets();
                sockaddr_in {
                    sin_family: AF_INET as i16,
                    sin_port: to_network_order(v4.port),
                    sin_addr: in_addr {
                        s_b1: octets[0],
                        s_b2: octets[1],
                        s_b3: octets[2],
                        s_b4: octets[3],
                    },
                    sa_zero: [0u8; 8],
                }
            },
        }
    }
}

/// A call into the system's socket interface, with every argument fixed.
#[derive(Clone, Copy, Debug, PartialEq, Eq)]
pub enum SocketCall {
    /// Ask for a new socket.
    Socket { af: i32, socktype: i32, protocol: i32 },
    /// Bind `socket` to `name`; `namelen` is the size of `name` in bytes.
    Bind { socket: u64, name: sockaddr_in, namelen: i32 },
    /// Put `socket` into listening mode.
    Listen { socket: u64, backlog: i32 },
    /// Wait for a peer on `socket`. The peer's address is not asked for.
    Accept { socket: u64 },
    /// Receive at most `len` bytes from `socket` into the caller's buffer.
    Recv { socket: u64, len: i32, flags: i32 },
    /// Send at most `len` bytes of the caller's buffer on `socket`.
    Send { socket: u64, len: i32, flags: i32 },
    /// Close `socket`.
    CloseSocket { socket: u64 },
}

/// What the system answered to a [`SocketCall`].
#[derive(Clone, Copy, Debug, PartialEq, Eq)]
pub enum SocketReply {
    /// The socket returned by a call that hands out sockets.
    Handle(u64),
    /// The status code returned by every other call.
    Code(i32),
}

/// Why a listener could not be built.
#[derive(Clone, Copy, Debug, PartialEq, Eq, Structural)]
pub enum SocketError {
    /// The system had no socket to give.
    HandleCreationFailed,
    /// The socket could not be bound to the address.
    BindFailed,
    /// The bound socket could not be put into listening mode.
    ListenFailed,
}

/// The length handed to the system for a buffer of `len` bytes: the low 32
/// bits of `len`, read as a signed number, since that is the width the
/// system takes. Up to `i32::MAX` it is `len` itself. It never exceeds
/// `len`, so the system is never told of more room than the buffer has.
pub open spec fn length_argument(len: usize) -> i32 {
    let low = len as int % 0x1_0000_0000;
    if low < 0x8000_0000 {
        low as i32
    } else {
        (low - 0x1_0000_0000) as i32
    }
}

/// Computes [`length_argument`].
fn to_length_argument(len: usize) -> (arg: i32)
    ensures
        arg == length_argument(len),
        len <= i32::MAX ==> arg == len,
        arg <= len,
{
    let low: u64 = (len as u64) % 0x1_0000_0000;
    if low < 0x8000_0000 {
        low as i32
    } else {
        (low as i64 - 0x1_0000_0000) as i32
    }
}

/// What a transfer count returned by the system means: a negative count is
/// a failure, any other count is the number of bytes moved.
pub open spec fn transfer_outcome(count: i32) -> Option<usize> {
    if count < 0 {
        None
    } else {
        Some(count as usize)
    }
}

/// One end of an established connection. It owns one socket.
#[derive(Debug)]
pub struct TcpStream {
    socket: u64,
}

impl TcpStream {
    /// The socket that this stream owns.
    pub closed spec fn handle(&self) -> u64 {
        self.socket
    }

    /// The call that receives into a buffer of `buffer_len` bytes.
    pub fn read(&self, buffer_len: usize) -> (call: SocketCall)
        ensures
            call == (SocketCall::Recv {
                socket: self.handle(),
                len: length_argument(buffer_len),
                flags: 0,
            }),
            buffer_len <= i32::MAX ==> length_argument(buffer_len) == buffer_len,
            length_argument(buffer_len) <= buffer_len,
    {
        SocketCall::Recv { socket: self.socket, len: to_length_argument(buffer_len), flags: 0 }
    }

    /// The call that sends from a buffer of `buffer_len` bytes.
    pub fn write(&self, buffer_len: usize) -> (call: SocketCall)
        ensures
            call == (SocketCall::Send {
                socket: self.handle(),
                len: length_argument(buffer_len),
                flags: 0,
            }),
            buffer_len <= i32::MAX ==> length_argument(buffer_len) == buffer_len,
            length_argument(buffer_len) <= buffer_len,
    {
        SocketCall::Send { socket: self.socket, len: to_length_argument(buffer_len), flags: 0 }
    }

    /// Reads the count that a receive or a send returned. `None` is a
    /// failure. `Some(0)` after a receive is the peer's orderly close, not a
    /// failure. A count below the buffer's length after a send is a partial
    /// write, and sending the rest is left to the caller.
    pub fn transferred(count: i32) -> (outcome: Option<usize>)
        ensures
            outcome == transfer_outcome(count),
            outcome is None <==> count < 0,
            outcome is Some ==> outcome->0 == count,
    {
        if count < 0 {
            None
        } else {
            Some(count as usize)
        }
    }

    /// Gives the stream up for the one call that closes its socket.
    /// [`succeeded`] reads the answer.
    pub fn close(self) -> (call: SocketCall)
        ensures
            call == (SocketCall::CloseSocket { socket: self.handle() }),
    {
        SocketCall::CloseSocket { socket: self.socket }
    }
}

/// A bound, listening socket. It owns that socket.
#[derive(Debug)]
pub struct TcpListener {
    socket: u64,
}

impl TcpListener {
    /// The socket that this listener owns.
    pub closed spec fn handle(&self) -> u64 {
        self.socket
    }

    /// Starts building a listener on `addr`. Nothing has been asked of the
    /// system yet: the setup returned is waiting for a socket.
    pub fn new(addr: SocketAddr) -> (setup: ListenerSetup)
        ensures
            setup@ == (SetupState::Creating { addr }),
    {
        ListenerSetup { state: SetupState::Creating { addr } }
    }

    /// The call that waits for the next peer. The listener is left as it
    /// is, so one accept may follow another.
    pub fn accept(&self) -> (call: SocketCall)
        ensures
            call == (SocketCall::Accept { socket: self.handle() }),
    {
        SocketCall::Accept { socket: self.socket }
    }

    /// Reads the answer to an accept: the invalid socket is a failure, any
    /// other socket becomes a stream that owns it and owes the listener
    /// nothing.
    pub fn accepted(socket: u64) -> (stream: Option<TcpStream>)
        ensures
            stream is None <==> socket == INVALID_SOCKET,
            stream is Some ==> stream->0.handle() == socket,
    {
        if socket == INVALID_SOCKET {
            None
        } else {
            Some(TcpStream { socket })
        }
    }

    /// Gives the listener up for the one call that closes its socket.
    /// [`succeeded`] reads the answer.
    pub fn close(self) -> (call: SocketCall)
        ensures
            call == (SocketCall::CloseSocket { socket: self.handle() }),
    {
        SocketCall::CloseSocket { socket: self.socket }
    }
}

/// How far the construction of a listener has come.
///
/// Each state but the last two waits for the answer to one call,
/// [`SetupState::pending_call`]; [`SetupState::next`] is the state after the
/// answer. A state is a plain value: it says which socket is in play, it
/// does not own it.
#[derive(Clone, Copy, Debug, PartialEq, Eq)]
pub enum SetupState {
    /// Waiting for a socket.
    Creating { addr: SocketAddr },
    /// Waiting for `socket` to be bound to `addr`.
    Binding { socket: u64, addr: SocketAddr },
    /// Waiting for `socket` to be put into listening mode.
    Listening { socket: u64 },
    /// Bind or listen failed; waiting for `socket` to be closed.
    Abandoning { socket: u64, error: SocketError },
    /// Done: `socket` is bound and listening.
    Ready { socket: u64 },
    /// Done: no listener, and no socket is left open.
    Failed { error: SocketError },
}

impl SetupState {
    /// The call whose answer this state waits for, if it waits for one.
    pub open spec fn pending_call(self) -> Option<SocketCall> {
        match self {
            SetupState::Creating { .. } => Some(
                SocketCall::Socket { af: AF_INET, socktype: SOCK_STREAM, protocol: IPPROTO_TCP },
            ),
            SetupState::Binding { socket, addr } => Some(
                SocketCall::Bind { socket, name: sockaddr_in::of(addr), namelen: SOCKADDR_IN_LEN },
            ),
            SetupState::Listening { socket } => Some(
                SocketCall::Listen { socket, backlog: SOMAXCONN },
            ),
            SetupState::Abandoning { socket, .. } => Some(SocketCall::CloseSocket { socket }),
            SetupState::Ready { .. } => None,
            SetupState::Failed { .. } => None,
        }
    }

    /// Whether `reply` is an answer of the kind that this state waits for.
    pub open spec fn awaits(self, reply: SocketReply) -> bool {
        match self {
            SetupState::Creating { .. } => reply is Handle,
            SetupState::Binding { .. } => reply is Code,
            SetupState::Listening { .. } => reply is Code,
            SetupState::Abandoning { .. } => reply is Code,
            SetupState::Ready { .. } => false,
            SetupState::Failed { .. } => false,
        }
    }

    /// The state after `reply`.
    ///
    /// A socket that is not the invalid one is bound, then put into
    /// listening mode. When either step fails the socket is closed before
    /// the failure is reported, and the failure reported is that of the
    /// step, whatever the close answers. A reply that the state does not
    /// wait for changes nothing.
    pub open spec fn next(self, reply: SocketReply) -> SetupState {
        match (self, reply) {
            (SetupState::Creating { addr }, SocketReply::Handle(socket)) => {
                if socket == INVALID_SOCKET {
                    SetupState::Failed { error: SocketError::HandleCreationFailed }
                } else {
                    SetupState::Binding { socket, addr }
                }
            },
            (SetupState::Binding { socket, addr }, SocketReply::Code(code)) => {
                if code == 0 {
                    SetupState::Listening { socket }
                } else {
                    SetupState::Abandoning { socket, error: SocketError::BindFailed }
                }
            },
            (SetupState::Listening { socket }, SocketReply::Code(code)) => {
                if code == 0 {
                    SetupState::Ready { socket }
                } else {
                    SetupState::Abandoning { socket, error: SocketError::ListenFailed }
                }
            },
            (SetupState::Abandoning { socket, error }, SocketReply::Code(_)) => {
                SetupState::Failed { error }
            },
            _ => self,
        }
    }

    /// The socket that the setup has been given and that has neither been
    /// closed nor handed on, as a sequence of none or one.
    pub open spec fn held(self) -> Seq<u64> {
        match self {
            SetupState::Creating { .. } => seq![],
            SetupState::Binding { socket, .. } => seq![socket],
            SetupState::Listening { socket } => seq![socket],
            SetupState::Abandoning { socket, .. } => seq![socket],
            SetupState::Ready { socket } => seq![socket],
            SetupState::Failed { .. } => seq![],
        }
    }

    /// The socket that `reply` hands to a setup in this state, as a
    /// sequence of none or one: only a setup that waits for a socket is
    /// given one, and the invalid socket is none.
    pub open spec fn obtained_by(self, reply: SocketReply) -> Seq<u64> {
        match (self, reply) {
            (SetupState::Creating { .. }, SocketReply::Handle(socket)) => {
                if socket == INVALID_SOCKET {
                    seq![]
                } else {
                    seq![socket]
                }
            },
            _ => seq![],
        }
    }

    /// The socket whose close call `reply` answers, as a sequence of none
    /// or one.
    pub open spec fn released_by(self, reply: SocketReply) -> Seq<u64> {
        match (self, reply) {
            (SetupState::Abandoning { socket, .. }, SocketReply::Code(_)) => seq![socket],
            _ => seq![],
        }
    }

    /// The state after the replies of `replies`, taken in order.
    pub open spec fn run(self, replies: Seq<SocketReply>) -> SetupState
        decreases replies.len(),
    {
        if replies.len() == 0 {
            self
        } else {
            self.next(replies[0]).run(replies.drop_first())
        }
    }

    /// The sockets that the system hands out along a run, in order.
    pub open spec fn obtained(self, replies: Seq<SocketReply>) -> Seq<u64>
        decreases replies.len(),
    {
        if replies.len() == 0 {
            seq![]
        } else {
            self.obtained_by(replies[0]) + self.next(replies[0]).obtained(replies.drop_first())
        }
    }

    /// The sockets closed along a run, in order, one entry for each close
    /// call that was answered.
    pub open spec fn released(self, replies: Seq<SocketReply>) -> Seq<u64>
        decreases replies.len(),
    {
        if replies.len() == 0 {
            seq![]
        } else {
            self.released_by(replies[0]) + self.next(replies[0]).released(replies.drop_first())
        }
    }

    /// Whether the setup has its socket request behind it with a socket in
    /// hand, or has failed at a later step.
    pub open spec fn past_creation(self) -> bool {
        match self {
            SetupState::Creating { .. } => false,
            SetupState::Abandoning { error, .. } => error != SocketError::HandleCreationFailed,
            SetupState::Failed { error } => error != SocketError::HandleCreationFailed,
            _ => true,
        }
    }

    /// A reply of a kind that the state does not wait for changes nothing:
    /// the state stays, and no socket is obtained or closed.
    pub proof fn lemma_stray_reply_changes_nothing(self, reply: SocketReply)
        requires
            !self.awaits(reply),
        ensures
            self.next(reply) == self,
            self.obtained_by(reply) == Seq::<u64>::empty(),
            self.released_by(reply) == Seq::<u64>::empty(),
    {
    }

    /// A close call is pending exactly while a failed step's socket waits
    /// to be closed, and it names that socket. A socket counts as closed
    /// exactly when a reply answers such a call. Nothing is pending exactly
    /// when the setup is done.
    pub proof fn lemma_released_means_close_answered(self, reply: SocketReply)
        ensures
            self is Abandoning <==> self.pending_call() is Some && self.pending_call()->0
                is CloseSocket,
            self is Abandoning ==> self.pending_call() == Some(
                SocketCall::CloseSocket { socket: self->Abandoning_socket },
            ),
            self is Abandoning && self.awaits(reply) ==> self.released_by(reply)
                == seq![self->Abandoning_socket],
            !(self is Abandoning && self.awaits(reply)) ==> self.released_by(reply)
                == Seq::<u64>::empty(),
            self.pending_call() is None <==> self is Ready || self is Failed,
    {
    }

    /// One step keeps the books: the socket held before, with the one the
    /// reply handed in, is the socket the reply closed, with the one held
    /// after. A socket leaves the setup's hands only through a close call.
    pub proof fn lemma_step_accounts_for_socket(self, reply: SocketReply)
        ensures
            self.held() + self.obtained_by(reply) == self.released_by(reply) + self.next(
                reply,
            ).held(),
    {
        assert(self.held() + self.obtained_by(reply) =~= self.released_by(reply) + self.next(
            reply,
        ).held());
    }

    /// A whole run keeps the books: what was held at the start, followed
    /// by what was obtained, is what was closed, followed by what is held at
    /// the end.
    pub proof fn lemma_run_accounts_for_sockets(self, replies: Seq<SocketReply>)
        ensures
            self.held() + self.obtained(replies) == self.released(replies) + self.run(
                replies,
            ).held(),
        decreases replies.len(),
    {
        if replies.len() == 0 {
            assert(self.held() + self.obtained(replies) =~= self.released(replies) + self.run(
                replies,
            ).held());
        } else {
            let after = self.next(replies[0]);
            let rest = replies.drop_first();
            self.lemma_step_accounts_for_socket(replies[0]);
            after.lemma_run_accounts_for_sockets(rest);
            assert(self.held() + self.obtained(replies) =~= (self.held() + self.obtained_by(
                replies[0],
            )) + after.obtained(rest));
            assert((self.released_by(replies[0]) + after.held()) + after.obtained(rest)
                =~= self.released_by(replies[0]) + (after.held() + after.obtained(rest)));
            assert(self.released_by(replies[0]) + (after.released(rest) + after.run(rest).held())
                =~= self.released(replies) + self.run(replies).held());
        }
    }

    /// Once the socket request is behind it, a setup is given no further
    /// socket, and it never reports that no socket could be had.
    pub proof fn lemma_one_socket_request(self, replies: Seq<SocketReply>)
        requires
            self.past_creation(),
        ensures
            self.obtained(replies) == Seq::<u64>::empty(),
            self.run(replies).past_creation(),
        decreases replies.len(),
    {
        if replies.len() == 0 {
        } else {
            self.next(replies[0]).lemma_one_socket_request(replies.drop_first());
            assert(self.obtained(replies) =~= Seq::<u64>::empty());
        }
    }

    /// A setup that is done stays as it is, whatever is handed to it, and
    /// nothing is obtained or closed any more.
    pub proof fn lemma_done_is_final(self, replies: Seq<SocketReply>)
        requires
            self is Ready || self is Failed,
        ensures
            self.run(replies) == self,
            self.obtained(replies) == Seq::<u64>::empty(),
            self.released(replies) == Seq::<u64>::empty(),
        decreases replies.len(),
    {
        if replies.len() == 0 {
        } else {
            self.lemma_done_is_final(replies.drop_first());
            assert(self.obtained(replies) =~= Seq::<u64>::empty());
            assert(self.released(replies) =~= Seq::<u64>::empty());
        }
    }
}

/// No run of a listener's construction leaks a socket.
///
/// Start the construction on any address and feed it any replies. At most
/// one socket is ever obtained. If the construction ends in failure, every
/// socket obtained has been closed, once: after a failed bind or listen
/// exactly one socket was obtained and that socket was closed; when no
/// socket could be had, none was obtained and none closed. If it ends with
/// a listener, the listener's socket is the one obtained, and nothing was
/// closed.
pub proof fn lemma_setup_never_leaks(addr: SocketAddr, replies: Seq<SocketReply>)
    ensures
        ({
            let start = SetupState::Creating { addr };
            let end = start.run(replies);
            let obtained = start.obtained(replies);
            let released = start.released(replies);
            &&& obtained.len() <= 1
            &&& end is Failed ==> released == obtained
            &&& end is Failed && end->Failed_error != SocketError::HandleCreationFailed
                ==> obtained.len() == 1
            &&& end is Failed && end->Failed_error == SocketError::HandleCreationFailed
                ==> obtained.len() == 0
            &&& end is Ready ==> obtained == seq![end->Ready_socket] && released.len() == 0
            &&& !(end is Ready || end is Failed) ==> released.len() == 0
        }),
    decreases replies.len(),
{
    let start = SetupState::Creating { addr };
    start.lemma_run_accounts_for_sockets(replies);
    assert(start.held() + start.obtained(replies) =~= start.obtained(replies));
    if replies.len() == 0 {
    } else {
        let after = start.next(replies[0]);
        let rest = replies.drop_first();
        if after is Creating {
            lemma_setup_never_leaks(addr, rest);
            assert(start.obtained(replies) =~= start.obtained(rest));
            assert(start.released(replies) =~= start.released(rest));
        } else if after is Failed {
            after.lemma_done_is_final(rest);
            assert(start.obtained(replies) =~= Seq::<u64>::empty());
        } else {
            after.lemma_one_socket_request(rest);
            assert(start.obtained(replies) =~= start.obtained_by(replies[0]));
        }
    }
    let end = start.run(replies);
    let obtained = start.obtained(replies);
    let released = start.released(replies);
    assert(obtained == released + end.held());
    if end is Failed {
        assert(released + end.held() =~= released);
    }
    if end is Ready {
        assert((released + end.held()).len() == released.len() + 1);
        assert(released =~= Seq::<u64>::empty());
        assert(released + end.held() =~= seq![end->Ready_socket]);
    }
    if !(end is Ready || end is Failed) && !(end is Creating) {
        assert((released + end.held()).len() == released.len() + 1);
    }
    if end is Creating {
        assert((released + end.held()).len() == released.len());
    }
}

/// The construction of a listener, step by step.
///
/// While a call is pending, the driver makes that call and hands the answer
/// to [`ListenerSetup::advance`]; when none is pending,
/// [`ListenerSetup::finish`] gives the listener or the error. A setup cannot
/// be copied, so the socket it holds ends up in one place only.
#[derive(Debug)]
pub struct ListenerSetup {
    state: SetupState,
}

impl View for ListenerSetup {
    type V = SetupState;

    closed spec fn view(&self) -> SetupState {
        self.state
    }
}

impl ListenerSetup {
    /// The state that the setup is in.
    pub fn state(&self) -> (state: SetupState)
        ensures
            state == self@,
    {
        self.state
    }

    /// The call to make now, or `None` when the setup is done.
    pub fn pending(&self) -> (call: Option<SocketCall>)
        ensures
            call == self@.pending_call(),
    {
        match self.state {
            SetupState::Creating { .. } => Some(
                SocketCall::Socket { af: AF_INET, socktype: SOCK_STREAM, protocol: IPPROTO_TCP },
            ),
            SetupState::Binding { socket, addr } => Some(
                SocketCall::Bind {
                    socket: socket,
                    name: sockaddr_in::new(&addr),
                    namelen: SOCKADDR_IN_LEN,
                },
            ),
            SetupState::Listening { socket } => Some(
                SocketCall::Listen { socket: socket, backlog: SOMAXCONN },
            ),
            SetupState::Abandoning { socket, .. } => Some(
                SocketCall::CloseSocket { socket: socket },
            ),
            SetupState::Ready { .. } => None,
            SetupState::Failed { .. } => None,
        }
    }

    /// Takes the system's answer to the pending call and moves on.
    pub fn advance(self, reply: SocketReply) -> (after: ListenerSetup)
        ensures
            after@ == self@.next(reply),
    {
        let state = match self.state {
            SetupState::Creating { addr } => match reply {
                SocketReply::Handle(socket) => {
                    if socket == INVALID_SOCKET {
                        SetupState::Failed { error: SocketError::HandleCreationFailed }
                    } else {
                        SetupState::Binding { socket, addr }
                    }
                },
                SocketReply::Code(_) => SetupState::Creating { addr },
            },
            SetupState::Binding { socket, addr } => match reply {
                SocketReply::Code(code) => {
                    if code == 0 {
                        SetupState::Listening { socket }
                    } else {
                        SetupState::Abandoning { socket, error: SocketError::BindFailed }
                    }
                },
                SocketReply::Handle(_) => SetupState::Binding { socket, addr },
            },
            SetupState::Listening { socket } => match reply {
                SocketReply::Code(code) => {
                    if code == 0 {
                        SetupState::Ready { socket }
                    } else {
                        SetupState::Abandoning { socket, error: SocketError::ListenFailed }
                    }
                },
                SocketReply::Handle(_) => SetupState::Listening { socket },
            },
            SetupState::Abandoning { socket, error } => match reply {
                SocketReply::Code(_) => SetupState::Failed { error },
                SocketReply::Handle(_) => SetupState::Abandoning { socket, error },
            },
            SetupState::Ready { socket } => SetupState::Ready { socket },
            SetupState::Failed { error } => SetupState::Failed { error },
        };
        ListenerSetup { state }
    }

    /// The result of a setup that is done: the listener, which now owns the
    /// socket, or the error. `None` while a call is still pending.
    pub fn finish(self) -> (result: Option<Result<TcpListener, SocketError>>)
        ensures
            match self@ {
                SetupState::Ready { socket } => result is Some && result->0 is Ok
                    && result->0->Ok_0.handle() == socket,
                SetupState::Failed { error } => result == Some(
                    Err::<TcpListener, SocketError>(error),
                ),
                _ => result is None,
            },
    {
        match self.state {
            SetupState::Ready { socket } => Some(Ok(TcpListener { socket })),
            SetupState::Failed { error } => Some(Err(error)),
            _ => None,
        }
    }
}

} // verus!
