use vstd::prelude::*;
use vstd::utf8::encode_utf8;

use crate::consts;
use crate::target_addr::{
    addr_field, be16, lemma_domain_round_trip, decode_addr_spec, decoded_as, encode_addr_spec, AddrDecode, AddrView, Decoded,
    TargetAddr,
};
use crate::{command_code, method_code, reply_of_code, AuthenticationMethod, ReplyError, Socks5Command, SocksError};

verus! {

/// Settings of a client session.
#[derive(Debug, Clone, Copy, PartialEq, Eq)]
pub struct Config {
    /// Timeout of the socket connect, in seconds.
    pub connect_timeout: Option<u64>,
    /// Avoid the method-negotiation round trip; the server must skip it too.
    pub skip_auth: bool,
}

impl Default for Config {
    fn default() -> (r: Self)
        ensures
            r.connect_timeout is None,
            !r.skip_auth,
    {
        Config { connect_timeout: None, skip_auth: false }
    }
}

impl Config {
    /// How much time it should wait until the socket connect times out.
    pub fn set_connect_timeout(&mut self, n: u64) -> (r: &mut Self)
        ensures
            *r == (Config { connect_timeout: Some(n), ..*old(self) }),
            *final(self) == *final(r),
    {
        self.connect_timeout = Some(n);
        self
    }

    pub fn set_skip_auth(&mut self, value: bool) -> (r: &mut Self)
        ensures
            *r == (Config { skip_auth: value, ..*old(self) }),
            *final(self) == *final(r),
    {
        self.skip_auth = value;
        self
    }
}

/// Where a session stands in its handshake.
#[derive(Debug, Clone, Copy, PartialEq, Eq, Structural)]
pub enum Phase {
    /// The method negotiation frame is due, and then the proxy's choice.
    AwaitingMethod,
    /// A request may be sent.
    Ready,
    /// The request was sent; its reply is being read.
    AwaitingReply,
    /// The proxy granted the request: the channel is now a plain byte stream.
    Established,
    /// The handshake failed; nothing further is exchanged.
    Failed,
}

/// The mathematical state of a session.
pub struct SessionView {
    pub config: Config,
    /// The wire codes of the offered authentication methods, in offer order.
    pub offered: Seq<u8>,
    pub target: Option<AddrView>,
    pub phase: Phase,
}

/// The decisions of a SOCKS5 client over one channel: which frames to send,
/// and what the proxy's frames mean. The caller moves the bytes.
#[derive(Debug)]
pub struct Socks5Session {
    config: Config,
    methods: Vec<AuthenticationMethod>,
    target_addr: Option<TargetAddr>,
    phase: Phase,
}

/// The method codes of a list of methods.
pub open spec fn method_codes(methods: Seq<AuthenticationMethod>) -> Seq<u8> {
    methods.map_values(|m: AuthenticationMethod| method_code(m))
}

/// The state of a session just built: no-authentication is always offered,
/// first, then the caller's method if there is one.
pub open spec fn initial_session(auth: Option<AuthenticationMethod>, config: Config) -> SessionView {
    SessionView {
        config,
        offered: match auth {
            Some(m) => seq![consts::SOCKS5_AUTH_METHOD_NONE, method_code(m)],
            None => seq![consts::SOCKS5_AUTH_METHOD_NONE],
        },
        target: None,
        phase: if config.skip_auth {
            Phase::Ready
        } else {
            Phase::AwaitingMethod
        },
    }
}

/// The method negotiation frame that a session sends, if any.
pub open spec fn greeting_spec(v: SessionView) -> Option<Seq<u8>> {
    if v.phase == Phase::AwaitingMethod {
        Some(seq![consts::SOCKS5_VERSION, v.offered.len() as u8] + v.offered)
    } else {
        None
    }
}

/// What the proxy's `[VERSION, METHOD]` frame means, given the offered codes.
pub open spec fn method_reply_spec(offered: Seq<u8>, version: u8, method: u8) -> Result<u8, SocksError> {
    if version != consts::SOCKS5_VERSION {
        Err(SocksError::UnsupportedSocksVersion(version))
    } else if method == consts::SOCKS5_AUTH_METHOD_NOT_ACCEPTABLE {
        Err(SocksError::NoAcceptableMethod)
    } else if !offered.contains(method) {
        Err(SocksError::UnofferedMethod(method))
    } else {
        Ok(method)
    }
}

/// The request frame for a command and an optional target.
pub open spec fn request_frame_spec(cmd: Socks5Command, target: Option<AddrView>) -> Result<Seq<u8>, SocksError> {
    match target {
        None => if cmd == Socks5Command::UDPAssociate {
            Ok(seq![consts::SOCKS5_VERSION, command_code(cmd), 0x00u8, consts::SOCKS5_ADDR_TYPE_IPV4, 0u8, 0u8, 0u8, 0u8, 0u8, 0u8])
        } else {
            Err(SocksError::MissingTargetAddr)
        },
        Some(a) => match encode_addr_spec(a) {
            Ok(f) => Ok(seq![consts::SOCKS5_VERSION, command_code(cmd), 0x00u8] + f),
            Err(e) => Err(e),
        },
    }
}

/// What the proxy's reply frame means, given the bytes read so far.
pub open spec fn decode_reply_spec(b: Seq<u8>) -> AddrDecode {
    if b.len() < 4 {
        AddrDecode::NeedMore((4 - b.len()) as nat)
    } else if b[0] != consts::SOCKS5_VERSION {
        AddrDecode::Fail(SocksError::UnsupportedSocksVersion(b[0]))
    } else if b[1] != consts::SOCKS5_REPLY_SUCCEEDED {
        if b[1] <= 8 {
            AddrDecode::Fail(SocksError::ReplyError(reply_of_code(b[1])))
        } else {
            AddrDecode::Fail(SocksError::UnknownReplyCode(b[1]))
        }
    } else {
        decode_addr_spec(b.skip(3))
    }
}

/// Decodes the proxy's reply frame `[VERSION, REP, RSV, ATYP, BND.ADDR, BND.PORT]`
/// from the bytes read so far: either the count of bytes still to read, the
/// bound address, or the failure that the frame reports.
pub fn decode_reply(buf: &[u8]) -> (r: Result<Decoded, SocksError>)
    ensures
        decoded_as(r, decode_reply_spec(buf@)),
{
    let len = buf.len();
    if len < 4 {
        return Ok(Decoded::NeedMore(4 - len));
    }
    let version = buf[0];
    let reply = buf[1];
    if version != consts::SOCKS5_VERSION {
        return Err(SocksError::UnsupportedSocksVersion(version));
    }
    if reply != consts::SOCKS5_REPLY_SUCCEEDED {
        if reply <= 8 {
            return Err(SocksError::ReplyError(ReplyError::from_u8(reply)));
        } else {
            return Err(SocksError::UnknownReplyCode(reply));
        }
    }
    TargetAddr::decode(buf, 3)
}

impl View for Socks5Session {
    type V = SessionView;

    closed spec fn view(&self) -> SessionView {
        SessionView {
            config: self.config,
            offered: method_codes(self.methods@),
            target: match self.target_addr {
                Some(t) => Some(t@),
                None => None,
            },
            phase: self.phase,
        }
    }
}

impl Socks5Session {
    /// Starts a session. No-authentication is always offered, first; `auth`,
    /// when given, is offered after it. With `config.skip_auth` the method
    /// negotiation is left out and a request may be sent at once.
    pub fn use_stream(auth: Option<AuthenticationMethod>, config: Config) -> (s: Self)
        ensures
            s@ == initial_session(auth, config),
    {
        let mut methods: Vec<AuthenticationMethod> = vec![AuthenticationMethod::NoAuth];
        let ghost a = auth;
        match auth {
            Some(method) => {
                methods.push(method);
            },
            None => {},
        }
        let phase = if config.skip_auth {
            Phase::Ready
        } else {
            Phase::AwaitingMethod
        };
        let s = Socks5Session { config, methods, target_addr: None, phase };
        assert(s@.offered =~= initial_session(a, config).offered);
        s
    }

    pub fn config(&self) -> (r: Config)
        ensures
            r == self@.config,
    {
        self.config
    }

    pub fn phase(&self) -> (r: Phase)
        ensures
            r == self@.phase,
    {
        self.phase
    }

    pub fn target_addr(&self) -> (r: Option<&TargetAddr>)
        ensures
            match r {
                Some(t) => self@.target == Some(t@),
                None => self@.target is None,
            },
    {
        self.target_addr.as_ref()
    }

    /// The method negotiation frame `[VERSION, NMETHODS, METHODS...]` to send
    /// now, or `None` when no negotiation is due.
    pub fn greeting(&self) -> (r: Option<Vec<u8>>)
        ensures
            match greeting_spec(self@) {
                Some(f) => r is Some && r->Some_0@ == f,
                None => r is None,
            },
    {
        if self.phase != Phase::AwaitingMethod {
            return None;
        }
        let n = self.methods.len();
        let mut frame: Vec<u8> = vec![consts::SOCKS5_VERSION, n as u8];
        let mut i: usize = 0;
        while i < n
            invariant
                n == self.methods@.len(),
                i <= n,
                frame@ == seq![consts::SOCKS5_VERSION, n as u8] + method_codes(self.methods@).subrange(0, i as int),
            decreases n - i,
        {
            let code = self.methods[i].as_u8();
            frame.push(code);
            i += 1;
            assert(method_codes(self.methods@).subrange(0, i as int) =~= method_codes(self.methods@).subrange(0, i - 1) + seq![code]);
        }
        assert(method_codes(self.methods@).subrange(0, n as int) =~= method_codes(self.methods@));
        Some(frame)
    }

    /// Reads the proxy's `[VERSION, METHOD]` frame. On success the chosen
    /// method is returned and a request may be sent; on failure the session
    /// is over.
    pub fn accept_method(&mut self, reply: [u8; 2]) -> (r: Result<u8, SocksError>)
        requires
            old(self)@.phase == Phase::AwaitingMethod,
        ensures
            r == method_reply_spec(old(self)@.offered, reply@[0], reply@[1]),
            final(self)@ == (SessionView {
                phase: if r is Ok { Phase::Ready } else { Phase::Failed },
                ..old(self)@
            }),
    {
        let version = reply[0];
        let method = reply[1];
        let r = if version != consts::SOCKS5_VERSION {
            Err(SocksError::UnsupportedSocksVersion(version))
        } else if method == consts::SOCKS5_AUTH_METHOD_NOT_ACCEPTABLE {
            Err(SocksError::NoAcceptableMethod)
        } else if !self.offers(method) {
            Err(SocksError::UnofferedMethod(method))
        } else {
            Ok(method)
        };
        self.phase = if r.is_ok() { Phase::Ready } else { Phase::Failed };
        r
    }

    /// Whether `code` is the code of one of the offered methods.
    fn offers(&self, code: u8) -> (r: bool)
        ensures
            r == self@.offered.contains(code),
    {
        let mut i: usize = 0;
        while i < self.methods.len()
            invariant
                i <= self.methods@.len(),
                forall|j: int| 0 <= j < i ==> method_codes(self.methods@)[j] != code,
            decreases self.methods@.len() - i,
        {
            if self.methods[i].as_u8() == code {
                assert(method_codes(self.methods@)[i as int] == code);
                return true;
            }
            i += 1;
        }
        false
    }

    /// The request frame `[VERSION, CMD, RSV, ATYP, DST.ADDR, DST.PORT]` for
    /// the session's current target: only the populated bytes, no padding.
    pub fn request_header(&self, cmd: Socks5Command) -> (r: Result<Vec<u8>, SocksError>)
        ensures
            match request_frame_spec(cmd, self@.target) {
                Ok(f) => r is Ok && r->Ok_0@ == f,
                Err(e) => r == Err::<Vec<u8>, SocksError>(e),
            },
    {
        let mut packet: Vec<u8> = vec![consts::SOCKS5_VERSION, cmd.as_u8(), 0x00];
        match &self.target_addr {
            None => {
                if cmd == Socks5Command::UDPAssociate {
                    packet.push(consts::SOCKS5_ADDR_TYPE_IPV4);
                    packet.push(0);
                    packet.push(0);
                    packet.push(0);
                    packet.push(0);
                    packet.push(0);
                    packet.push(0);
                    Ok(packet)
                } else {
                    Err(SocksError::MissingTargetAddr)
                }
            },
            Some(target) => {
                match target.encode(&mut packet) {
                    Ok(()) => Ok(packet),
                    Err(e) => Err(e),
                }
            },
        }
    }

    /// Sets the target and builds the request frame for `cmd`. On success the
    /// frame is to be sent and the reply read; on failure the session is over
    /// and nothing is to be sent.
    pub fn request(&mut self, cmd: Socks5Command, target_addr: TargetAddr) -> (r: Result<Vec<u8>, SocksError>)
        requires
            old(self)@.phase == Phase::Ready,
        ensures
            match request_frame_spec(cmd, Some(target_addr@)) {
                Ok(f) => r is Ok && r->Ok_0@ == f,
                Err(e) => r == Err::<Vec<u8>, SocksError>(e),
            },
            final(self)@ == (SessionView {
                target: Some(target_addr@),
                phase: if r is Ok { Phase::AwaitingReply } else { Phase::Failed },
                ..old(self)@
            }),
    {
        self.target_addr = Some(target_addr);
        let r = self.request_header(cmd);
        self.phase = if r.is_ok() { Phase::AwaitingReply } else { Phase::Failed };
        r
    }

    /// Reads the reply to the request from the bytes received so far. While
    /// more bytes are needed the session keeps waiting; a bound address
    /// establishes it, and any failure ends it.
    pub fn read_request_reply(&mut self, buf: &[u8]) -> (r: Result<Decoded, SocksError>)
        requires
            old(self)@.phase == Phase::AwaitingReply,
        ensures
            decoded_as(r, decode_reply_spec(buf@)),
            final(self)@ == (SessionView {
                phase: match r {
                    Ok(Decoded::NeedMore(_)) => Phase::AwaitingReply,
                    Ok(Decoded::Complete(_)) => Phase::Established,
                    Err(_) => Phase::Failed,
                },
                ..old(self)@
            }),
    {
        let r = decode_reply(buf);
        self.phase = match &r {
            Ok(Decoded::NeedMore(_)) => Phase::AwaitingReply,
            Ok(Decoded::Complete(_)) => Phase::Established,
            Err(_) => Phase::Failed,
        };
        r
    }
}

/// A domain target of at most 255 bytes survives the trip through a request
/// frame's address field and back through a successful reply that carries
/// the same field.
pub proof fn lemma_domain_survives_reply(cmd: Socks5Command, name: Seq<char>, port: u16)
    requires
        encode_utf8(name).len() <= 255,
    ensures
        ({
            let a = AddrView::Domain(name, port);
            &&& request_frame_spec(cmd, Some(a)) == Ok::<Seq<u8>, SocksError>(
                seq![consts::SOCKS5_VERSION, command_code(cmd), 0x00u8] + addr_field(a),
            )
            &&& decode_reply_spec(seq![consts::SOCKS5_VERSION, consts::SOCKS5_REPLY_SUCCEEDED, 0x00u8] + addr_field(a))
                == AddrDecode::Done(a)
        }),
{
    let a = AddrView::Domain(name, port);
    let b = seq![consts::SOCKS5_VERSION, consts::SOCKS5_REPLY_SUCCEEDED, 0x00u8] + addr_field(a);
    lemma_domain_round_trip(name, port);
    assert(b.skip(3) =~= addr_field(a));
}

/// A domain name longer than 255 bytes makes request encoding fail with the
/// domain-length error, whatever the command: no frame is produced.
pub proof fn lemma_long_domain_refused(cmd: Socks5Command, name: Seq<char>, port: u16)
    requires
        encode_utf8(name).len() > 255,
    ensures
        request_frame_spec(cmd, Some(AddrView::Domain(name, port))) == Err::<Seq<u8>, SocksError>(
            SocksError::ExceededMaxDomainLen(encode_utf8(name).len() as usize),
        ),
{
}

/// The request frame for an IPv4 target is the header, `ATYP=0x01`, the four
/// octets and the big-endian port: ten bytes, nothing after them.
pub proof fn lemma_ipv4_request_frame(cmd: Socks5Command, ip: Seq<u8>, port: u16)
    requires
        ip.len() == 4,
    ensures
        ({
            let f = seq![consts::SOCKS5_VERSION, command_code(cmd), 0x00u8, consts::SOCKS5_ADDR_TYPE_IPV4]
                + ip + be16(port);
            &&& request_frame_spec(cmd, Some(AddrView::V4(ip, port))) == Ok::<Seq<u8>, SocksError>(f)
            &&& f.len() == 10
            &&& f[3] == 0x01
            &&& f.subrange(4, 8) == ip
            &&& f[8] == (port / 256) as u8
            &&& f[9] == (port % 256) as u8
        }),
{
    let f = seq![consts::SOCKS5_VERSION, command_code(cmd), 0x00u8, consts::SOCKS5_ADDR_TYPE_IPV4] + ip
        + be16(port);
    assert(seq![consts::SOCKS5_VERSION, command_code(cmd), 0x00u8] + (seq![consts::SOCKS5_ADDR_TYPE_IPV4] + ip
        + be16(port)) =~= f);
    assert(f.subrange(4, 8) =~= ip);
}

/// A well-versioned reply frame with a nonzero code fails with the variant
/// that the reply-code table gives for codes up to 0x08, and with the
/// unknown-code error above it; code 0x00 goes on to the bound address.
pub proof fn lemma_reply_codes(b: Seq<u8>)
    requires
        b.len() >= 4,
        b[0] == consts::SOCKS5_VERSION,
    ensures
        1 <= b[1] <= 8 ==> decode_reply_spec(b) == AddrDecode::Fail(
            SocksError::ReplyError(reply_of_code(b[1])),
        ),
        b[1] > 8 ==> decode_reply_spec(b) == AddrDecode::Fail(SocksError::UnknownReplyCode(b[1])),
        b[1] == 0 ==> decode_reply_spec(b) == decode_addr_spec(b.skip(3)),
{
}

/// With `skip_auth` a new session has no negotiation frame to send and may
/// send its request at once; without it, the negotiation frame is due first,
/// and a request waits for the proxy's choice of method.
pub proof fn lemma_skip_auth(auth: Option<AuthenticationMethod>, config: Config)
    ensures
        config.skip_auth ==> greeting_spec(initial_session(auth, config)) is None
            && initial_session(auth, config).phase == Phase::Ready,
        !config.skip_auth ==> greeting_spec(initial_session(auth, config)) == Some(
            seq![consts::SOCKS5_VERSION, initial_session(auth, config).offered.len() as u8]
                + initial_session(auth, config).offered,
        ) && initial_session(auth, config).phase == Phase::AwaitingMethod,
{
}

/// A version byte other than 0x05, in the method choice or in the reply
/// header, fails the session with the unsupported-version error.
pub proof fn lemma_wrong_version(offered: Seq<u8>, version: u8, method: u8, b: Seq<u8>)
    ensures
        version != consts::SOCKS5_VERSION ==> method_reply_spec(offered, version, method)
            == Err::<u8, SocksError>(SocksError::UnsupportedSocksVersion(version)),
        b.len() >= 4 && b[0] != consts::SOCKS5_VERSION ==> decode_reply_spec(b) == AddrDecode::Fail(
            SocksError::UnsupportedSocksVersion(b[0]),
        ),
{
}

} // verus!
