use socks5_client::client::{decode_reply, Config, Phase, Socks5Session};
use socks5_client::target_addr::{Decoded, SocketAddr, TargetAddr};
use socks5_client::{AuthenticationMethod, ReplyError, Socks5Command, SocksError};

fn skip_auth_config() -> Config {
    let mut config = Config::default();
    config.set_skip_auth(true);
    config
}

fn domain(name: &str, port: u16) -> TargetAddr {
    TargetAddr::Domain(name.to_string(), port)
}

#[test]
fn config_default_and_setters() {
    let mut config = Config::default();
    assert_eq!(config.connect_timeout, None);
    assert!(!config.skip_auth);
    config.set_connect_timeout(30).set_skip_auth(true);
    assert_eq!(config.connect_timeout, Some(30));
    assert!(config.skip_auth);
}

#[test]
fn perdu_com_connect_through_proxy() {
    let mut session = Socks5Session::use_stream(None, skip_auth_config());
    assert_eq!(session.greeting(), None);
    let frame = session
        .request(Socks5Command::TCPConnect, domain("perdu.com", 80))
        .unwrap();
    let mut expected = vec![0x05, 0x01, 0x00, 0x03, 0x09];
    expected.extend_from_slice(b"perdu.com");
    expected.extend_from_slice(&[0x00, 0x50]);
    assert_eq!(frame, expected);
    assert_eq!(session.phase(), Phase::AwaitingReply);
    let reply = [0x05, 0x00, 0x00, 0x01, 0x00, 0x00, 0x00, 0x00, 0x00, 0x00];
    let bound = session.read_request_reply(&reply).unwrap();
    assert_eq!(
        bound,
        Decoded::Complete(TargetAddr::Ip(SocketAddr::V4 { ip: [0, 0, 0, 0], port: 0 }))
    );
    assert_eq!(session.phase(), Phase::Established);
}

#[test]
fn ipv4_connect_frame() {
    let mut session = Socks5Session::use_stream(None, skip_auth_config());
    let target = TargetAddr::Ip(SocketAddr::V4 { ip: [93, 184, 216, 34], port: 443 });
    let frame = session.request(Socks5Command::TCPConnect, target.clone()).unwrap();
    assert_eq!(frame, vec![0x05, 0x01, 0x00, 0x01, 0x5D, 0xB8, 0xD8, 0x22, 0x01, 0xBB]);
    assert_eq!(session.target_addr(), Some(&target));
}

#[test]
fn proxy_reports_connection_refused() {
    let mut session = Socks5Session::use_stream(None, skip_auth_config());
    session.request(Socks5Command::TCPConnect, domain("perdu.com", 80)).unwrap();
    let reply = [0x05, 0x05, 0x00, 0x01, 0x00, 0x00, 0x00, 0x00, 0x00, 0x00];
    assert_eq!(
        session.read_request_reply(&reply),
        Err(SocksError::ReplyError(ReplyError::ConnectionRefused))
    );
    assert_eq!(session.phase(), Phase::Failed);
}

#[test]
fn domain_of_300_bytes_is_refused_before_any_write() {
    let mut session = Socks5Session::use_stream(None, skip_auth_config());
    let name = "a".repeat(300);
    assert_eq!(
        session.request(Socks5Command::TCPConnect, domain(&name, 80)),
        Err(SocksError::ExceededMaxDomainLen(300))
    );
    assert_eq!(session.phase(), Phase::Failed);
}

#[test]
fn domain_of_255_bytes_is_accepted() {
    let mut session = Socks5Session::use_stream(None, skip_auth_config());
    let name = "b".repeat(255);
    let frame = session.request(Socks5Command::TCPBind, domain(&name, 1)).unwrap();
    assert_eq!(frame.len(), 4 + 1 + 255 + 2);
    assert_eq!(&frame[..5], &[0x05, 0x02, 0x00, 0x03, 0xFF]);
    assert_eq!(&frame[260..], &[0x00, 0x01]);
}

#[test]
fn multibyte_domain_length_counts_bytes() {
    let mut session = Socks5Session::use_stream(None, skip_auth_config());
    let frame = session.request(Socks5Command::TCPConnect, domain("é.fr", 8080)).unwrap();
    assert_eq!(frame, vec![0x05, 0x01, 0x00, 0x03, 0x05, 0xC3, 0xA9, b'.', b'f', b'r', 0x1F, 0x90]);
}

#[test]
fn ipv6_target_is_unsupported() {
    let mut session = Socks5Session::use_stream(None, skip_auth_config());
    let target = TargetAddr::Ip(SocketAddr::V6 { ip: [0, 0, 0, 0, 0, 0, 0, 1], port: 80 });
    assert_eq!(
        session.request(Socks5Command::TCPConnect, target),
        Err(SocksError::UnsupportedIpv6)
    );
}

#[test]
fn udp_associate_without_target_falls_back_to_zeros() {
    let session = Socks5Session::use_stream(None, skip_auth_config());
    assert_eq!(
        session.request_header(Socks5Command::UDPAssociate),
        Ok(vec![0x05, 0x03, 0x00, 0x01, 0, 0, 0, 0, 0, 0])
    );
}

#[test]
fn other_commands_without_target_fail() {
    let session = Socks5Session::use_stream(None, skip_auth_config());
    assert_eq!(
        session.request_header(Socks5Command::TCPConnect),
        Err(SocksError::MissingTargetAddr)
    );
    assert_eq!(
        session.request_header(Socks5Command::TCPBind),
        Err(SocksError::MissingTargetAddr)
    );
}

#[test]
fn skip_auth_sends_no_negotiation() {
    let session = Socks5Session::use_stream(None, skip_auth_config());
    assert_eq!(session.greeting(), None);
    assert_eq!(session.phase(), Phase::Ready);
}

#[test]
fn negotiation_offers_no_auth_first() {
    let session = Socks5Session::use_stream(None, Config::default());
    assert_eq!(session.phase(), Phase::AwaitingMethod);
    assert_eq!(session.greeting(), Some(vec![0x05, 0x01, 0x00]));

    let password = AuthenticationMethod::Password {
        username: "user".to_string(),
        password: "SECRET-REDACTED".to_string(),
    };
    let session = Socks5Session::use_stream(Some(password), Config::default());
    assert_eq!(session.greeting(), Some(vec![0x05, 0x02, 0x00, 0x02]));
}

#[test]
fn negotiation_then_request() {
    let mut session = Socks5Session::use_stream(None, Config::default());
    assert_eq!(session.accept_method([0x05, 0x00]), Ok(0x00));
    assert_eq!(session.phase(), Phase::Ready);
    assert_eq!(session.greeting(), None);
    let frame = session.request(Socks5Command::TCPConnect, domain("a.b", 1)).unwrap();
    assert_eq!(frame, vec![0x05, 0x01, 0x00, 0x03, 0x03, b'a', b'.', b'b', 0x00, 0x01]);
}

#[test]
fn negotiation_failures() {
    let mut session = Socks5Session::use_stream(None, Config::default());
    assert_eq!(session.accept_method([0x05, 0xFF]), Err(SocksError::NoAcceptableMethod));
    assert_eq!(session.phase(), Phase::Failed);

    let mut session = Socks5Session::use_stream(None, Config::default());
    assert_eq!(session.accept_method([0x05, 0x02]), Err(SocksError::UnofferedMethod(0x02)));

    let password = AuthenticationMethod::Password {
        username: "u".to_string(),
        password: "p".to_string(),
    };
    let mut session = Socks5Session::use_stream(Some(password), Config::default());
    assert_eq!(session.accept_method([0x05, 0x02]), Ok(0x02));
}

#[test]
fn wrong_version_in_negotiation() {
    let mut session = Socks5Session::use_stream(None, Config::default());
    assert_eq!(
        session.accept_method([0x04, 0x00]),
        Err(SocksError::UnsupportedSocksVersion(0x04))
    );
    assert_eq!(session.phase(), Phase::Failed);
}

#[test]
fn wrong_version_in_reply() {
    let mut session = Socks5Session::use_stream(None, skip_auth_config());
    session.request(Socks5Command::TCPConnect, domain("perdu.com", 80)).unwrap();
    let reply = [0x04, 0x00, 0x00, 0x01, 0, 0, 0, 0, 0, 0];
    assert_eq!(
        session.read_request_reply(&reply),
        Err(SocksError::UnsupportedSocksVersion(0x04))
    );
    assert_eq!(session.phase(), Phase::Failed);
}

#[test]
fn reply_code_table() {
    let expected = [
        ReplyError::GeneralFailure,
        ReplyError::ConnectionNotAllowed,
        ReplyError::NetworkUnreachable,
        ReplyError::HostUnreachable,
        ReplyError::ConnectionRefused,
        ReplyError::TtlExpired,
        ReplyError::CommandNotSupported,
        ReplyError::AddressTypeNotSupported,
    ];
    for (i, variant) in expected.iter().enumerate() {
        let code = (i + 1) as u8;
        assert_eq!(ReplyError::from_u8(code), *variant);
        let reply = [0x05, code, 0x00, 0x01, 0, 0, 0, 0, 0, 0];
        assert_eq!(decode_reply(&reply), Err(SocksError::ReplyError(*variant)));
    }
    assert_eq!(ReplyError::from_u8(0), ReplyError::Succeeded);
    for code in [0x09u8, 0x10, 0xFF] {
        let reply = [0x05, code, 0x00, 0x01, 0, 0, 0, 0, 0, 0];
        assert_eq!(decode_reply(&reply), Err(SocksError::UnknownReplyCode(code)));
    }
}

#[test]
fn reply_is_read_in_steps() {
    assert_eq!(decode_reply(&[]), Ok(Decoded::NeedMore(4)));
    assert_eq!(decode_reply(&[0x05, 0x00]), Ok(Decoded::NeedMore(2)));
    assert_eq!(decode_reply(&[0x05, 0x00, 0x00, 0x01]), Ok(Decoded::NeedMore(6)));
    assert_eq!(decode_reply(&[0x05, 0x00, 0x00, 0x03]), Ok(Decoded::NeedMore(1)));
    assert_eq!(decode_reply(&[0x05, 0x00, 0x00, 0x03, 0x04]), Ok(Decoded::NeedMore(6)));
}

#[test]
fn reply_with_bound_domain() {
    let mut reply = vec![0x05, 0x00, 0x00, 0x03, 0x09];
    reply.extend_from_slice(b"perdu.com");
    reply.extend_from_slice(&[0x1F, 0x90]);
    assert_eq!(decode_reply(&reply), Ok(Decoded::Complete(domain("perdu.com", 8080))));
}

#[test]
fn reply_with_invalid_domain_bytes() {
    let reply = [0x05, 0x00, 0x00, 0x03, 0x02, 0xFF, 0xFE, 0x00, 0x50];
    assert_eq!(decode_reply(&reply), Err(SocksError::InvalidDomainName));
}

#[test]
fn reply_address_types() {
    let reply = [0x05, 0x00, 0x00, 0x04, 0, 0, 0, 0];
    assert_eq!(decode_reply(&reply), Err(SocksError::UnsupportedIpv6));
    let reply = [0x05, 0x00, 0x00, 0x07, 0, 0, 0, 0];
    assert_eq!(decode_reply(&reply), Err(SocksError::UnknownAddressType(0x07)));
    let reply = [0x05, 0x00, 0x00, 0x01, 10, 0, 0, 1, 0x04, 0x38];
    assert_eq!(
        decode_reply(&reply),
        Ok(Decoded::Complete(TargetAddr::Ip(SocketAddr::V4 { ip: [10, 0, 0, 1], port: 1080 })))
    );
}
