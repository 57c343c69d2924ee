use cryomech_api::api::Pending;
use cryomech_api::api::Reply;
use cryomech_api::api::ResponseCode;
use cryomech_api::api::rsp_not_ok_message;
use cryomech_api::api::SRLNO_MISMATCH;
use cryomech_api::packet::KeyedFrame;
use cryomech_api::packet::RequestType;
use cryomech_api::packet::UnkeyedFrame;
use cryomech_api::packet::WireFrame;
use cryomech_api::packet::MALFORMED_RESPONSE;
use cryomech_api::packet::SMDP_OPCODE;
use cryomech_api::CryomechApiSmdp;
use cryomech_api::CryomechApiSmdpBuilder;
use cryomech_api::Error;
use cryomech_api::SmdpVersion;

fn keyed_session() -> CryomechApiSmdp {
    CryomechApiSmdpBuilder::new("/dev/ttyUSB0")
        .version(SmdpVersion::V3Plus)
        .build()
}

fn unkeyed_reply(status: ResponseCode, data: Vec<u8>) -> Reply {
    Reply::Received(
        status,
        WireFrame::Unkeyed(UnkeyedFrame {
            addr: 0x10,
            cmd_rsp: 0x81,
            data,
        }),
    )
}

fn keyed_reply(status: ResponseCode, srlno: u8, data: Vec<u8>) -> Reply {
    Reply::Received(
        status,
        WireFrame::Keyed(KeyedFrame {
            addr: 0x10,
            cmd_rsp: 0x81,
            srlno,
            data,
        }),
    )
}

#[test]
fn builder_defaults() {
    let api = CryomechApiSmdpBuilder::new("/dev/ttyUSB0").build();
    assert_eq!(api.com_port(), "/dev/ttyUSB0");
    assert_eq!(api.baud(), 115200);
    assert_eq!(api.read_timeout(), 80);
    assert_eq!(api.device_addr(), 0x10);
    assert_eq!(api.max_framesize(), 64);
    assert_eq!(api.version(), SmdpVersion::V2);
}

#[test]
fn builder_setters_change_one_setting_each() {
    let api = CryomechApiSmdpBuilder::new("COM3")
        .read_timeout_ms(50)
        .device_addr(0x2A)
        .version(SmdpVersion::V3Plus)
        .baud(9600)
        .max_framesize(128)
        .build();
    assert_eq!(api.com_port(), "COM3");
    assert_eq!(api.read_timeout(), 50);
    assert_eq!(api.device_addr(), 0x2A);
    assert_eq!(api.version(), SmdpVersion::V3Plus);
    assert_eq!(api.baud(), 9600);
    assert_eq!(api.max_framesize(), 128);

    let api = CryomechApiSmdpBuilder::new("COM3").baud(19200).build();
    assert_eq!(api.baud(), 19200);
    assert_eq!(api.read_timeout(), 80);
    assert_eq!(api.device_addr(), 0x10);
    assert_eq!(api.max_framesize(), 64);
    assert_eq!(api.version(), SmdpVersion::V2);
}

#[test]
fn new_keeps_its_arguments() {
    let api = CryomechApiSmdp::new("/dev/ttyS1", 57600, 120, 0x33, 32, SmdpVersion::V3Plus);
    assert_eq!(api.com_port(), "/dev/ttyS1");
    assert_eq!(api.baud(), 57600);
    assert_eq!(api.read_timeout(), 120);
    assert_eq!(api.device_addr(), 0x33);
    assert_eq!(api.max_framesize(), 32);
    assert_eq!(api.version(), SmdpVersion::V3Plus);
}

#[test]
fn first_serial_number_is_0x17() {
    let mut api = CryomechApiSmdpBuilder::new("p").build();
    assert_eq!(api.increment_srlno(), 0x17);
    assert_eq!(api.increment_srlno(), 0x18);
}

#[test]
fn serial_number_wraps_from_0xff_to_0x11() {
    let mut api = keyed_session();
    let mut last = api.increment_srlno();
    assert_eq!(last, 0x17);
    while last != 0xFF {
        let next = api.increment_srlno();
        assert_eq!(next, last + 1);
        last = next;
    }
    assert_eq!(api.increment_srlno(), 0x11);
    assert_eq!(api.increment_srlno(), 0x12);
}

#[test]
fn serial_number_is_never_below_0x10() {
    let mut api = keyed_session();
    let mut seen_0x10 = false;
    for _ in 0..2000 {
        let srlno = api.increment_srlno();
        assert!(srlno >= 0x10);
        seen_0x10 = seen_0x10 || srlno == 0x10;
    }
    assert!(!seen_0x10);
}

#[test]
fn unkeyed_request_has_no_serial_number_and_leaves_the_counter() {
    let mut api = CryomechApiSmdpBuilder::new("p").device_addr(0x42).build();
    let (frame, pending) = api.comm_handler(RequestType::Read, 0x3574, 0x00);
    assert_eq!(
        frame,
        WireFrame::Unkeyed(UnkeyedFrame {
            addr: 0x42,
            cmd_rsp: SMDP_OPCODE,
            data: vec![0x63, 0x35, 0x74, 0x00],
        })
    );
    assert_eq!(
        pending,
        Pending {
            is_read: true,
            srlno: None
        }
    );
    assert_eq!(api.increment_srlno(), 0x17);
}

#[test]
fn keyed_requests_take_serial_numbers_in_turn() {
    let mut api = keyed_session();
    let (frame, pending) = api.comm_handler(RequestType::Write(0x0001), 0xD3DB, 0x00);
    assert_eq!(
        frame,
        WireFrame::Keyed(KeyedFrame {
            addr: 0x10,
            cmd_rsp: SMDP_OPCODE,
            srlno: 0x17,
            data: vec![0x61, 0xD3, 0xDB, 0x00, 0x00, 0x00, 0x00, 0x01],
        })
    );
    assert_eq!(
        pending,
        Pending {
            is_read: false,
            srlno: Some(0x17)
        }
    );
    let (frame, pending) = api.comm_handler(RequestType::Read, 0x5F95, 0x00);
    assert_eq!(
        frame,
        WireFrame::Keyed(KeyedFrame {
            addr: 0x10,
            cmd_rsp: SMDP_OPCODE,
            srlno: 0x18,
            data: vec![0x63, 0x5F, 0x95, 0x00],
        })
    );
    assert_eq!(
        pending,
        Pending {
            is_read: true,
            srlno: Some(0x18)
        }
    );
}

#[test]
fn read_reply_yields_its_value() {
    let pending = Pending {
        is_read: true,
        srlno: None,
    };
    let reply = unkeyed_reply(ResponseCode::Success, vec![0x63, 0x35, 0x74, 0x00, 0, 0, 0, 250]);
    assert_eq!(pending.finish(reply).unwrap(), Some(250));

    let pending = Pending {
        is_read: true,
        srlno: Some(0x17),
    };
    let reply = keyed_reply(ResponseCode::Success, 0x17, vec![0x63, 0x35, 0x74, 0x00, 0, 0, 1, 0]);
    assert_eq!(pending.finish(reply).unwrap(), Some(256));
}

#[test]
fn write_reply_yields_no_value() {
    let pending = Pending {
        is_read: false,
        srlno: None,
    };
    let reply = unkeyed_reply(ResponseCode::Success, vec![]);
    assert_eq!(pending.finish(reply).unwrap(), None);

    let pending = Pending {
        is_read: false,
        srlno: Some(0x44),
    };
    let reply = keyed_reply(ResponseCode::Success, 0x44, vec![1, 2, 3, 4, 5, 6, 7, 8]);
    assert_eq!(pending.finish(reply).unwrap(), None);
}

#[test]
fn transport_failure_is_io_error() {
    let pending = Pending {
        is_read: true,
        srlno: Some(0x17),
    };
    match pending.finish(Reply::Failed("timed out".to_string())) {
        Err(Error::Io(text)) => assert_eq!(text, "timed out"),
        other => panic!("expected an I/O error, got {:?}", other),
    }
}

#[test]
fn status_not_ok_is_protocol_error_naming_the_status() {
    let pending = Pending {
        is_read: true,
        srlno: None,
    };
    let reply = unkeyed_reply(ResponseCode::Other(4), vec![0x63, 0x35, 0x74, 0x00, 0, 0, 0, 250]);
    match pending.finish(reply) {
        Err(Error::Smdp(text)) => assert_eq!(text, "RSP not OK: 4"),
        other => panic!("expected a protocol error, got {:?}", other),
    }

    let pending = Pending {
        is_read: false,
        srlno: Some(0x17),
    };
    let reply = keyed_reply(ResponseCode::Other(213), 0x17, vec![]);
    match pending.finish(reply) {
        Err(Error::Smdp(text)) => assert_eq!(text, "RSP not OK: 213"),
        other => panic!("expected a protocol error, got {:?}", other),
    }
}

#[test]
fn status_is_judged_before_the_serial_number() {
    let pending = Pending {
        is_read: true,
        srlno: Some(0x17),
    };
    let reply = keyed_reply(ResponseCode::Other(2), 0x99, vec![0; 8]);
    match pending.finish(reply) {
        Err(Error::Smdp(text)) => assert_eq!(text, "RSP not OK: 2"),
        other => panic!("expected a protocol error, got {:?}", other),
    }
}

#[test]
fn serial_number_mismatch_is_protocol_error() {
    let pending = Pending {
        is_read: true,
        srlno: Some(0x17),
    };
    let reply = keyed_reply(ResponseCode::Success, 0x18, vec![0x63, 0x35, 0x74, 0x00, 0, 0, 0, 250]);
    match pending.finish(reply) {
        Err(Error::Smdp(text)) => assert_eq!(text, SRLNO_MISMATCH),
        other => panic!("expected a protocol error, got {:?}", other),
    }

    let reply = unkeyed_reply(ResponseCode::Success, vec![0x63, 0x35, 0x74, 0x00, 0, 0, 0, 250]);
    match pending.finish(reply) {
        Err(Error::Smdp(text)) => assert_eq!(text, "SRLNO mismatch"),
        other => panic!("expected a protocol error, got {:?}", other),
    }
}

#[test]
fn unkeyed_exchange_ignores_a_serial_number_in_the_reply() {
    let pending = Pending {
        is_read: true,
        srlno: None,
    };
    let reply = keyed_reply(ResponseCode::Success, 0x55, vec![0, 0, 0, 0, 0, 0, 0, 7]);
    assert_eq!(pending.finish(reply).unwrap(), Some(7));
}

#[test]
fn read_reply_of_wrong_length_is_format_error() {
    for len in [0usize, 4, 7, 9] {
        let pending = Pending {
            is_read: true,
            srlno: None,
        };
        match pending.finish(unkeyed_reply(ResponseCode::Success, vec![0; len])) {
            Err(Error::InvalidFormat(text)) => assert_eq!(text, MALFORMED_RESPONSE),
            other => panic!("length {}: expected a format error, got {:?}", len, other),
        }
    }
}

#[test]
fn status_message_is_decimal_without_leading_zeros() {
    assert_eq!(rsp_not_ok_message(0), "RSP not OK: 0");
    assert_eq!(rsp_not_ok_message(7), "RSP not OK: 7");
    assert_eq!(rsp_not_ok_message(9), "RSP not OK: 9");
    assert_eq!(rsp_not_ok_message(10), "RSP not OK: 10");
    assert_eq!(rsp_not_ok_message(99), "RSP not OK: 99");
    assert_eq!(rsp_not_ok_message(100), "RSP not OK: 100");
    assert_eq!(rsp_not_ok_message(105), "RSP not OK: 105");
    assert_eq!(rsp_not_ok_message(255), "RSP not OK: 255");
    for code in 0..=255u8 {
        assert_eq!(rsp_not_ok_message(code), format!("RSP not OK: {}", code));
    }
}

#[test]
fn error_message_is_the_text_it_carries() {
    assert_eq!(Error::Io("a".to_string()).message(), "a");
    assert_eq!(Error::InvalidFormat("b".to_string()).message(), "b");
    assert_eq!(Error::Smdp("c".to_string()).message(), "c");
    match Error::propagate_smdp_io("port closed".to_string()) {
        Error::Io(text) => assert_eq!(text, "port closed"),
        other => panic!("expected an I/O error, got {:?}", other),
    }
}
