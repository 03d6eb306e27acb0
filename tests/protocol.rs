use somfy_rts::dongle::{somfy_dongle, Error, SomfyRTSDongle, Waiting, FACTORY_REPLY_LINES, FACTORY_REQUEST, INIT_REPLY_LINES};
use somfy_rts::frame;
use somfy_rts::json::{JsonResponse, JsonValue, JsonNumber};
use somfy_rts::model::{AddressVal, Alive, BadBlindDetails, BlindAddress, Command, DongleCommand, Empty, LedAction, LedColor, Response, RtsCommand};
use somfy_rts::payload::PayloadError;
use somfy_rts::ser::screaming_kebab_case;
use somfy_rts::wire::WireFormat;

fn value(text: &str) -> JsonValue {
    let mut buffer = text.as_bytes().to_vec();
    JsonResponse.read_frame(&mut buffer).unwrap()
}

fn ready() -> SomfyRTSDongle<somfy_rts::dongle::Ready> {
    somfy_dongle().initialize(WireFormat::CryptoOff, "RTSDONGLE,OK,1").unwrap().1
}

#[test]
fn handshake_ok_yields_device_id_and_ready() {
    let (id, dongle) = somfy_dongle()
        .initialize(WireFormat::CryptoOff, "RTSDONGLE,OK,12345")
        .unwrap();
    assert_eq!(id, "12345");
    assert_eq!(dongle.format(), WireFormat::CryptoOff);
}

#[test]
fn handshake_ko_is_dongle_error() {
    let r = somfy_dongle().initialize(WireFormat::CryptoOff, "RTSDONGLE,KO");
    assert!(matches!(r, Err(Error::Dongle(_))));
}

#[test]
fn handshake_other_answer_is_dongle_error() {
    let r = SomfyRTSDongle::<Waiting>::parse_response("RTSDONGLE,MAYBE,1");
    assert!(matches!(r, Err(Error::Dongle(_))));
}

#[test]
fn handshake_marker_mismatch_is_comm_error() {
    let r = somfy_dongle().initialize(WireFormat::CryptoOff, "GARBAGE,OK,1");
    assert!(matches!(r, Err(Error::Comm(frame::Error::Incomplete))));
}

#[test]
fn handshake_missing_fields_are_comm_errors() {
    for line in ["RTSDONGLE", "RTSDONGLE,OK", ""] {
        let r = SomfyRTSDongle::<Waiting>::parse_response(line);
        assert_eq!(r, Err(Error::Comm(frame::Error::Incomplete)));
    }
}

#[test]
fn handshake_id_stops_at_next_comma() {
    let r = SomfyRTSDongle::<Waiting>::parse_response("RTSDONGLE,OK,12,34");
    assert_eq!(r, Ok("12".to_string()));
}

#[test]
fn handshake_reply_is_one_line() {
    assert_eq!(INIT_REPLY_LINES, 1);
    let mut buffer = b"RTSDONGLE,OK,777\r\n".to_vec();
    let lines = frame::LinesResponse::new(INIT_REPLY_LINES).read_frame(&mut buffer).unwrap();
    let (id, _) = somfy_dongle().initialize(WireFormat::Normal, &lines[0]).unwrap();
    assert_eq!(id, "777");
}

#[test]
fn handshake_tokens() {
    assert_eq!(WireFormat::Normal.init_message(), "$HELLOSOMFYBG3174");
    assert_eq!(WireFormat::CryptoOff.init_message(), "$CRYPTO_OFF_3145");
}

#[test]
fn factory_mode_keeps_lines() {
    assert_eq!(FACTORY_REQUEST, "$GOTO-FACTORY");
    assert_eq!(FACTORY_REPLY_LINES, 11);
    let lines: Vec<String> = (0..11).map(|i| format!("line {}", i)).collect();
    let factory = somfy_dongle().factory_info(lines.clone());
    assert_eq!(factory.data(), lines);
}

#[test]
fn rts_up_serializes_as_list() {
    assert_eq!(RtsCommand::Up(7).to_json(), r#"["UP",7]"#);
}

#[test]
fn rts_prog_rt_uses_its_own_tag() {
    assert_eq!(RtsCommand::ProgRt(3).to_json(), r#"["PROG_RT",3]"#);
}

#[test]
fn rts_four_cycles_uses_its_own_tag() {
    assert_eq!(RtsCommand::FourCycles(9).to_json(), r#"["4_CYCLES",9]"#);
}

#[test]
fn rts_other_tags() {
    assert_eq!(RtsCommand::Down(0).to_json(), r#"["DOWN",0]"#);
    assert_eq!(RtsCommand::Prog(255).to_json(), r#"["PROG",255]"#);
    assert_eq!(RtsCommand::My(10).to_json(), r#"["MY",10]"#);
    assert_eq!(RtsCommand::Stop(100).to_json(), r#"["STOP",100]"#);
}

#[test]
fn kebab_case_of_names() {
    assert_eq!(screaming_kebab_case("FactoryReset"), "FACTORY-RESET");
    assert_eq!(screaming_kebab_case("CmdRts"), "CMD-RTS");
    assert_eq!(screaming_kebab_case("alive"), "ALIVE");
    assert_eq!(screaming_kebab_case(""), "");
}

#[test]
fn command_texts() {
    let cases = [
        (Command::CmdDongle(DongleCommand::Alive), r#"{"CMD-DONGLE":"ALIVE"}"#),
        (Command::CmdDongle(DongleCommand::Resethw), r#"{"CMD-DONGLE":"RESETHW"}"#),
        (Command::CmdDongle(DongleCommand::FactoryReset), r#"{"CMD-DONGLE":"FACTORY-RESET"}"#),
        (Command::CmdDongle(DongleCommand::Bcheck), r#"{"CMD-DONGLE":"BCHECK"}"#),
        (Command::CmdDongle(DongleCommand::Bstart), r#"{"CMD-DONGLE":"BSTART"}"#),
        (Command::CmdRts(RtsCommand::Down(42)), r#"{"CMD-RTS":["DOWN",42]}"#),
        (Command::GetAddress(12), r#"{"GET-ADDRESS":12}"#),
        (Command::ResetAddress(5), r#"{"RESET-ADDRESS":5}"#),
        (Command::Led(LedColor::Red, LedAction::Blink, 300), r#"{"LED":["RED","BLINK",300]}"#),
        (Command::Led(LedColor::Green, LedAction::Fix, 65535), r#"{"LED":["GREEN","FIX",65535]}"#),
    ];
    for (cmd, text) in cases {
        assert_eq!(cmd.to_json(), Some(text.to_string()));
    }
}

#[test]
fn set_address_cannot_be_written() {
    assert_eq!(Command::SetAddress.to_json(), None);
    assert_eq!(ready().request(&Command::SetAddress), Err(Error::Unsupported));
}

#[test]
fn passthrough_round_trip_for_every_command() {
    let commands = [
        Command::CmdDongle(DongleCommand::Alive),
        Command::CmdRts(RtsCommand::FourCycles(1)),
        Command::GetAddress(3),
        Command::Led(LedColor::Green, LedAction::Blink, 7),
        Command::ResetAddress(4),
    ];
    for cmd in commands {
        let text = cmd.to_json().unwrap();
        let wire = WireFormat::CryptoOff.encode_data(&text).unwrap();
        assert_eq!(WireFormat::CryptoOff.decode_data(&wire), Some(text));
    }
}

#[test]
fn obfuscated_format_is_unsupported() {
    assert_eq!(WireFormat::Normal.encode_data("x"), None);
    assert_eq!(WireFormat::Normal.decode_data("x"), None);
    let (_, dongle) = somfy_dongle().initialize(WireFormat::Normal, "RTSDONGLE,OK,1").unwrap();
    assert_eq!(dongle.request(&Command::GetAddress(1)), Err(Error::Unsupported));
}

#[test]
fn ready_request_is_command_text() {
    let r = ready().request(&Command::CmdRts(RtsCommand::Up(7)));
    assert_eq!(r, Ok(r#"{"CMD-RTS":["UP",7]}"#.to_string()));
}

#[test]
fn dongle_ko_is_a_response_not_an_error() {
    let r = ready().reply::<Empty>(value(r#"{"ACK":"DONGLE_KO","ERROR":"bad id"}"#));
    assert!(matches!(r, Ok(Response::DongleErr(ref m)) if m == "bad id"));
}

#[test]
fn dongle_ko_without_message_is_empty() {
    let r = ready().reply::<Alive>(value(r#"{"ACK":"DONGLE_KO"}"#));
    assert!(matches!(r, Ok(Response::DongleErr(ref m)) if m.is_empty()));
}

#[test]
fn dongle_ok_missing_field_is_json_error() {
    let r = ready().reply::<Alive>(value(r#"{"ACK":"DONGLE_OK","RSSI-VAL":-40}"#));
    assert!(matches!(r, Err(Error::Json(PayloadError { ref field })) if field == "ID"));
}

#[test]
fn dongle_ok_alive_payload() {
    let r = ready().reply::<Alive>(value(
        r#"{"ACK":"DONGLE_OK","RSSI-VAL":-52,"ID":["RTS","v1","42"]}"#,
    ));
    match r {
        Ok(Response::DongleOk(alive)) => {
            assert_eq!(alive.rssi_val, -52);
            assert_eq!(alive.id, ["RTS".to_string(), "v1".to_string(), "42".to_string()]);
        }
        _ => panic!("unexpected reply"),
    }
}

#[test]
fn alive_rssi_out_of_range_is_json_error() {
    let r = ready().reply::<Alive>(value(
        r#"{"ACK":"DONGLE_OK","RSSI-VAL":3000000000,"ID":["a","b","c"]}"#,
    ));
    assert!(matches!(r, Err(Error::Json(_))));
}

#[test]
fn empty_payload_accepts_any_object() {
    let r = ready().reply::<Empty>(value(r#"{"ACK":"DONGLE_OK","EXTRA":1}"#));
    assert!(matches!(r, Ok(Response::DongleOk(Empty {}))));
}

#[test]
fn unknown_ack_is_protocol_error() {
    let r = ready().reply::<Empty>(value(r#"{"ACK":"MAYBE"}"#));
    assert!(matches!(r, Err(Error::Protocol)));
    let r = ready().reply::<Empty>(value(r#"[1,2]"#));
    assert!(matches!(r, Err(Error::Protocol)));
}

#[test]
fn response_into_result() {
    let ok: Response<u8> = Response::DongleOk(3);
    assert_eq!(ok.into_result(), Ok(3));
    let ko: Response<u8> = Response::DongleErr("no".to_string());
    assert_eq!(ko.into_result(), Err("no".to_string()));
}

#[test]
fn frame_errors_map_to_connection_errors() {
    assert_eq!(Error::from_frame(frame::Error::Io("gone".to_string())), Error::Io("gone".to_string()));
    assert_eq!(Error::from_frame(frame::Error::EndOfStream), Error::Comm(frame::Error::EndOfStream));
}

fn address(text: &str) -> AddressVal {
    let r = ready().reply::<AddressVal>(value(text)).unwrap();
    match r {
        Response::DongleOk(a) => a,
        Response::DongleErr(e) => panic!("refused: {}", e),
    }
}

#[test]
fn address_record_is_checked() {
    let a = address(r#"{"ACK":"DONGLE_OK","ADDRESS-VAL":[5,"0a1B2c","00ff"]}"#);
    assert_eq!(a.address_val[0], JsonValue::Number(JsonNumber::PosInt(5)));
    let b = BlindAddress::try_from(a);
    assert_eq!(
        b,
        Ok(BlindAddress { id: 5, addr: [0x0a, 0x1b, 0x2c], rolling_code: [0x00, 0xff] })
    );
}

#[test]
fn address_id_keeps_its_low_byte() {
    let a = address(r#"{"ACK":"DONGLE_OK","ADDRESS-VAL":[260,"000000","0000"]}"#);
    assert_eq!(BlindAddress::try_from(a).map(|b| b.id), Ok(4));
    let a = address(r#"{"ACK":"DONGLE_OK","ADDRESS-VAL":[255,"000000","0000"]}"#);
    assert_eq!(BlindAddress::try_from(a).map(|b| b.id), Ok(255));
}

#[test]
fn address_record_errors() {
    let cases = [
        (r#"[null,"000000","0000"]"#, BadBlindDetails::MissingId),
        (r#"[-1,"000000","0000"]"#, BadBlindDetails::MissingId),
        (r#"[1,2,"0000"]"#, BadBlindDetails::MissingAddress),
        (r#"[1,"00000g","0000"]"#, BadBlindDetails::BadHexValue),
        (r#"[1,"0000","0000"]"#, BadBlindDetails::BadHexValue),
        (r#"[1,"000000",null]"#, BadBlindDetails::MissingRollingCode),
        (r#"[1,"000000","00000"]"#, BadBlindDetails::BadHexValue),
    ];
    for (items, expected) in cases {
        let a = address(&format!(r#"{{"ACK":"DONGLE_OK","ADDRESS-VAL":{}}}"#, items));
        assert_eq!(BlindAddress::try_from(a).err(), Some(expected));
    }
}

#[test]
fn address_list_of_wrong_length_is_json_error() {
    let r = ready().reply::<AddressVal>(value(r#"{"ACK":"DONGLE_OK","ADDRESS-VAL":[1,"000000"]}"#));
    assert!(matches!(r, Err(Error::Json(_))));
}
