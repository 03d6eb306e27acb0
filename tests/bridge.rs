use somfy_rts::bridge::{command_topic, config_topic, is_usable_blind, mqtt_option, order_for, state_topic, OrderError};
use somfy_rts::json::{JsonNumber, JsonValue};
use somfy_rts::model::{AddressVal, RtsCommand};

fn record(code: JsonValue) -> AddressVal {
    AddressVal {
        address_val: [
            JsonValue::Number(JsonNumber::PosInt(3)),
            JsonValue::Str("0a1b2c".to_string()),
            code,
        ],
    }
}

#[test]
fn blind_with_rolling_code_is_usable() {
    assert!(is_usable_blind(&record(JsonValue::Str("12ab".to_string()))));
}

#[test]
fn empty_slot_is_not_usable() {
    assert!(!is_usable_blind(&record(JsonValue::Str("0000".to_string()))));
    assert!(!is_usable_blind(&record(JsonValue::Null)));
}

#[test]
fn topics() {
    assert_eq!(command_topic(7), "somfy-rts/cover/7/set");
    assert_eq!(command_topic(100), "somfy-rts/cover/100/set");
    assert_eq!(state_topic(), "somfy-rts/dongle/state");
    assert_eq!(config_topic("RTS1", "0a1b2c"), "homeassistant/cover/RTS1/0a1b2c/config");
}

#[test]
fn orders_from_messages() {
    assert_eq!(order_for("somfy-rts/cover/7/set", b"UP"), Ok(RtsCommand::Up(7)));
    assert_eq!(order_for("somfy-rts/cover/8/set", b"DOWN"), Ok(RtsCommand::Down(8)));
    assert_eq!(order_for("somfy-rts/cover/9/set", b"STOP"), Ok(RtsCommand::Stop(9)));
    assert_eq!(order_for("a/b/12", b"UP"), Ok(RtsCommand::Up(12)));
}

#[test]
fn bad_messages() {
    assert_eq!(order_for("somfy-rts/cover", b"UP"), Err(OrderError::BadTopic));
    assert_eq!(order_for("somfy-rts/cover/x/set", b"UP"), Err(OrderError::BadBlindId));
    assert_eq!(order_for("somfy-rts/cover/", b"UP"), Err(OrderError::BadBlindId));
    assert_eq!(order_for("somfy-rts/cover/x/set", &[0xff]), Err(OrderError::BadBlindId));
    assert_eq!(order_for("somfy-rts/cover/1/set", &[0xff]), Err(OrderError::BadPayload));
    assert_eq!(
        order_for("somfy-rts/cover/1/set", b"LEFT"),
        Err(OrderError::UnknownOrder("LEFT".to_string()))
    );
}

#[test]
fn broker_option_is_read() {
    assert_eq!(
        mqtt_option("bridge:localhost:1883"),
        Ok(("bridge".to_string(), "localhost".to_string(), 1883))
    );
    assert_eq!(mqtt_option("a:b:1:extra"), Ok(("a".to_string(), "b".to_string(), 1)));
}

#[test]
fn broker_option_errors() {
    assert_eq!(mqtt_option("bridge"), Err("Missing 'host' in MQTT option string".to_string()));
    assert_eq!(mqtt_option("bridge:host"), Err("Missing 'port' in MQTT option string".to_string()));
    assert_eq!(
        mqtt_option("bridge:host:99999"),
        Err("Bad 'port' value in MQTT option string: number too large to fit in target type".to_string())
    );
    assert_eq!(
        mqtt_option("bridge:host:"),
        Err("Bad 'port' value in MQTT option string: cannot parse integer from empty string".to_string())
    );
}
