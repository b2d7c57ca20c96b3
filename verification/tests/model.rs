use greengrass_ipc::{
    Blob, BinaryMessageIn, BinaryMessageOut, Error, IpcEnv, JsonMessageOut, MessageContext, QoS,
    AUTH_TOKEN_ENV,
    SOCKET_PATH_ENV,
};
use std::path::PathBuf;

#[test]
fn qos_wire_text_roundtrips() {
    assert_eq!(QoS::AtMostOnce.wire_text(), "0");
    assert_eq!(QoS::AtLeastOnce.wire_text(), "1");
    assert_eq!(QoS::from_wire_text("0"), Some(QoS::AtMostOnce));
    assert_eq!(QoS::from_wire_text("1"), Some(QoS::AtLeastOnce));
    assert_eq!(QoS::from_wire_text("2"), None);
    assert_eq!(QoS::from_wire_text("AtLeastOnce"), None);
}

#[test]
fn blob_travels_as_base64() {
    assert_eq!(Blob(b"hi".to_vec()).to_base64(), "aGk=");
    assert_eq!(Blob::from_base64("aGk=").unwrap(), Blob(b"hi".to_vec()));
    assert_eq!(Blob(Vec::new()).to_base64(), "");
    assert!(Blob::from_base64("a!k=").is_err());
    let bytes: Vec<u8> = (0u8..=255).collect();
    let b = Blob(bytes.clone());
    assert_eq!(Blob::from_base64(&b.to_base64()).unwrap().0, bytes);
}

#[test]
fn base64_text_differs_from_the_bytes() {
    assert_eq!(Blob(b"hello".to_vec()).to_base64(), "aGVsbG8=");
    assert_eq!(Blob::from_base64("aGVsbG8=").unwrap().0, b"hello".to_vec());
}

#[test]
fn cloned_json_message_keeps_its_value() {
    let m = JsonMessageOut { message: serde_json::from_str::<serde_json::Value>(r#"{"a":[1,2]}"#).unwrap() };
    assert_eq!(m.clone().message, m.message);
}

#[test]
fn binary_messages_encode_and_decode() {
    let out = BinaryMessageOut { message: b"hi".to_vec() };
    assert_eq!(out.encoded_message(), "aGk=");
    let ctx = MessageContext { topic: "t".to_owned() };
    let m = BinaryMessageIn::from_wire(Some("aGk=".to_owned()), Some(ctx)).unwrap();
    assert_eq!(m.message, b"hi".to_vec());
    assert_eq!(m.context.unwrap().topic, "t");
    let m = BinaryMessageIn::from_wire(None, None).unwrap();
    assert!(m.message.is_empty());
    assert!(BinaryMessageIn::from_wire(Some("*".to_owned()), None).is_err());
}

#[test]
fn ipc_env_requires_both_variables() {
    let p = PathBuf::from("/tmp/ipc.sock");
    match IpcEnv::from_vars(None, Some("tok".to_owned())) {
        Err(Error::NotUnderGreengrass(v)) => assert_eq!(v, SOCKET_PATH_ENV),
        other => panic!("unexpected {other:?}"),
    }
    match IpcEnv::from_vars(Some(p.clone()), None) {
        Err(Error::NotUnderGreengrass(v)) => assert_eq!(v, AUTH_TOKEN_ENV),
        other => panic!("unexpected {other:?}"),
    }
    match IpcEnv::from_vars(Some(p.clone()), Some(String::new())) {
        Err(Error::NotUnderGreengrass(v)) => assert_eq!(v, "SVCUID"),
        other => panic!("unexpected {other:?}"),
    }
    let env = IpcEnv::from_vars(Some(p.clone()), Some("tok".to_owned())).unwrap();
    assert_eq!(env.socket_path, p);
    assert_eq!(env.auth_token, "tok");
    let copy = env.clone();
    assert_eq!(copy.auth_token, "tok");
    assert_eq!(copy.socket_path, PathBuf::from("/tmp/ipc.sock"));
    assert_eq!(
        SOCKET_PATH_ENV,
        "AWS_GG_NUCLEUS_DOMAIN_SOCKET_FILEPATH_FOR_COMPONENT"
    );
}

#[test]
fn base64_groups_and_padding() {
    assert_eq!(Blob(vec![0, 255, 62, 1]).to_base64(), "AP8+AQ==");
    assert_eq!(Blob(vec![251, 239]).to_base64(), "++8=");
    assert_eq!(Blob(vec![63, 255, 255]).to_base64(), "P///");
}
