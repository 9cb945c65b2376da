use serde::de::Error as _;
use serde::ser::SerializeStruct;
use serde::{Deserialize, Deserializer, Serialize, Serializer};
use std::collections::BTreeMap;
use wilton_rust::buffer::{copy_to_wilton_bufer, error_buffer, OVERSIZED_MESSAGE};
use wilton_rust::eraser::call_erased;
use wilton_rust::error_channel::{convert_wilton_error, create_wilton_error, NO_ERROR, UNKNOWN_ERROR};
use wilton_rust::registration::{call_name_length, registration_result};
use wilton_rust::panic_message::{panicmsg, PanicPayload, PANIC_PLACEHOLDER};
use wilton_rust::trampoline::{
    complete_call, dispatch, fault_result, input_length, select_input, BoundaryResult,
    EMPTY_JSON_INPUT,
};

struct FooIn {
    bar: i64,
    baz: i64,
}

impl<'de> Deserialize<'de> for FooIn {
    fn deserialize<D: Deserializer<'de>>(d: D) -> Result<Self, D::Error> {
        let fields = BTreeMap::<String, i64>::deserialize(d)?;
        let bar = *fields.get("bar").ok_or_else(|| D::Error::missing_field("bar"))?;
        let baz = *fields.get("baz").ok_or_else(|| D::Error::missing_field("baz"))?;
        Ok(FooIn { bar, baz })
    }
}

struct FooOut {
    boo: i64,
    baa: i64,
}

impl Serialize for FooOut {
    fn serialize<S: Serializer>(&self, s: S) -> Result<S::Ok, S::Error> {
        let mut st = s.serialize_struct("FooOut", 2)?;
        st.serialize_field("boo", &self.boo)?;
        st.serialize_field("baa", &self.baa)?;
        st.end()
    }
}

fn decode_foo(b: &[u8]) -> Result<FooIn, String> {
    serde_json::from_slice::<FooIn>(b).map_err(|e| e.to_string())
}

fn encode_foo(o: &FooOut) -> Result<String, String> {
    serde_json::to_string_pretty(o).map_err(|e| e.to_string())
}

fn add_five(i: FooIn) -> FooOut {
    FooOut { boo: i.bar + 5, baa: i.baz + 5 }
}

fn run_foo(json_in: Option<&[u8]>) -> BoundaryResult {
    dispatch(&|b: &[u8]| call_erased(&decode_foo, &add_five, &encode_foo, b), json_in)
}

fn failure_text(r: &BoundaryResult) -> String {
    match r {
        BoundaryResult::Failure { error } => {
            assert_eq!(error.last(), Some(&0u8));
            String::from_utf8(error[..error.len() - 1].to_vec()).unwrap()
        }
        BoundaryResult::Success { .. } => panic!("expected a failure"),
    }
}

#[test]
fn buffer_is_nul_terminated() {
    assert_eq!(copy_to_wilton_bufer("abc"), vec![97u8, 98, 99, 0]);
    assert_eq!(copy_to_wilton_bufer(""), vec![0u8]);
    assert_eq!(copy_to_wilton_bufer("é"), vec![0xc3u8, 0xa9, 0]);
}

#[test]
fn error_buffer_holds_message() {
    assert_eq!(error_buffer("bad"), vec![98u8, 97, 100, 0]);
    assert!(OVERSIZED_MESSAGE.len() < 100);
}

#[test]
fn create_error_none_is_null() {
    assert_eq!(create_wilton_error(None), None);
}

#[test]
fn create_error_some_is_buffer() {
    let r = create_wilton_error(Some("boom".to_string()));
    assert_eq!(r, Some(b"boom\0".to_vec()));
}

#[test]
fn convert_error_reads_message() {
    assert_eq!(convert_wilton_error(Some(b"Call already registered".to_vec())), "Call already registered");
    assert_eq!(convert_wilton_error(Some(vec![0xffu8, 0xfe])), UNKNOWN_ERROR);
    assert_eq!(convert_wilton_error(None), NO_ERROR);
    assert_eq!(NO_ERROR, "No error");
    assert_eq!(UNKNOWN_ERROR, "Unknown error");
}

#[test]
fn registration_distinct_names_succeed() {
    assert_eq!(registration_result(None), Ok(()));
    assert_eq!(registration_result(None), Ok(()));
}

#[test]
fn call_name_length_is_byte_count() {
    assert_eq!(call_name_length("foo"), Ok(3));
    assert_eq!(call_name_length(""), Ok(0));
    assert_eq!(call_name_length("é"), Ok(2));
}

#[test]
fn registration_conflict_surfaced_verbatim() {
    let msg = "Invalid duplicate 'name' specified, name: [foo]";
    assert_eq!(registration_result(Some(msg.as_bytes().to_vec())), Err(msg.to_string()));
}

#[test]
fn panic_message_prefers_string_payload() {
    assert_eq!(panicmsg(&PanicPayload::Str("assertion failed")), "assertion failed");
    assert_eq!(panicmsg(&PanicPayload::Owned("index 7 out of range".to_string())), "index 7 out of range");
    assert_eq!(panicmsg(&PanicPayload::Opaque), PANIC_PLACEHOLDER);
    assert_eq!(PANIC_PLACEHOLDER, "()");
}

#[test]
fn input_length_needs_pointer_and_positive_length() {
    assert_eq!(input_length(true, 7), Some(7));
    assert_eq!(input_length(true, 0), None);
    assert_eq!(input_length(true, -3), None);
    assert_eq!(input_length(false, 7), None);
}

#[test]
fn absent_or_empty_input_is_empty_object() {
    assert_eq!(select_input(None), b"{}".to_vec());
    assert_eq!(select_input(Some(&[])), b"{}".to_vec());
    assert_eq!(select_input(Some(b"[1]")), b"[1]".to_vec());
    assert_eq!(EMPTY_JSON_INPUT.as_bytes(), b"{}");
}

#[test]
fn complete_call_success_and_error() {
    match complete_call(Ok("{}".to_string())) {
        BoundaryResult::Success { output, len } => {
            assert_eq!(output, b"{}\0".to_vec());
            assert_eq!(len, 2);
        }
        BoundaryResult::Failure { .. } => panic!("expected success"),
    }
    assert_eq!(failure_text(&complete_call(Err("bad input".to_string()))), "bad input");
}

#[test]
fn fault_reports_panic_text() {
    let r = fault_result(&PanicPayload::Owned("called `Option::unwrap()` on a `None` value".to_string()));
    assert_eq!(failure_text(&r), "called `Option::unwrap()` on a `None` value");
    assert_eq!(failure_text(&fault_result(&PanicPayload::Opaque)), "()");
}

#[test]
fn foo_handler_adds_five() {
    let r = run_foo(Some(br#"{"bar": 3, "baz": 10}"#));
    match r {
        BoundaryResult::Success { output, len } => {
            let text = "{\n  \"boo\": 8,\n  \"baa\": 15\n}";
            assert_eq!(len as usize, text.len());
            assert_eq!(output, format!("{}\0", text).into_bytes());
        }
        BoundaryResult::Failure { .. } => panic!("expected success"),
    }
}

#[test]
fn foo_handler_missing_field_fails() {
    let r = run_foo(Some(br#"{"bar": 3}"#));
    assert!(failure_text(&r).contains("missing field `baz`"));
}

#[test]
fn malformed_payload_fails() {
    let r = run_foo(Some(b"{\"bar\": 3, \"baz\""));
    assert!(!failure_text(&r).is_empty());
    let r = run_foo(Some(&[0xffu8, 0x00, 0x7b]));
    assert!(!failure_text(&r).is_empty());
}

#[test]
fn empty_input_decodes_as_empty_object() {
    let absent = failure_text(&run_foo(None));
    let empty = failure_text(&run_foo(Some(&[])));
    let object = failure_text(&run_foo(Some(b"{}")));
    assert_eq!(absent, object);
    assert_eq!(empty, object);
    assert!(object.contains("missing field `bar`"));
}

#[test]
fn typed_output_round_trips_as_json() {
    let out = FooOut { boo: 8, baa: -15 };
    let text = encode_foo(&out).unwrap();
    let v: serde_json::Value = serde_json::from_str(&text).unwrap();
    assert_eq!(v.get("boo").and_then(|x| x.as_i64()), Some(8));
    assert_eq!(v.get("baa").and_then(|x| x.as_i64()), Some(-15));
}
