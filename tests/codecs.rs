use codee::{
    CodecError, Decoder, Encoder, HybridCoderError, HybridDecoder, HybridEncoder, OptionCodec,
    OptionCodecError,
    SerdeLite, SerdeLiteDecodeError, SerdeLiteEncodeError, DECODE_FROM_BYTES, DECODE_FROM_STR,
    ENCODE_INTO_BYTES, ENCODE_INTO_STR,
};
use serde_lite::Intermediate;

#[derive(Clone, Debug, PartialEq)]
struct Test {
    s: String,
    i: i32,
}

/// A string codec writing a `Test` as the JSON array `[s, i]`.
struct JsonTestCodec;

impl Encoder<Test> for JsonTestCodec {
    type Error = String;
    type Encoded = String;

    fn encode(val: &Test) -> Result<String, String> {
        serde_json::to_string(&(val.s.clone(), val.i)).map_err(|e| e.to_string())
    }
}

impl Decoder<Test> for JsonTestCodec {
    type Error = String;
    type Encoded = str;

    fn decode(val: &str) -> Result<Test, String> {
        let (s, i): (String, i32) = serde_json::from_str(val).map_err(|e| e.to_string())?;
        Ok(Test { s, i })
    }
}

/// A string codec writing a `Test` as a JSON array with miniserde.
struct MiniserdeTestCodec;

impl Encoder<Test> for MiniserdeTestCodec {
    type Error = ();
    type Encoded = String;

    fn encode(val: &Test) -> Result<String, ()> {
        Ok(miniserde::json::to_string(&(val.s.clone(), val.i)))
    }
}

impl Decoder<Test> for MiniserdeTestCodec {
    type Error = miniserde::Error;
    type Encoded = str;

    fn decode(val: &str) -> Result<Test, miniserde::Error> {
        let (s, i): (String, i32) = miniserde::json::from_str(val)?;
        Ok(Test { s, i })
    }
}

/// A binary codec writing a `Test` with bincode.
struct BincodeTestCodec;

impl Encoder<Test> for BincodeTestCodec {
    type Error = String;
    type Encoded = Vec<u8>;

    fn encode(val: &Test) -> Result<Vec<u8>, String> {
        bincode::serialize(&(val.s.clone(), val.i)).map_err(|e| e.to_string())
    }
}

impl Decoder<Test> for BincodeTestCodec {
    type Error = String;
    type Encoded = [u8];

    fn decode(val: &[u8]) -> Result<Test, String> {
        let (s, i): (String, i32) = bincode::deserialize(val).map_err(|e| e.to_string())?;
        Ok(Test { s, i })
    }
}

/// A binary codec writing a `Test` with rkyv.
struct RkyvTestCodec;

impl Encoder<Test> for RkyvTestCodec {
    type Error = String;
    type Encoded = Vec<u8>;

    fn encode(val: &Test) -> Result<Vec<u8>, String> {
        let bytes = rkyv::to_bytes::<(String, i32), 1024>(&(val.s.clone(), val.i))
            .map_err(|e| e.to_string())?;
        Ok(bytes.to_vec())
    }
}

impl Decoder<Test> for RkyvTestCodec {
    type Error = String;
    type Encoded = [u8];

    fn decode(val: &[u8]) -> Result<Test, String> {
        let (s, i) = rkyv::from_bytes::<(String, i32)>(val).map_err(|e| e.to_string())?;
        Ok(Test { s, i })
    }
}

/// A string codec for `i32` written in decimal.
struct DecimalCodec;

impl Encoder<i32> for DecimalCodec {
    type Error = String;
    type Encoded = String;

    fn encode(val: &i32) -> Result<String, String> {
        Ok(val.to_string())
    }
}

impl Decoder<i32> for DecimalCodec {
    type Error = String;
    type Encoded = str;

    fn decode(val: &str) -> Result<i32, String> {
        val.parse::<i32>().map_err(|e| e.to_string())
    }
}

/// A string codec for `String` that writes the string as it is.
struct PlainCodec;

impl Encoder<String> for PlainCodec {
    type Error = ();
    type Encoded = String;

    fn encode(val: &String) -> Result<String, ()> {
        Ok(val.clone())
    }
}

impl Decoder<String> for PlainCodec {
    type Error = ();
    type Encoded = str;

    fn decode(val: &str) -> Result<String, ()> {
        Ok(String::from(val))
    }
}

/// A codec of intermediate values that always fails with the same error.
struct FailingCodec;

impl Encoder<Intermediate> for FailingCodec {
    type Error = String;
    type Encoded = String;

    fn encode(_val: &Intermediate) -> Result<String, String> {
        Err(String::from("inner encoder failed"))
    }
}

impl Decoder<Intermediate> for FailingCodec {
    type Error = String;
    type Encoded = str;

    fn decode(_val: &str) -> Result<Intermediate, String> {
        Err(String::from("inner decoder failed"))
    }
}

/// A codec of intermediate values writing booleans as `t` and `f`.
struct FlagCodec;

impl Encoder<Intermediate> for FlagCodec {
    type Error = String;
    type Encoded = String;

    fn encode(val: &Intermediate) -> Result<String, String> {
        match val {
            Intermediate::Bool(true) => Ok(String::from("t")),
            Intermediate::Bool(false) => Ok(String::from("f")),
            _ => Err(String::from("not a flag")),
        }
    }
}

impl Decoder<Intermediate> for FlagCodec {
    type Error = String;
    type Encoded = str;

    fn decode(val: &str) -> Result<Intermediate, String> {
        match val {
            "t" => Ok(Intermediate::Bool(true)),
            "f" => Ok(Intermediate::Bool(false)),
            _ => Err(String::from("not a flag")),
        }
    }
}

fn party() -> Test {
    Test {
        s: String::from("party time 🎉"),
        i: 42,
    }
}

fn party_garbled() -> Test {
    Test {
        s: String::from("party time \u{f0}\u{178}\u{17d}\u{2030}"),
        i: 42,
    }
}

fn hello() -> Test {
    Test {
        s: String::from("hello"),
        i: 7,
    }
}

fn round_trip<T, C>(val: &T) -> Result<T, CodecError<String, String>>
where
    C: Encoder<T, Encoded = String, Error = String> + Decoder<T, Encoded = str, Error = String>,
{
    let enc = C::encode(val).map_err(CodecError::Encode)?;
    C::decode(&enc).map_err(CodecError::Decode)
}

#[test]
fn test_json_codec() {
    let t = party_garbled();
    let enc = MiniserdeTestCodec::encode(&t).unwrap();
    let dec: Test = MiniserdeTestCodec::decode(&enc).unwrap();
    assert_eq!(dec, t);
}

#[test]
fn test_rkyv_codec() {
    let t = party_garbled();
    let enc = RkyvTestCodec::encode(&t).unwrap();
    let dec: Test = RkyvTestCodec::decode(&enc).unwrap();
    assert_eq!(dec, t);
}

#[test]
fn test_bincode_codec() {
    let t = party();
    let enc = BincodeTestCodec::encode(&t).unwrap();
    let dec: Test = BincodeTestCodec::decode(&enc).unwrap();
    assert_eq!(dec, t);
}

#[test]
fn string_codec_round_trip() {
    let t = hello();
    let enc = <JsonTestCodec as HybridEncoder<Test, String>>::encode_str(&t).unwrap();
    assert_eq!(enc, "[\"hello\",7]");
    let dec = <JsonTestCodec as HybridDecoder<Test, str>>::decode_str(&enc).unwrap();
    assert_eq!(dec, t);
    assert_eq!(round_trip::<Test, JsonTestCodec>(&t).unwrap(), t);
}

#[test]
fn binary_codec_round_trip() {
    let t = hello();
    let enc = <BincodeTestCodec as HybridEncoder<Test, Vec<u8>>>::encode_bin(&t).unwrap();
    assert_eq!(enc, BincodeTestCodec::encode(&t).unwrap());
    let dec = <BincodeTestCodec as HybridDecoder<Test, [u8]>>::decode_bin(&enc).unwrap();
    assert_eq!(dec, t);
}

#[test]
fn string_codec_refuses_bytes() {
    assert!(!<JsonTestCodec as HybridDecoder<Test, str>>::is_binary_decoder());
    assert!(!<JsonTestCodec as HybridEncoder<Test, String>>::is_binary_encoder());
    let r = <JsonTestCodec as HybridDecoder<Test, str>>::decode_bin(&[1, 2, 3]);
    assert!(matches!(r, Err(HybridCoderError::NotImplemented(m)) if m == DECODE_FROM_BYTES));
    let r = <JsonTestCodec as HybridEncoder<Test, String>>::encode_bin(&hello());
    assert!(matches!(r, Err(HybridCoderError::NotImplemented(m)) if m == ENCODE_INTO_BYTES));
}

#[test]
fn binary_codec_refuses_strings() {
    assert!(<BincodeTestCodec as HybridDecoder<Test, [u8]>>::is_binary_decoder());
    assert!(<BincodeTestCodec as HybridEncoder<Test, Vec<u8>>>::is_binary_encoder());
    let r = <BincodeTestCodec as HybridDecoder<Test, [u8]>>::decode_str("[\"hello\",7]");
    assert!(matches!(r, Err(HybridCoderError::NotImplemented(m)) if m == DECODE_FROM_STR));
    let r = <BincodeTestCodec as HybridEncoder<Test, Vec<u8>>>::encode_str(&hello());
    assert!(matches!(r, Err(HybridCoderError::NotImplemented(m)) if m == ENCODE_INTO_STR));
}

#[test]
fn hybrid_carries_codec_error() {
    let r = <JsonTestCodec as HybridDecoder<Test, str>>::decode_str("not json");
    let direct = JsonTestCodec::decode("not json").unwrap_err();
    assert!(matches!(r, Err(HybridCoderError::Coder(e)) if e == direct));
}

#[test]
fn option_codec_none_and_some() {
    let enc = OptionCodec::<DecimalCodec>::encode(&None).unwrap();
    assert_eq!(enc, "");
    assert_eq!(OptionCodec::<DecimalCodec>::decode(&enc).unwrap(), None);
    let enc = OptionCodec::<DecimalCodec>::encode(&Some(5)).unwrap();
    assert_eq!(enc, format!("~{}", DecimalCodec::encode(&5).unwrap()));
    assert_eq!(enc, "~5");
    assert_eq!(OptionCodec::<DecimalCodec>::decode(&enc).unwrap(), Some(5));
}

#[test]
fn option_codec_inner_empty_encoding() {
    let v = String::new();
    assert_eq!(PlainCodec::encode(&v).unwrap(), "");
    let none = OptionCodec::<PlainCodec>::encode(&None).unwrap();
    let some = OptionCodec::<PlainCodec>::encode(&Some(v.clone())).unwrap();
    assert_eq!(some, "~");
    assert_ne!(some, none);
    assert_eq!(OptionCodec::<PlainCodec>::decode(&some).unwrap(), Some(v));
    assert_eq!(OptionCodec::<PlainCodec>::decode(&none).unwrap(), None);
    let marked_text = OptionCodec::<PlainCodec>::encode(&Some(String::from("~x"))).unwrap();
    assert_eq!(marked_text, "~~x");
    assert_eq!(
        OptionCodec::<PlainCodec>::decode(&marked_text).unwrap(),
        Some(String::from("~x"))
    );
}

#[test]
fn option_codec_passes_inner_error() {
    let r = OptionCodec::<DecimalCodec>::decode("~five");
    let direct = DecimalCodec::decode("five").unwrap_err();
    assert!(matches!(r, Err(OptionCodecError::Inner(e)) if e == direct));
    let r = OptionCodec::<JsonTestCodec>::encode(&Some(hello()));
    assert_eq!(r.unwrap(), "~[\"hello\",7]");
}

#[test]
fn option_codec_refuses_unmarked() {
    let r = OptionCodec::<DecimalCodec>::decode("5");
    assert!(matches!(r, Err(OptionCodecError::Unmarked)));
}

#[test]
fn errors_convert_from_inner() {
    let h: HybridCoderError<String> = HybridCoderError::from(String::from("e"));
    assert!(matches!(h, HybridCoderError::Coder(e) if e == "e"));
    let en: SerdeLiteEncodeError<String> = SerdeLiteEncodeError::from(String::from("f"));
    assert!(matches!(en, SerdeLiteEncodeError::Encoder(e) if e == "f"));
    let de: SerdeLiteDecodeError<String> = SerdeLiteDecodeError::from(String::from("g"));
    assert!(matches!(de, SerdeLiteDecodeError::Decoder(e) if e == "g"));
}

#[test]
fn serde_lite_inner_encoder_failure() {
    let r = SerdeLite::<FailingCodec>::encode_converted(Ok(Intermediate::Bool(true)));
    assert!(matches!(r, Err(SerdeLiteEncodeError::Encoder(e)) if e == "inner encoder failed"));
}

#[test]
fn serde_lite_inner_decoder_failure() {
    let r = SerdeLite::<FailingCodec>::decode_intermediate("t");
    assert!(matches!(r, Err(SerdeLiteDecodeError::Decoder(e)) if e == "inner decoder failed"));
}

#[test]
fn serde_lite_conversion_failure_skips_inner() {
    let r = SerdeLite::<FailingCodec>::encode_converted(Err(serde_lite::Error::MissingField));
    assert!(matches!(r, Err(SerdeLiteEncodeError::SerdeLite(serde_lite::Error::MissingField))));
    let r = SerdeLite::<FailingCodec>::finish_decode::<bool>(Err(serde_lite::Error::OutOfBounds));
    assert!(matches!(r, Err(SerdeLiteDecodeError::SerdeLite(serde_lite::Error::OutOfBounds))));
}

#[test]
fn serde_lite_round_trip() {
    let converted = serde_lite::Serialize::serialize(&true);
    let enc = SerdeLite::<FlagCodec>::encode_converted(converted).unwrap();
    assert_eq!(enc, "t");
    let i = SerdeLite::<FlagCodec>::decode_intermediate(&enc).unwrap();
    let converted: Result<bool, serde_lite::Error> = serde_lite::Deserialize::deserialize(&i);
    let dec = SerdeLite::<FlagCodec>::finish_decode(converted).unwrap();
    assert!(dec);
}

#[test]
fn codec_error_reports_phase() {
    let e: CodecError<String, String> = CodecError::Encode(String::from("x"));
    assert_eq!(e.message(), "failed to encode");
    let d: CodecError<String, String> = CodecError::Decode(String::from("y"));
    assert_eq!(d.message(), "failed to decode");
    let r = round_trip::<i32, DecimalCodec>(&-12);
    assert_eq!(r.unwrap(), -12);
}

#[test]
fn codec_error_marks_encode_phase() {
    let r = round_trip::<Intermediate, FailingCodec>(&Intermediate::None);
    assert!(matches!(r, Err(CodecError::Encode(e)) if e == "inner encoder failed"));
}
