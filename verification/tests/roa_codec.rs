use std::str::FromStr;

use rpki::crypto::softsigner::OpenSslSigner;
use rpki::crypto::signer::Signer;
use rpki::crypto::PublicKeyFormat;
use rpki::repository::resources::Prefix;
use rpki::repository::roa::{RoaBuilder, RoaIpAddress};
use rpki::repository::sigobj::SignedObjectBuilder;
use rpki::repository::x509::Validity;

use rpki_mcp::dispatch::{finish_file, FileOutcome};
use rpki_mcp::error::ErrorKind;
use rpki_mcp::json::JsonValue;
use rpki_mcp::roa::{parsed_of_raw, roa_payload_from_bytes, RawRoa};

fn field<'a>(v: &'a JsonValue, k: &str) -> &'a JsonValue {
    v.get(k).expect("field missing")
}

#[test]
fn garbage_bytes_are_a_decode_error() {
    let r = finish_file(FileOutcome::Bytes(vec![1, 2, 3, 4]));
    let e = r.err().expect("must fail");
    assert_eq!(e.kind, ErrorKind::Decode);
    assert_eq!(e.code, -1);
    assert!(e.message.starts_with("Failed to decode file: "));
}

#[test]
fn empty_bytes_are_a_decode_error() {
    let r = roa_payload_from_bytes(&[]);
    let e = r.err().expect("must fail");
    assert_eq!(e.kind, ErrorKind::Decode);
    assert_eq!(e.code, -1);
}

#[test]
fn origin_is_rendered_as_an_as_number() {
    let raw = RawRoa {
        asn: 65000,
        v4_prefixes: vec!["192.0.2.0/24".to_string()],
        v6_prefixes: vec![],
    };
    let parsed = parsed_of_raw(&raw);
    assert_eq!(parsed.asn, "AS65000");
    assert_eq!(parsed.v4_prefixes, vec!["192.0.2.0/24".to_string()]);
    assert!(parsed.v6_prefixes.is_empty());
    let zero = RawRoa { asn: 0, v4_prefixes: vec![], v6_prefixes: vec![] };
    assert_eq!(parsed_of_raw(&zero).asn, "AS0");
}

fn build_roa_bytes() -> Vec<u8> {
    let signer = OpenSslSigner::new();
    let key = signer.create_key(PublicKeyFormat::Rsa).expect("key");
    let uri = rpki::uri::Rsync::from_str("rsync://example.com/m/p").expect("uri");
    let mut builder = RoaBuilder::new(rpki::resources::Asn::from(65000u32));
    let prefix = Prefix::from_v4_str("192.0.2.0/24").expect("prefix");
    builder.push_v4(RoaIpAddress::new(prefix, None));
    let roa = builder
        .finalize(
            SignedObjectBuilder::new(
                12u64.into(),
                Validity::from_secs(86400),
                uri.clone(),
                uri.clone(),
                uri,
            ),
            &signer,
            &key,
        )
        .expect("finalize");
    roa.to_captured().into_bytes().as_ref().to_vec()
}

#[test]
fn concurrent_operations_complete_independently() {
    // one operation fails on garbage bytes while another succeeds on a
    // well-formed status body; neither result leaks into the other
    let runtime = tokio::runtime::Builder::new_multi_thread()
        .worker_threads(2)
        .build()
        .expect("runtime");
    let failing = runtime.spawn(async {
        finish_file(FileOutcome::Bytes(vec![0xde, 0xad, 0xbe, 0xef]))
    });
    let succeeding = runtime.spawn(async {
        let body = r#"{"error": "backend still warming up"}"#.to_string();
        rpki_mcp::gateway::fetch_result(
            &rpki_mcp::gateway::Shape::Status,
            rpki_mcp::gateway::HttpOutcome::Response { status: 200, body: Some(body) },
        )
    });
    let (failed, succeeded) = runtime.block_on(async {
        (failing.await.expect("join"), succeeding.await.expect("join"))
    });
    let e = failed.err().expect("garbage bytes must fail");
    assert_eq!(e.kind, ErrorKind::Decode);
    let payload = succeeded.ok().expect("error-shaped status body must decode");
    assert_eq!(field(&payload, "error").as_string().unwrap(), "backend still warming up");
}

#[test]
fn valid_roa_bytes_decode_to_the_declared_content() {
    let bytes = build_roa_bytes();
    let payload = finish_file(FileOutcome::Bytes(bytes)).ok().expect("must decode");
    assert_eq!(field(&payload, "asn").as_string().unwrap(), "AS65000");
    let v4 = field(&payload, "v4Prefixes").as_array().unwrap();
    assert_eq!(v4.len(), 1);
    assert_eq!(v4[0].as_string().unwrap(), "192.0.2.0/24");
    assert_eq!(field(&payload, "v6Prefixes").as_array().unwrap().len(), 0);
}
