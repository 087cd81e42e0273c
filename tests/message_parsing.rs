use chrono::Utc;
use tokio::sync::mpsc;
use tokio::time::{timeout, Duration};
use jupyter_protocol::{Header, JupyterMessageContent, KernelInfoRequest};
use wabznasm::codec::{parse_frames, WireError};
use wabznasm::protocol::{message_kind, MessageKind};
use wabznasm::signature::{SignatureSigner, SignatureVerifier};

fn create_test_kernel_info_request_frames() -> Vec<Vec<u8>> {
    let signer = SignatureSigner::new("hmac-sha256".to_string(), b"test-key").unwrap();

    let header = Header {
        msg_id: "test-msg-id".to_string(),
        session: "test-session".to_string(),
        username: "test-user".to_string(),
        date: Utc::now(),
        msg_type: "kernel_info_request".to_string(),
        version: "5.3".to_string(),
    };

    let kernel_info_request = KernelInfoRequest {};
    let content = JupyterMessageContent::KernelInfoRequest(kernel_info_request);
    let metadata: std::collections::HashMap<String, serde_json::Value> =
        std::collections::HashMap::new();
    let empty: serde_json::Map<String, serde_json::Value> = serde_json::Map::new();

    // Serialize message parts
    let header_bytes = serde_json::to_vec(&header).unwrap();
    let parent_header_bytes = serde_json::to_vec(&empty).unwrap();
    let metadata_bytes = serde_json::to_vec(&metadata).unwrap();
    let content_bytes = serde_json::to_vec(&content).unwrap();

    let signature = signer
        .sign(&[
            &header_bytes,
            &parent_header_bytes,
            &metadata_bytes,
            &content_bytes,
        ])
        .unwrap();

    vec![
        b"router-id".to_vec(),
        b"<IDS|MSG>".to_vec(),
        signature.into_bytes(),
        header_bytes,
        parent_header_bytes,
        metadata_bytes,
        content_bytes,
    ]
}

#[test]
fn test_message_parsing_roundtrip() {
    let verifier = SignatureVerifier::new("hmac-sha256".to_string(), b"test-key").unwrap();
    let frames = create_test_kernel_info_request_frames();

    let parsed = parse_frames(&frames, &verifier).expect("message should parse");
    assert_eq!(parsed.identities, vec![b"router-id".to_vec()]);
    let header: Header = serde_json::from_slice(&parsed.header).unwrap();
    assert_eq!(header.session, "test-session");
    assert_eq!(message_kind(&header.msg_type), MessageKind::KernelInfoRequest);
    assert_eq!(parsed.parent_header, b"{}".to_vec());
}

#[test]
fn test_message_parsing_bad_signature() {
    let verifier = SignatureVerifier::new("hmac-sha256".to_string(), b"wrong-key").unwrap();
    let frames = create_test_kernel_info_request_frames();

    match parse_frames(&frames, &verifier) {
        Ok(_) => panic!("Should have failed with bad signature"),
        Err(e) => assert_eq!(e, WireError::SignatureInvalid),
    }
}

#[test]
fn test_message_parsing_frame_structure() {
    let frames = create_test_kernel_info_request_frames();
    // router-id + delimiter + signature + header + parent_header + metadata + content
    let expected_frames = 7;
    assert_eq!(frames.len(), expected_frames);
    assert_eq!(frames[1], b"<IDS|MSG>".to_vec());
}

#[test]
fn test_iopub_channel_backpressure() {
    let runtime = tokio::runtime::Builder::new_current_thread()
        .enable_time()
        .build()
        .unwrap();
    runtime.block_on(async {
        // Create a bounded channel with small capacity
        let (tx, mut rx) = mpsc::channel::<Vec<Vec<u8>>>(2);

        // Fill the channel
        tx.send(vec![vec![0u8]]).await.unwrap();
        tx.send(vec![vec![1u8]]).await.unwrap();

        // Attempt to send a third message: should block (timeout)
        let res = timeout(Duration::from_millis(100), tx.send(vec![vec![2u8]])).await;
        assert!(res.is_err(), "Expected send to block when channel is full");

        // Consume one message to free capacity
        let first = rx.recv().await;
        assert_eq!(first, Some(vec![vec![0u8]]));

        // Now sending should complete without blocking
        let res2 = timeout(Duration::from_millis(100), tx.send(vec![vec![3u8]])).await;
        assert!(res2.is_ok(), "Expected send to succeed after space freed");
    });
}
