//! The streaming relay: push mode, pull mode, and faults.

use playht_rs::error::Error;
use playht_rs::relay::{relay_push, ByteSink, PullRelay, StreamedBody};

fn body(chunks: Vec<&[u8]>, fault: Option<&str>) -> StreamedBody {
    StreamedBody {
        chunks: chunks.into_iter().map(|c| c.to_vec()).collect(),
        fault: fault.map(|m| m.to_string()),
    }
}

#[test]
fn push_mode_delivers_the_concatenation_in_order() {
    let b = body(vec![b"abc", b"", b"defg", b"h"], None);
    let mut sink = ByteSink::new();
    let r = relay_push(&mut sink, &b);
    assert!(r.is_ok());
    assert_eq!(sink.data, b"abcdefgh".to_vec());
    assert_eq!(sink.data.len(), 3 + 0 + 4 + 1);
}

#[test]
fn push_mode_of_an_empty_body_delivers_nothing() {
    let b = body(vec![], None);
    let mut sink = ByteSink::new();
    assert!(relay_push(&mut sink, &b).is_ok());
    assert!(sink.data.is_empty());
}

#[test]
fn push_mode_keeps_delivered_chunks_on_a_fault() {
    let b = body(vec![b"abc", b"def"], Some("connection reset"));
    let mut sink = ByteSink::new();
    let e = relay_push(&mut sink, &b).unwrap_err();
    assert_eq!(e, Error::TransportError("connection reset".to_string()));
    assert_eq!(sink.data, b"abcdef".to_vec());
}

#[test]
fn pull_mode_yields_the_same_bytes_as_push_mode() {
    let chunks: Vec<&[u8]> = vec![b"abc", b"", b"defg", b"h"];
    let mut sink = ByteSink::new();
    assert!(relay_push(&mut sink, &body(chunks.clone(), None)).is_ok());

    let mut pulled: Vec<u8> = Vec::new();
    let mut reader = PullRelay::start(body(chunks, None));
    loop {
        match reader.next() {
            Some(Ok(chunk)) => pulled.extend_from_slice(&chunk),
            Some(Err(e)) => panic!("unexpected fault: {:?}", e),
            None => break,
        }
    }
    assert_eq!(pulled, sink.data);
}

#[test]
fn pull_mode_yields_chunks_one_by_one_in_order() {
    let mut reader = PullRelay::start(body(vec![b"ab", b"cd"], None));
    assert_eq!(reader.next().unwrap().unwrap(), b"ab".to_vec());
    assert_eq!(reader.next().unwrap().unwrap(), b"cd".to_vec());
    assert!(reader.next().is_none());
}

#[test]
fn pull_mode_cannot_be_restarted_once_exhausted() {
    let mut reader = PullRelay::start(body(vec![b"ab"], None));
    assert!(reader.next().is_some());
    assert!(reader.next().is_none());
    assert!(reader.next().is_none());
    assert!(reader.next().is_none());
}

#[test]
fn pull_mode_surfaces_a_fault_after_the_last_chunk() {
    let mut reader = PullRelay::start(body(vec![b"ab"], Some("timed out")));
    assert_eq!(reader.next().unwrap().unwrap(), b"ab".to_vec());
    let e = reader.next().unwrap().unwrap_err();
    assert_eq!(e, Error::TransportError("timed out".to_string()));
    assert!(reader.next().is_none());
    assert!(reader.next().is_none());
}
