use keel::mtp::TransportError;
use keel::pipes::{out_chunk_end, transport_error_of, InResidue, TransferFailure, RW_BUF_SIZE};

#[test]
fn out_chunks_are_at_most_16k() {
    assert_eq!(RW_BUF_SIZE, 16384);
    assert_eq!(out_chunk_end(0, 100), 100);
    assert_eq!(out_chunk_end(0, 40000), 16384);
    assert_eq!(out_chunk_end(16384, 40000), 32768);
    assert_eq!(out_chunk_end(32768, 40000), 40000);
}

#[test]
fn residue_is_served_first_and_in_order() {
    let mut r = InResidue::new();
    assert!(r.is_empty());
    let got = r.deliver(&[1, 2, 3, 4, 5], 2);
    assert_eq!(got, vec![1, 2]);
    assert!(!r.is_empty());
    let got = r.deliver(&[6, 7], 1);
    assert_eq!(got, vec![6]);
    assert_eq!(r.serve(2), vec![3, 4]);
    assert_eq!(r.serve(10), vec![5, 7]);
    assert!(r.is_empty());
    assert_eq!(r.serve(4), Vec::<u8>::new());
    assert_eq!(r.deliver(&[9], 4), vec![9]);
    assert!(r.is_empty());
}

#[test]
fn transfer_failures_map_to_transport_errors() {
    assert_eq!(transport_error_of(TransferFailure::Cancelled), TransportError::Timeout);
    assert_eq!(transport_error_of(TransferFailure::Disconnected), TransportError::DeviceGone);
    assert_eq!(transport_error_of(TransferFailure::Stall), TransportError::Stall);
    assert_eq!(
        transport_error_of(TransferFailure::Other("fault".to_string())),
        TransportError::Io("fault".to_string())
    );
}
