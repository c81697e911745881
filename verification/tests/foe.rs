use ec_control::{EcError, FoeDirective, FoePhase, FoeUpload, TransportFault, MAX_CHUNK_LEN};

/// Drive one upload against scripted exchange outcomes, the way the
/// application loop does, recording every directed round trip.
struct UploadLog {
    result: Result<(), EcError>,
    phase: FoePhase,
    opens: Vec<Vec<u8>>,
    chunks: Vec<(u32, Vec<u8>)>,
    closes: Vec<u32>,
}

fn drive(
    name: &[u8],
    data: &[u8],
    open_resp: Result<Vec<u8>, TransportFault>,
    mut write_acks: Vec<Result<(), TransportFault>>,
    close_ack: Result<(), TransportFault>,
) -> UploadLog {
    let mut up = FoeUpload::new(name.to_vec(), data.to_vec());
    let mut opens: Vec<Vec<u8>> = Vec::new();
    let mut chunks: Vec<(u32, Vec<u8>)> = Vec::new();
    let mut closes: Vec<u32> = Vec::new();
    let mut open_resp = Some(open_resp);
    let mut close_ack = Some(close_ack);
    loop {
        match up.next_directive() {
            FoeDirective::OpenWrite(n) => {
                opens.push(n);
                let resp = open_resp.take().expect("a second open was directed");
                if let Err(e) = up.on_open_response(resp) {
                    return UploadLog { result: Err(e), phase: up.phase, opens, chunks, closes };
                }
            }
            FoeDirective::WriteChunk(handle, payload) => {
                chunks.push((handle, payload));
                assert!(!write_acks.is_empty(), "upload wrote past the script");
                let ack = write_acks.remove(0);
                if let Err(e) = up.on_write_ack(ack) {
                    return UploadLog { result: Err(e), phase: up.phase, opens, chunks, closes };
                }
            }
            FoeDirective::CloseHandle(handle) => {
                closes.push(handle);
                let ack = close_ack.take().expect("a second close was directed");
                if let Err(e) = up.on_close_ack(ack) {
                    return UploadLog { result: Err(e), phase: up.phase, opens, chunks, closes };
                }
            }
            FoeDirective::Stop => {
                return UploadLog { result: Ok(()), phase: up.phase, opens, chunks, closes };
            }
        }
    }
}

#[test]
fn upload_chunks_in_order_with_exact_sizes() {
    // A 40000-byte file under the 16384-byte bound: exactly three chunk
    // writes of 16384, 16384 and 7232 bytes, in file order, then one close.
    let data: Vec<u8> = (0..40000u32).map(|i| (i % 251) as u8).collect();
    let log = drive(
        b"firmware",
        &data,
        Ok(vec![0x2A, 0x00, 0x00, 0x00]),
        vec![Ok(()), Ok(()), Ok(())],
        Ok(()),
    );
    assert_eq!(log.result, Ok(()));
    assert_eq!(log.phase, FoePhase::Finished);
    assert_eq!(log.opens, vec![b"firmware".to_vec()]);
    let sizes: Vec<usize> = log.chunks.iter().map(|(_, c)| c.len()).collect();
    assert_eq!(sizes, vec![16384, 16384, 7232]);
    assert!(log.chunks.iter().all(|(h, _)| *h == 42));
    let replayed: Vec<u8> = log.chunks.iter().flat_map(|(_, c)| c.clone()).collect();
    assert_eq!(replayed, data);
    assert_eq!(log.closes, vec![42]);
}

#[test]
fn upload_of_exactly_one_bound_is_one_chunk() {
    let data: Vec<u8> = vec![7; MAX_CHUNK_LEN];
    let log = drive(b"fw", &data, Ok(vec![1, 0, 0, 0]), vec![Ok(())], Ok(()));
    assert_eq!(log.result, Ok(()));
    assert_eq!(log.phase, FoePhase::Finished);
    assert_eq!(log.chunks.len(), 1);
    assert_eq!(log.chunks[0].1.len(), MAX_CHUNK_LEN);
    assert_eq!(log.closes, vec![1]);
}

#[test]
fn empty_file_closes_without_a_chunk() {
    let log = drive(b"fw", b"", Ok(vec![9, 0, 0, 0]), vec![], Ok(()));
    assert_eq!(log.result, Ok(()));
    assert_eq!(log.phase, FoePhase::Finished);
    assert_eq!(log.chunks.len(), 0);
    assert_eq!(log.closes, vec![9]);
}

#[test]
fn zero_handle_stops_the_upload() {
    // Handle zero from the open: NoHandleFault, and neither a chunk write
    // nor a close follows.
    let log = drive(b"fw", b"abc", Ok(vec![0, 0, 0, 0]), vec![], Ok(()));
    assert_eq!(log.result, Err(EcError::NoHandleFault));
    assert_eq!(log.phase, FoePhase::Failed);
    assert_eq!(log.chunks.len(), 0);
    assert_eq!(log.closes.len(), 0);
}

#[test]
fn handle_is_first_four_bytes_little_endian() {
    let mut up = FoeUpload::new(b"fw".to_vec(), b"x".to_vec());
    let r = up.on_open_response(Ok(vec![0x78, 0x56, 0x34, 0x12, 0xFF, 0xFF]));
    assert_eq!(r, Ok(0x12345678));
    assert_eq!(up.phase, FoePhase::Writing { handle: 0x12345678, sent: 0 });
}

#[test]
fn short_open_response_is_a_transport_fault() {
    let log = drive(b"fw", b"abc", Ok(vec![1, 0, 0]), vec![], Ok(()));
    assert_eq!(log.result, Err(EcError::Transport(TransportFault::ShortRead)));
    assert_eq!(log.phase, FoePhase::Failed);
    assert_eq!(log.chunks.len(), 0);
    assert_eq!(log.closes.len(), 0);
}

#[test]
fn transport_fault_at_open_aborts() {
    let fault = TransportFault::Forwarded { code: 1793, message: String::from("service not supported") };
    let log = drive(b"fw", b"abc", Err(fault.clone()), vec![], Ok(()));
    assert_eq!(log.result, Err(EcError::Transport(fault)));
    assert_eq!(log.phase, FoePhase::Failed);
    assert_eq!(log.chunks.len(), 0);
    assert_eq!(log.closes.len(), 0);
}

#[test]
fn transport_fault_on_chunk_write_aborts_without_close() {
    // The abort is immediate and deliberately attempts no close of the
    // server-side handle.
    let data: Vec<u8> = vec![3; MAX_CHUNK_LEN + 10];
    let fault = TransportFault::Forwarded { code: 1808, message: String::from("symbol not found") };
    let log = drive(b"fw", &data, Ok(vec![5, 0, 0, 0]), vec![Ok(()), Err(fault.clone())], Ok(()));
    assert_eq!(log.result, Err(EcError::Transport(fault)));
    assert_eq!(log.phase, FoePhase::Failed);
    assert_eq!(log.chunks.len(), 2);
    assert_eq!(log.closes.len(), 0);
}

#[test]
fn transport_fault_on_close_aborts() {
    let fault = TransportFault::Forwarded { code: 1290, message: String::from("server in invalid state") };
    let log = drive(b"fw", b"ab", Ok(vec![5, 0, 0, 0]), vec![Ok(())], Err(fault.clone()));
    assert_eq!(log.result, Err(EcError::Transport(fault)));
    assert_eq!(log.phase, FoePhase::Failed);
    assert_eq!(log.chunks.len(), 1);
    assert_eq!(log.closes, vec![5]);
}
