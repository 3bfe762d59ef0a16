use inv_sig_helper::jobs::{
    decrypt_response, process_decrypt_n_signature, process_decrypt_signature, process_fetch_update,
    process_get_signature_timestamp, process_player_status, process_player_update_timestamp,
    DecryptPlan, JobOpcode, PlayerInfo,
};
use inv_sig_helper::opcode::{encode_request, FrameError, Opcode, OpcodeDecoder, OpcodeResponse};
use inv_sig_helper::player::{Extracted, FetchUpdateStatus};

fn decode_one(bytes: &[u8]) -> (Opcode, usize) {
    let mut d = OpcodeDecoder {};
    match d.decode(bytes) {
        Ok(Some(x)) => x,
        _ => panic!("expected a complete frame"),
    }
}

fn encode(r: &OpcodeResponse) -> Vec<u8> {
    let mut d = OpcodeDecoder {};
    let mut out = Vec::new();
    d.encode(r, &mut out);
    out
}

fn updated_player(ts: u64, found: bool) -> PlayerInfo {
    let mut info = PlayerInfo::new(0);
    let e = Extracted {
        nsig_code: "function decrypt_nsig(a){return a}".to_string(),
        sig_code: "var sg;".to_string(),
        sig_name: "sg".to_string(),
        sig_found: found,
        signature_timestamp: ts,
    };
    assert_eq!(info.commit(0x1234abcd, e, 1000), Ok(()));
    info
}

fn answer(plan: DecryptPlan) -> String {
    match plan {
        DecryptPlan::Answer { output } => output,
        _ => panic!("expected an immediate answer"),
    }
}

#[test]
fn player_status_before_any_update() {
    let (op, n) = decode_one(&[0x04, 0, 0, 0, 0x01]);
    assert_eq!(n, 5);
    assert_eq!(op.opcode, JobOpcode::PlayerStatus);
    let info = PlayerInfo::new(0);
    let r = process_player_status(&info, op.request_id);
    assert_eq!(encode(&r), vec![0, 0, 0, 1, 0, 0, 0, 5, 0, 0, 0, 0, 0]);
}

#[test]
fn signature_timestamp_after_update() {
    let info = updated_player(19834, true);
    let (op, _) = decode_one(&[0x03, 0, 0, 0, 0x02]);
    assert_eq!(op.opcode, JobOpcode::GetSignatureTimestamp);
    let r = process_get_signature_timestamp(&info, op.request_id);
    assert_eq!(
        encode(&r),
        vec![0, 0, 0, 2, 0, 0, 0, 8, 0, 0, 0, 0, 0, 0, 0x4D, 0x7A]
    );
}

#[test]
fn decrypt_n_signature_empty_input() {
    let info = updated_player(19834, true);
    let (op, n) = decode_one(&[0x01, 0, 0, 0, 0x03, 0, 0]);
    assert_eq!(n, 7);
    assert_eq!(op.signature, "");
    let out = answer(process_decrypt_n_signature(&info, 0, &op.signature));
    let r = decrypt_response(op.opcode, op.request_id, Some(out));
    assert_eq!(encode(&r), vec![0, 0, 0, 3, 0, 0, 0, 2, 0, 0]);
}

#[test]
fn force_update_idempotence() {
    let mut info = PlayerInfo::new(0);
    let landing = "<script src=\"/s/player/0123abcd/player_ias.vflset/en_US/base.js\">";
    let (op, _) = decode_one(&[0x00, 0, 0, 0, 0x04]);
    let id = match inv_sig_helper::player::fetch_update(&mut info, Some(landing), 5) {
        inv_sig_helper::player::UpdateStep::FetchPlayer { player_id, url } => {
            assert_eq!(
                url,
                "https://www.youtube.com/s/player/0123abcd/player_ias.vflset/en_US/base.js"
            );
            player_id
        }
        _ => panic!("expected a player fetch"),
    };
    assert_eq!(id, 0x0123abcd);
    let e = Extracted {
        nsig_code: "function decrypt_nsig(a){return a}".to_string(),
        sig_code: "var sg;".to_string(),
        sig_name: "sg".to_string(),
        sig_found: true,
        signature_timestamp: 7,
    };
    let status = inv_sig_helper::player::finish_update(&mut info, id, Ok(e), 6);
    let r = process_fetch_update(status, op.request_id);
    assert_eq!(encode(&r), vec![0, 0, 0, 4, 0, 0, 0, 2, 0xF4, 0x4F]);

    let (op, _) = decode_one(&[0x00, 0, 0, 0, 0x05]);
    let status = match inv_sig_helper::player::fetch_update(&mut info, Some(landing), 7) {
        inv_sig_helper::player::UpdateStep::Finished(s) => s,
        _ => panic!("expected the update to end"),
    };
    assert_eq!(status, Err(FetchUpdateStatus::PlayerAlreadyUpdated));
    assert_eq!(info.last_update, 7);
    let r = process_fetch_update(status, op.request_id);
    assert_eq!(encode(&r), vec![0, 0, 0, 5, 0, 0, 0, 2, 0xFF, 0xFF]);
}

#[test]
fn invalid_opcode_closes_connection() {
    let mut d = OpcodeDecoder {};
    assert!(matches!(
        d.decode(&[0x7F, 0, 0, 0, 0x06]),
        Err(FrameError::UnknownOpcode)
    ));
}

#[test]
fn signature_passthrough_without_sig_function() {
    let info = updated_player(19834, false);
    let out = answer(process_decrypt_signature(&info, 0, "abc"));
    let r = decrypt_response(JobOpcode::DecryptSignature, 9, Some(out));
    let bytes = encode(&r);
    assert_eq!(&bytes[8..], &[0x00, 0x03, 0x61, 0x62, 0x63]);
}

#[test]
fn failed_update_answers_zero_status() {
    let r = process_fetch_update(Err(FetchUpdateStatus::NsigRegexCompileFailed), 8);
    assert_eq!(encode(&r), vec![0, 0, 0, 8, 0, 0, 0, 2, 0, 0]);
}

#[test]
fn round_trip_of_each_opcode_family() {
    let cases = [
        (JobOpcode::ForceUpdate, ""),
        (JobOpcode::DecryptNSignature, "nsig-\"value\"é"),
        (JobOpcode::DecryptSignature, "AOq0QJ8wRQIh"),
        (JobOpcode::GetSignatureTimestamp, ""),
        (JobOpcode::PlayerStatus, ""),
        (JobOpcode::PlayerUpdateTimestamp, ""),
    ];
    for (i, (opcode, sig)) in cases.iter().enumerate() {
        let op = Opcode { opcode: *opcode, request_id: 0xDEAD0000 + i as u32, signature: sig.to_string() };
        let mut bytes = Vec::new();
        encode_request(&op, &mut bytes);
        let len = bytes.len();
        bytes.extend_from_slice(&[4, 0, 0]);
        let (back, n) = decode_one(&bytes);
        assert_eq!(n, len);
        assert_eq!(back.opcode, op.opcode);
        assert_eq!(back.request_id, op.request_id);
        assert_eq!(back.signature, op.signature);
    }
}

#[test]
fn truncated_frames_need_more_bytes() {
    let op = Opcode {
        opcode: JobOpcode::DecryptSignature,
        request_id: 77,
        signature: "abcdef".to_string(),
    };
    let mut bytes = Vec::new();
    encode_request(&op, &mut bytes);
    assert_eq!(bytes.len(), 13);
    let mut d = OpcodeDecoder {};
    for k in 0..bytes.len() {
        assert!(matches!(d.decode(&bytes[..k]), Ok(None)), "prefix of {} bytes", k);
    }
    assert!(matches!(d.decode(&[0x04, 0, 0]), Ok(None)));
}

#[test]
fn invalid_utf8_is_an_error() {
    let mut d = OpcodeDecoder {};
    assert!(matches!(
        d.decode(&[0x02, 0, 0, 0, 1, 0, 2, 0xC3, 0x28]),
        Err(FrameError::InvalidUtf8)
    ));
}

#[test]
fn payload_length_matches_payload() {
    let info = updated_player(19834, true);
    let responses = vec![
        process_fetch_update(Ok(()), 1),
        decrypt_response(JobOpcode::DecryptNSignature, 2, Some("xyzw".to_string())),
        process_get_signature_timestamp(&info, 3),
        process_player_status(&info, 4),
        process_player_update_timestamp(&info, 5, 61_500),
    ];
    for r in responses.iter() {
        let b = encode(r);
        let rid = u32::from_be_bytes([b[0], b[1], b[2], b[3]]);
        let len = u32::from_be_bytes([b[4], b[5], b[6], b[7]]) as usize;
        assert_eq!(rid, r.request_id);
        assert_eq!(len, b.len() - 8);
    }
}

#[test]
fn status_after_update_reports_player() {
    let info = updated_player(19834, true);
    let r = process_player_status(&info, 1);
    assert_eq!(encode(&r), vec![0, 0, 0, 1, 0, 0, 0, 5, 0xFF, 0x12, 0x34, 0xab, 0xcd]);
}

#[test]
fn update_timestamp_counts_whole_seconds() {
    let info = updated_player(19834, true);
    let r = process_player_update_timestamp(&info, 5, 61_500);
    assert_eq!(r.last_player_update, 60);
    let r = process_player_update_timestamp(&info, 5, 10);
    assert_eq!(r.last_player_update, 0);
    assert_eq!(encode(&r), vec![0, 0, 0, 5, 0, 0, 0, 8, 0, 0, 0, 0, 0, 0, 0, 0]);
}

#[test]
fn unknown_opcode_response_writes_nothing() {
    let r = OpcodeResponse::new(JobOpcode::UnknownOpcode, 3);
    assert!(encode(&r).is_empty());
}

#[test]
fn opcode_bytes() {
    for b in 0u8..=255 {
        let op = JobOpcode::from(b);
        if b <= 5 {
            assert_eq!(op.to_byte(), b);
        } else {
            assert_eq!(op, JobOpcode::UnknownOpcode);
        }
    }
    assert_eq!(JobOpcode::DecryptSignature.name(), "DecryptSignature");
}
