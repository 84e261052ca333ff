use clipboard::ClipboardFile;

fn every_variant() -> Vec<ClipboardFile> {
    vec![
        ClipboardFile::NotifyCallback {
            msg_type: "info".to_string(),
            title: "t".to_string(),
            text: "x".to_string(),
        },
        ClipboardFile::MonitorReady,
        ClipboardFile::FormatList { format_list: vec![(1, "text".to_string())] },
        ClipboardFile::FormatListResponse { msg_flags: 1 },
        ClipboardFile::FormatDataRequest { requested_format_id: 13 },
        ClipboardFile::FormatDataResponse { msg_flags: 1, format_data: vec![1, 2] },
        ClipboardFile::FileContentsRequest {
            stream_id: 1,
            list_index: 0,
            dw_flags: 2,
            n_position_low: 0,
            n_position_high: 0,
            cb_requested: 64,
            have_clip_data_id: false,
            clip_data_id: 0,
        },
        ClipboardFile::FileContentsResponse {
            msg_flags: 0,
            stream_id: 7,
            requested_data: vec![1, 2, 3],
        },
    ]
}

#[test]
fn beginning_messages_are_monitor_ready_and_format_list() {
    let got: Vec<bool> = every_variant().iter().map(|m| m.is_beginning_message()).collect();
    assert_eq!(got, vec![false, true, true, false, false, false, false, false]);
}

#[test]
fn stop_eligible_messages() {
    let got: Vec<bool> = every_variant().iter().map(|m| m.is_stopping_allowed()).collect();
    assert_eq!(got, vec![false, true, true, false, true, false, false, false]);
}

#[test]
fn every_beginning_message_is_stop_eligible() {
    for m in every_variant() {
        if m.is_beginning_message() {
            assert!(m.is_stopping_allowed());
        }
    }
}

#[test]
fn format_data_request_cannot_open_a_session() {
    let first = ClipboardFile::FormatDataRequest { requested_format_id: 1 };
    assert!(!first.is_beginning_message());
}

#[test]
fn empty_format_list_still_opens_a_session() {
    let first = ClipboardFile::FormatList { format_list: vec![] };
    assert!(first.is_beginning_message());
}

#[test]
fn stop_allowed_after_each_step_of_format_negotiation() {
    let seq = vec![
        ClipboardFile::MonitorReady,
        ClipboardFile::FormatList { format_list: vec![(13, "CF_UNICODETEXT".to_string())] },
        ClipboardFile::FormatDataRequest { requested_format_id: 13 },
    ];
    for m in &seq {
        assert!(m.is_stopping_allowed());
    }
}

#[test]
fn stop_refused_right_after_file_contents_request() {
    let seq = vec![
        ClipboardFile::MonitorReady,
        ClipboardFile::FileContentsRequest {
            stream_id: 1,
            list_index: 0,
            dw_flags: 2,
            n_position_low: 0,
            n_position_high: 0,
            cb_requested: 4096,
            have_clip_data_id: true,
            clip_data_id: 5,
        },
    ];
    assert!(seq[0].is_stopping_allowed());
    assert!(!seq[1].is_stopping_allowed());
}

#[test]
fn format_list_keeps_its_order() {
    let m = ClipboardFile::FormatList {
        format_list: vec![(3, "c".to_string()), (1, "a".to_string()), (2, "b".to_string())],
    };
    match m.clone() {
        ClipboardFile::FormatList { format_list } => {
            let ids: Vec<i32> = format_list.iter().map(|(id, _)| *id).collect();
            assert_eq!(ids, vec![3, 1, 2]);
        }
        _ => panic!("variant changed"),
    }
}
