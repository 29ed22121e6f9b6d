use git_single_object_fetch::cat_file::driver::{
    demux_decoded, demux_frame, demux_line, driver_start, driver_step, replay, server_error,
    DriverAction, DriverEvent, DriverState, Run,
};
use git_single_object_fetch::cat_file::request::FetchRequest;
use git_single_object_fetch::cat_file::Error;
use git_single_object_fetch::object_id::ObjectId;
use git_single_object_fetch::packet_line::{Frame, PacketLine};

const EMPTY_BLOB: [u8; 20] = [
    230, 157, 226, 155, 178, 209, 214, 67, 75, 139, 41, 174, 119, 90, 216, 194, 228, 140, 83, 145,
];

fn band(id: u8, payload: &[u8]) -> PacketLine {
    let mut data = vec![id];
    data.extend_from_slice(payload);
    PacketLine::Data(data)
}

fn finished(forwarded: &[u8], outcome: Result<(), Error>) -> Run {
    Run { state: DriverState::Finished, forwarded: forwarded.to_vec(), outcome: Some(outcome) }
}

#[test]
fn the_driver_starts_by_sending_the_single_want() {
    let id = ObjectId::from_bytes(EMPTY_BLOB);
    let (state, action) = driver_start(id);
    assert_eq!(state, DriverState::AwaitingSend);
    assert_eq!(
        action,
        DriverAction::Send(FetchRequest {
            wants: vec![id],
            deepen: 1,
            no_progress: true,
            shallow: true
        })
    );
}

#[test]
fn a_fetch_forwards_the_pack_in_the_order_of_arrival() {
    let events = vec![
        DriverEvent::Sent,
        DriverEvent::Header(true),
        DriverEvent::Line(band(1, b"PACK")),
        DriverEvent::Written,
        DriverEvent::Line(band(2, b"Counting objects")),
        DriverEvent::Line(band(1, b"\x00\x00\x00\x02")),
        DriverEvent::Written,
        DriverEvent::Line(band(1, b"rest")),
        DriverEvent::Written,
        DriverEvent::EndOfLines,
    ];
    assert_eq!(replay(events), finished(b"PACK\x00\x00\x00\x02rest", Ok(())));
}

#[test]
fn an_error_frame_ends_the_fetch_with_its_own_text() {
    let events = vec![
        DriverEvent::Sent,
        DriverEvent::Header(true),
        DriverEvent::Line(band(1, b"PACK")),
        DriverEvent::Written,
        DriverEvent::Line(band(3, b"fatal: upload-pack: not our ref")),
        DriverEvent::Line(band(1, b"more")),
        DriverEvent::Written,
        DriverEvent::EndOfLines,
    ];
    assert_eq!(
        replay(events),
        finished(b"PACK", Err(Error::BadPack(String::from("fatal: upload-pack: not our ref"))))
    );
}

#[test]
fn a_refused_write_is_a_quiet_stop() {
    let events = vec![
        DriverEvent::Sent,
        DriverEvent::Header(true),
        DriverEvent::Line(band(1, b"PACK")),
        DriverEvent::Written,
        DriverEvent::Line(band(1, b"more")),
        DriverEvent::WriteRefused,
        DriverEvent::Line(band(1, b"and more")),
        DriverEvent::Written,
        DriverEvent::Line(band(3, b"too late")),
    ];
    assert_eq!(replay(events), finished(b"PACKmore", Ok(())));
    assert_eq!(
        driver_step(DriverState::AwaitingWrite, DriverEvent::WriteRefused),
        (DriverState::Finished, DriverAction::Done)
    );
}

#[test]
fn an_unfinished_replay_tells_what_the_driver_waits_for() {
    assert_eq!(
        replay(vec![]),
        Run { state: DriverState::AwaitingSend, forwarded: vec![], outcome: None }
    );
    let events =
        vec![DriverEvent::Sent, DriverEvent::Header(true), DriverEvent::Line(band(1, b"PA"))];
    assert_eq!(
        replay(events),
        Run { state: DriverState::AwaitingWrite, forwarded: b"PA".to_vec(), outcome: None }
    );
}

#[test]
fn a_response_without_a_pack_ends_the_driver_abnormally() {
    let events = vec![DriverEvent::Sent, DriverEvent::Header(false), DriverEvent::EndOfLines];
    assert_eq!(replay(events), finished(b"", Err(Error::ThreadPanicked)));
}

#[test]
fn each_failing_stage_gives_its_own_kind_of_failure() {
    let text = || String::from("boom");
    assert_eq!(
        driver_step(DriverState::AwaitingSend, DriverEvent::SendFailed(text())),
        (DriverState::Finished, DriverAction::Fail(Error::GitClientError(text())))
    );
    assert_eq!(
        driver_step(DriverState::AwaitingHeader, DriverEvent::HeaderFailed(text())),
        (DriverState::Finished, DriverAction::Fail(Error::Fetching(text())))
    );
    assert_eq!(
        driver_step(DriverState::AwaitingLine, DriverEvent::ReadFailed(text())),
        (DriverState::Finished, DriverAction::Fail(Error::IOError(text())))
    );
    assert_eq!(
        driver_step(DriverState::AwaitingLine, DriverEvent::LineMalformed(text())),
        (DriverState::Finished, DriverAction::Fail(Error::ReadingPktLine(text())))
    );
}

#[test]
fn the_steps_of_a_sound_fetch() {
    assert_eq!(
        driver_step(DriverState::AwaitingSend, DriverEvent::Sent),
        (DriverState::AwaitingHeader, DriverAction::ReadHeader)
    );
    assert_eq!(
        driver_step(DriverState::AwaitingHeader, DriverEvent::Header(true)),
        (DriverState::AwaitingLine, DriverAction::ReadLine)
    );
    assert_eq!(
        driver_step(DriverState::AwaitingLine, DriverEvent::Line(band(1, b"abc"))),
        (DriverState::AwaitingWrite, DriverAction::Forward(b"abc".to_vec()))
    );
    assert_eq!(
        driver_step(DriverState::AwaitingWrite, DriverEvent::Written),
        (DriverState::AwaitingLine, DriverAction::ReadLine)
    );
    assert_eq!(
        driver_step(DriverState::AwaitingLine, DriverEvent::EndOfLines),
        (DriverState::Finished, DriverAction::Done)
    );
}

#[test]
fn a_line_without_a_band_fails_in_decoding_the_band() {
    for line in [band(9, b"x"), PacketLine::Data(vec![]), PacketLine::Flush, PacketLine::Delimiter]
    {
        let (state, action) = demux_line(line);
        assert_eq!(state, DriverState::Finished);
        assert!(matches!(action, DriverAction::Fail(Error::DecodingPackBand(_))));
    }
}

#[test]
fn every_frame_falls_under_one_case() {
    assert_eq!(
        demux_frame(Frame::Data(b"d".to_vec())),
        (DriverState::AwaitingWrite, DriverAction::Forward(b"d".to_vec()))
    );
    assert_eq!(
        demux_frame(Frame::Progress(b"p".to_vec())),
        (DriverState::AwaitingLine, DriverAction::ReadLine)
    );
    assert_eq!(
        demux_frame(Frame::Error(b"e".to_vec())),
        (DriverState::Finished, DriverAction::Fail(Error::BadPack(String::from("e"))))
    );
}

#[test]
fn an_error_frame_with_malformed_text_is_still_surfaced() {
    assert_eq!(
        demux_frame(Frame::Error(vec![b'n', 0xff, b'o'])),
        (DriverState::Finished, DriverAction::Fail(Error::BadPack(String::from("n\u{fffd}o"))))
    );
}

#[test]
fn a_decoded_band_is_classified_and_a_refusal_keeps_its_text() {
    assert_eq!(
        demux_decoded(Ok(Frame::Data(vec![1, 2]))),
        (DriverState::AwaitingWrite, DriverAction::Forward(vec![1, 2]))
    );
    assert_eq!(
        demux_decoded(Err(String::from("no band"))),
        (
            DriverState::Finished,
            DriverAction::Fail(Error::DecodingPackBand(String::from("no band")))
        )
    );
    assert_eq!(
        server_error(String::from("denied")),
        (DriverState::Finished, DriverAction::Fail(Error::BadPack(String::from("denied"))))
    );
}

#[test]
fn an_event_out_of_turn_ends_the_driver_abnormally() {
    let derailed = (DriverState::Finished, DriverAction::Fail(Error::ThreadPanicked));
    assert_eq!(driver_step(DriverState::AwaitingSend, DriverEvent::Written), derailed);
    assert_eq!(driver_step(DriverState::AwaitingHeader, DriverEvent::Sent), derailed);
    assert_eq!(driver_step(DriverState::AwaitingLine, DriverEvent::Header(true)), derailed);
    assert_eq!(driver_step(DriverState::AwaitingWrite, DriverEvent::EndOfLines), derailed);
    assert_eq!(driver_step(DriverState::Finished, DriverEvent::EndOfLines), derailed);
    assert_eq!(driver_step(DriverState::Finished, DriverEvent::Sent), derailed);
}
